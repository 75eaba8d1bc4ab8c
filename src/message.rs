use vstd::prelude::*;

verus! {

/// A chat message, received from the service or composed locally.
pub struct ChatMessage {
    /// Identity of the author, as the filters compare it.
    pub author_id: u64,
    /// Display name of the author, shown in headers.
    pub author_name: String,
    /// The message text.
    pub body: String,
    /// The conversation the message belongs to.
    pub channel_id: u64,
}

impl ChatMessage {
    pub fn new(author_id: u64, author_name: String, body: String, channel_id: u64) -> (r: Self)
        ensures
            r.author_id == author_id,
            r.author_name@ == author_name@,
            r.body@ == body@,
            r.channel_id == channel_id,
    {
        ChatMessage { author_id, author_name, body, channel_id }
    }
}

impl Clone for ChatMessage {
    fn clone(&self) -> (r: Self)
        ensures
            r.author_id == self.author_id,
            r.author_name@ == self.author_name@,
            r.body@ == self.body@,
            r.channel_id == self.channel_id,
    {
        ChatMessage {
            author_id: self.author_id,
            author_name: self.author_name.clone(),
            body: self.body.clone(),
            channel_id: self.channel_id,
        }
    }
}

/// The one conversation this client follows: one contact in one channel.
#[derive(Clone, Copy, PartialEq, Eq, Structural, Debug)]
pub struct Filters {
    pub contact_id: u64,
    pub channel_id: u64,
}

/// Whether a message by `author_id` in `channel_id` belongs to the followed
/// conversation.
pub open spec fn passes_filters(f: Filters, author_id: u64, channel_id: u64) -> bool {
    author_id == f.contact_id && channel_id == f.channel_id
}

impl Filters {
    pub fn new(contact_id: u64, channel_id: u64) -> (r: Self)
        ensures
            r.contact_id == contact_id,
            r.channel_id == channel_id,
    {
        Filters { contact_id, channel_id }
    }

    /// Whether a received message belongs to the followed conversation.
    pub fn accepts(&self, m: &ChatMessage) -> (r: bool)
        ensures
            r == passes_filters(*self, m.author_id, m.channel_id),
    {
        m.author_id == self.contact_id && m.channel_id == self.channel_id
    }
}

} // verus!
