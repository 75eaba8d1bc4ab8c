use vstd::prelude::*;

use crate::message::ChatMessage;
use crate::transcript::{Entry, Transcript, entries_model, step};

verus! {

/// A message to submit to the service.
pub struct SendRequest {
    pub channel_id: u64,
    pub text: String,
}

/// What a committed compose buffer leads to: the message to submit and the
/// transcript lines of its local echo.
pub struct Commit {
    pub send: SendRequest,
    pub added: Vec<Entry>,
}

/// One tick of the UI timer, given what a non-blocking receive from the
/// hand-off returned: a message is rendered, nothing leaves the transcript
/// as it was. Returns the lines added.
pub fn poll_tick(t: &mut Transcript, received: Option<ChatMessage>) -> (added: Vec<Entry>)
    requires
        old(t).wf(),
    ensures
        final(t).wf(),
        match received {
            None => {
                &&& added@.len() == 0
                &&& final(t).lines() == old(t).lines()
                &&& final(t).history() == old(t).history()
                &&& final(t).last_author() == old(t).last_author()
            },
            Some(m) => {
                &&& final(t).history() == old(t).history().push((m.author_name@, m.body@))
                &&& entries_model(added@) == step(old(t).last_author(), m.author_name@, m.body@)
                &&& final(t).lines() == old(t).lines() + entries_model(added@)
                &&& final(t).last_author() == Some(m.author_name@)
            },
        },
{
    match received {
        Some(m) => t.append_message(&m),
        None => Vec::new(),
    }
}

/// Handles a key press on the compose area. Only the commit key acts: the
/// text is sent to `channel_id` and echoed locally under `self_name`, by the
/// same grouping rule as received messages.
pub fn on_key(t: &mut Transcript, is_commit_key: bool, channel_id: u64, self_name: &String, text: String)
    -> (r: Option<Commit>)
    requires
        old(t).wf(),
    ensures
        final(t).wf(),
        r.is_some() == is_commit_key,
        !is_commit_key ==> {
            &&& final(t).lines() == old(t).lines()
            &&& final(t).history() == old(t).history()
            &&& final(t).last_author() == old(t).last_author()
        },
        is_commit_key ==> {
            let c = r.unwrap();
            &&& c.send.channel_id == channel_id
            &&& c.send.text@ == text@
            &&& final(t).history() == old(t).history().push((self_name@, text@))
            &&& entries_model(c.added@) == step(old(t).last_author(), self_name@, text@)
            &&& final(t).lines() == old(t).lines() + entries_model(c.added@)
            &&& final(t).last_author() == Some(self_name@)
        },
{
    if !is_commit_key {
        return None;
    }
    let added = t.append(self_name, &text);
    Some(Commit { send: SendRequest { channel_id, text }, added })
}

} // verus!
