use vstd::prelude::*;

use crate::message::{ChatMessage, Filters, passes_filters};

verus! {

/// What the service's event stream delivered on one receive.
pub enum StreamEvent {
    /// A message was posted.
    MessageCreated(ChatMessage),
    /// Any other kind of event.
    Other,
    /// The service closed the session, with its status code, if any, and
    /// its explanation.
    Closed(Option<u16>, String),
    /// A receive failed in some other way; the text describes it.
    ReceiveError(String),
}

/// What the network loop does after one receive.
pub enum ListenerAction {
    /// Hand the message to the UI.
    Forward(ChatMessage),
    /// Discard the event and wait for the next one.
    Skip,
    /// Report the error and wait for the next event.
    LogAndContinue(String),
    /// Report the closure and leave the loop.
    Stop(Option<u16>, String),
}

impl ListenerAction {
    pub open spec fn is_final(&self) -> bool {
        self is Stop
    }

    /// Whether the network loop ends after this action.
    pub fn stops(&self) -> (r: bool)
        ensures
            r == self.is_final(),
    {
        match self {
            ListenerAction::Stop(_, _) => true,
            _ => false,
        }
    }
}

/// Decides what the network loop does with one event. Only a posted
/// message by the followed contact in the followed channel reaches the UI;
/// other events are skipped, receive errors are tolerated, and a closed
/// session ends the loop.
pub fn on_event(filters: &Filters, event: StreamEvent) -> (r: ListenerAction)
    ensures
        r is Forward ==> (event is MessageCreated && passes_filters(
            *filters,
            r->Forward_0.author_id,
            r->Forward_0.channel_id,
        )),
        match event {
            StreamEvent::MessageCreated(m) => if passes_filters(*filters, m.author_id, m.channel_id) {
                r == ListenerAction::Forward(m)
            } else {
                r == ListenerAction::Skip
            },
            StreamEvent::Other => r == ListenerAction::Skip,
            StreamEvent::Closed(code, body) => r == ListenerAction::Stop(code, body),
            StreamEvent::ReceiveError(e) => r == ListenerAction::LogAndContinue(e),
        },
{
    match event {
        StreamEvent::MessageCreated(m) => {
            if filters.accepts(&m) {
                ListenerAction::Forward(m)
            } else {
                ListenerAction::Skip
            }
        },
        StreamEvent::Other => ListenerAction::Skip,
        StreamEvent::Closed(code, body) => ListenerAction::Stop(code, body),
        StreamEvent::ReceiveError(e) => ListenerAction::LogAndContinue(e),
    }
}

} // verus!
