use crate::model::ChangeEvent;
use vstd::prelude::*;

verus! {

/// The channel on which the store announces new pending records.
pub const CHANGE_CHANNEL: &'static str = "meetup_uris_change";

/// What reaches the listener.
pub enum ListenerEvent {
    /// A notification whose payload decoded into an event.
    Decoded(ChangeEvent),
    /// A notification whose payload could not be decoded; the text says why.
    Malformed(String),
    /// The controller's mailbox did not take the last forwarded event.
    ForwardFailed(String),
    /// The subscription to the store was lost.
    SubscriptionLost,
}

/// What the owner of the listener does next.
pub enum ListenerAction {
    /// Hand the event to the controller.
    Forward(ChangeEvent),
    /// Log the text and go on listening; nothing is forwarded or retried.
    Drop(String),
    /// End the listener's task.
    Terminate,
}

/// The change listener: it forwards what decodes, drops what does not, and
/// ends only when its subscription is lost.
pub struct Listener {
    listening: bool,
}

impl Listener {
    /// Whether the subscription is still alive.
    pub closed spec fn listening(&self) -> bool {
        self.listening
    }

    /// A listener whose subscription has just been made.
    pub fn new() -> (listener: Listener)
        ensures
            listener.listening(),
    {
        Listener { listening: true }
    }

    /// Exec form of `listening`.
    pub fn is_listening(&self) -> (listening: bool)
        ensures
            listening == self.listening(),
    {
        self.listening
    }

    /// Decides what follows an event. A decoded notification is forwarded
    /// unchanged; a malformed payload and a failed hand-over are dropped and
    /// leave the subscription alive; losing the subscription ends the
    /// listener, after which every event ends in `Terminate`.
    pub fn on_event(&mut self, event: ListenerEvent) -> (action: ListenerAction)
        ensures
            final(self).listening() == (old(self).listening() && !(event is SubscriptionLost)),
            !old(self).listening() ==> action is Terminate,
            old(self).listening() ==> match event {
                ListenerEvent::Decoded(change) => action == ListenerAction::Forward(change),
                ListenerEvent::Malformed(reason) => action == ListenerAction::Drop(reason),
                ListenerEvent::ForwardFailed(reason) => action == ListenerAction::Drop(reason),
                ListenerEvent::SubscriptionLost => action is Terminate,
            },
    {
        if !self.listening {
            return ListenerAction::Terminate;
        }
        match event {
            ListenerEvent::Decoded(change) => ListenerAction::Forward(change),
            ListenerEvent::Malformed(reason) => ListenerAction::Drop(reason),
            ListenerEvent::ForwardFailed(reason) => ListenerAction::Drop(reason),
            ListenerEvent::SubscriptionLost => {
                self.listening = false;
                ListenerAction::Terminate
            },
        }
    }
}

} // verus!
