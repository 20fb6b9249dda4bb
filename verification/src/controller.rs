use crate::error::SystemError;
use crate::model::ChangeEvent;
use std::collections::VecDeque;
use vstd::prelude::*;

verus! {

/// Where the controller stands.
#[derive(Clone, Copy, Debug, PartialEq, Eq, Structural)]
pub enum ControllerState {
    /// No pass is running.
    Idle,
    /// One pass is running.
    Processing,
    /// The store was lost; the controller takes no more work.
    Terminated,
}

/// How a reconciliation pass ended.
pub enum PassOutcome {
    /// The pass was committed.
    Completed,
    /// The pass failed; what it touched is retried by a later pass.
    Failed(SystemError),
    /// The store cannot be reached any more.
    StoreLost(SystemError),
}

/// What the owner of the controller does next.
pub enum ControllerAction {
    /// Run one full pass for this event, then report how it ended.
    RunPass(ChangeEvent),
    /// Nothing to start: wait for an event or for the running pass.
    Wait,
    /// The controller has terminated.
    Stop,
}

/// The serialization point of the harvester: a mailbox of change events and
/// the rule that a pass is started only while none is running.
pub struct Controller {
    state: ControllerState,
    mailbox: VecDeque<ChangeEvent>,
    received: Ghost<nat>,
    started: Ghost<nat>,
    finished: Ghost<nat>,
}

impl Controller {
    /// Where the controller stands.
    pub closed spec fn state(&self) -> ControllerState {
        self.state
    }

    /// The events that wait for their pass, oldest first.
    pub closed spec fn mailbox(&self) -> Seq<ChangeEvent> {
        self.mailbox@
    }

    /// How many events have been submitted since the controller was made.
    pub closed spec fn events_received(&self) -> nat {
        self.received@
    }

    /// How many passes have been started since the controller was made.
    pub closed spec fn passes_started(&self) -> nat {
        self.started@
    }

    /// How many passes have been reported as ended.
    pub closed spec fn passes_finished(&self) -> nat {
        self.finished@
    }

    /// Every event received either waits in the mailbox or has started its
    /// pass, and the passes started and not yet ended are one while the
    /// controller is processing and none otherwise.
    pub open spec fn wf(&self) -> bool {
        &&& self.passes_started() + self.mailbox().len() == self.events_received()
        &&& self.passes_started() == self.passes_finished() + if self.state()
            == ControllerState::Processing {
            1nat
        } else {
            0nat
        }
    }

    /// An idle controller with an empty mailbox.
    pub fn new() -> (controller: Controller)
        ensures
            controller.wf(),
            controller.state() == ControllerState::Idle,
            controller.mailbox() == Seq::<ChangeEvent>::empty(),
            controller.events_received() == 0,
            controller.passes_started() == 0,
            controller.passes_finished() == 0,
    {
        Controller {
            state: ControllerState::Idle,
            mailbox: VecDeque::new(),
            received: Ghost(0),
            started: Ghost(0),
            finished: Ghost(0),
        }
    }

    /// Exec form of `state`.
    pub fn current_state(&self) -> (state: ControllerState)
        ensures
            state == self.state(),
    {
        self.state
    }

    /// How many events wait in the mailbox.
    pub fn waiting_events(&self) -> (count: usize)
        ensures
            count == self.mailbox().len(),
    {
        self.mailbox.len()
    }

    /// Hands an event to the controller without waiting for its pass. The
    /// event joins the end of the mailbox; a running pass is not disturbed.
    /// A controller that has terminated accepts nothing.
    pub fn submit(&mut self, event: ChangeEvent)
        requires
            old(self).wf(),
            old(self).state() != ControllerState::Terminated,
        ensures
            final(self).wf(),
            final(self).state() == old(self).state(),
            final(self).mailbox() == old(self).mailbox().push(event),
            final(self).events_received() == old(self).events_received() + 1,
            final(self).passes_started() == old(self).passes_started(),
            final(self).passes_finished() == old(self).passes_finished(),
    {
        self.mailbox.push_back(event);
        self.received = Ghost(self.received@ + 1);
    }

    /// Decides what to do next. A pass is started only from `Idle`, for the
    /// oldest waiting event, and puts the controller into `Processing`; while
    /// a pass runs, every event stays in the mailbox.
    pub fn next_action(&mut self) -> (action: ControllerAction)
        requires
            old(self).wf(),
        ensures
            final(self).wf(),
            final(self).events_received() == old(self).events_received(),
            final(self).passes_finished() == old(self).passes_finished(),
            match action {
                ControllerAction::RunPass(event) => {
                    &&& old(self).state() == ControllerState::Idle
                    &&& old(self).mailbox().len() > 0
                    &&& event == old(self).mailbox()[0]
                    &&& final(self).mailbox() == old(self).mailbox().subrange(
                        1,
                        old(self).mailbox().len() as int,
                    )
                    &&& final(self).state() == ControllerState::Processing
                    &&& final(self).passes_started() == old(self).passes_started() + 1
                },
                ControllerAction::Wait => {
                    &&& old(self).state() == ControllerState::Processing || (old(self).state()
                        == ControllerState::Idle && old(self).mailbox().len() == 0)
                    &&& final(self).state() == old(self).state()
                    &&& final(self).mailbox() == old(self).mailbox()
                    &&& final(self).passes_started() == old(self).passes_started()
                },
                ControllerAction::Stop => {
                    &&& old(self).state() == ControllerState::Terminated
                    &&& final(self).state() == old(self).state()
                    &&& final(self).mailbox() == old(self).mailbox()
                    &&& final(self).passes_started() == old(self).passes_started()
                },
            },
    {
        match self.state {
            ControllerState::Terminated => ControllerAction::Stop,
            ControllerState::Processing => ControllerAction::Wait,
            ControllerState::Idle => match self.mailbox.pop_front() {
                Some(event) => {
                    self.state = ControllerState::Processing;
                    self.started = Ghost(self.started@ + 1);
                    ControllerAction::RunPass(event)
                },
                None => ControllerAction::Wait,
            },
        }
    }

    /// Takes note of how the running pass ended. A completed pass and a
    /// failed one both return the controller to `Idle`, so that the next
    /// event is served; losing the store terminates it. A report that comes
    /// while no pass runs changes nothing.
    pub fn pass_finished(&mut self, outcome: PassOutcome)
        requires
            old(self).wf(),
        ensures
            final(self).wf(),
            final(self).mailbox() == old(self).mailbox(),
            final(self).events_received() == old(self).events_received(),
            final(self).passes_started() == old(self).passes_started(),
            final(self).state() == if old(self).state() == ControllerState::Processing {
                if outcome is StoreLost {
                    ControllerState::Terminated
                } else {
                    ControllerState::Idle
                }
            } else {
                old(self).state()
            },
            final(self).passes_finished() == if old(self).state() == ControllerState::Processing {
                old(self).passes_finished() + 1
            } else {
                old(self).passes_finished()
            },
    {
        if self.state == ControllerState::Processing {
            self.state = match outcome {
                PassOutcome::StoreLost(_) => ControllerState::Terminated,
                _ => ControllerState::Idle,
            };
            self.finished = Ghost(self.finished@ + 1);
        }
    }
}

/// At most one pass has been started and not yet ended, and no more passes
/// have been started than events were received, however fast the events
/// come in.
pub proof fn passes_never_overlap_nor_outnumber_events(controller: Controller)
    requires
        controller.wf(),
    ensures
        controller.passes_started() - controller.passes_finished() <= 1,
        controller.passes_started() - controller.passes_finished() == 1 <==> controller.state()
            == ControllerState::Processing,
        controller.passes_started() <= controller.events_received(),
{
}

} // verus!
