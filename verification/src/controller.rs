//! The lifecycle-event controller, as a pure step function from the current
//! phase and an incoming event to the next phase and the action owed.
//!
//! The surrounding process feeds it what it observed — the startup container
//! count, one lifecycle event at a time, the end or failure of the event
//! stream, a termination signal — performs the returned action, and keeps the
//! returned phase. Every decision of container mode lives here.

use vstd::prelude::*;

verus! {

/// The phase of container-mode operation.
#[derive(Clone, Copy, Debug, PartialEq, Eq, Structural)]
pub enum ControllerPhase {
    /// Before the startup query of running containers has been answered.
    Starting,
    /// Subscribed to the runtime's lifecycle events.
    Listening,
    /// A termination signal or a fatal stream error arrived; shutting down.
    Draining,
}

/// One observation handed to the controller.
pub enum ControllerEvent {
    /// The startup query answered: this many containers are running.
    ContainersListed {
        /// Number of currently running containers.
        running: usize,
    },
    /// One event arrived on the lifecycle stream, carrying its topic.
    LifecycleEvent {
        /// The event's topic string.
        topic: String,
    },
    /// The lifecycle stream ended without an error.
    StreamEnded,
    /// The lifecycle stream failed; fatal for container mode.
    StreamFailed,
    /// The process received a termination signal.
    TerminationSignal,
}

/// What the process must do after a step.
#[derive(Clone, Copy, Debug, PartialEq, Eq, Structural)]
pub enum ControllerAction {
    /// Run one discovery-and-attach pass over the host interfaces.
    RunAttachPass,
    /// Nothing to do.
    NoAction,
    /// Exit cleanly.
    Stop,
    /// Exit reporting a failure.
    Fail,
}

/// The topic that marks a task/container start event; only such events
/// trigger a discovery pass.
pub open spec fn spec_task_start_topic() -> Seq<char> {
    "/tasks/start"@
}

/// Decides whether a lifecycle event's topic denotes a task/container start.
pub fn is_task_start_topic(topic: &String) -> (r: bool)
    ensures
        r == (topic@ == spec_task_start_topic()),
{
    let expected: String = "/tasks/start".to_owned();
    topic.eq(&expected)
}

/// The controller's transition function: next phase and owed action for one
/// observation in a given phase.
pub open spec fn spec_controller_step(phase: ControllerPhase, event: ControllerEvent) -> (
    ControllerPhase,
    ControllerAction,
) {
    match (phase, event) {
        (ControllerPhase::Draining, _) => (ControllerPhase::Draining, ControllerAction::NoAction),
        (_, ControllerEvent::TerminationSignal) => (
            ControllerPhase::Draining,
            ControllerAction::Stop,
        ),
        (ControllerPhase::Starting, ControllerEvent::ContainersListed { running }) => (
            ControllerPhase::Listening,
            if running > 0 {
                ControllerAction::RunAttachPass
            } else {
                ControllerAction::NoAction
            },
        ),
        (ControllerPhase::Starting, _) => (ControllerPhase::Starting, ControllerAction::NoAction),
        (ControllerPhase::Listening, ControllerEvent::LifecycleEvent { topic }) => (
            ControllerPhase::Listening,
            if topic@ == spec_task_start_topic() {
                ControllerAction::RunAttachPass
            } else {
                ControllerAction::NoAction
            },
        ),
        (ControllerPhase::Listening, ControllerEvent::StreamFailed) => (
            ControllerPhase::Draining,
            ControllerAction::Fail,
        ),
        (ControllerPhase::Listening, _) => (
            ControllerPhase::Listening,
            ControllerAction::NoAction,
        ),
    }
}

/// Performs one controller step.
pub fn controller_step(phase: ControllerPhase, event: &ControllerEvent) -> (r: (
    ControllerPhase,
    ControllerAction,
))
    ensures
        r == spec_controller_step(phase, *event),
{
    match (phase, event) {
        (ControllerPhase::Draining, _) => (ControllerPhase::Draining, ControllerAction::NoAction),
        (_, ControllerEvent::TerminationSignal) => (
            ControllerPhase::Draining,
            ControllerAction::Stop,
        ),
        (ControllerPhase::Starting, ControllerEvent::ContainersListed { running }) => (
            ControllerPhase::Listening,
            if *running > 0 {
                ControllerAction::RunAttachPass
            } else {
                ControllerAction::NoAction
            },
        ),
        (ControllerPhase::Starting, _) => (ControllerPhase::Starting, ControllerAction::NoAction),
        (ControllerPhase::Listening, ControllerEvent::LifecycleEvent { topic }) => (
            ControllerPhase::Listening,
            if is_task_start_topic(topic) {
                ControllerAction::RunAttachPass
            } else {
                ControllerAction::NoAction
            },
        ),
        (ControllerPhase::Listening, ControllerEvent::StreamFailed) => (
            ControllerPhase::Draining,
            ControllerAction::Fail,
        ),
        (ControllerPhase::Listening, _) => (
            ControllerPhase::Listening,
            ControllerAction::NoAction,
        ),
    }
}

/// Draining is terminal: no event leads out of it and none triggers another
/// attach pass once draining has begun.
pub proof fn lemma_draining_is_terminal(event: ControllerEvent)
    ensures
        spec_controller_step(ControllerPhase::Draining, event).0 == ControllerPhase::Draining,
        spec_controller_step(ControllerPhase::Draining, event).1 != ControllerAction::RunAttachPass,
{
}

/// An attach pass is owed only for a startup answer that reports at least one
/// running container, or for a lifecycle event whose topic denotes a task
/// start.
pub proof fn lemma_attach_pass_causes(phase: ControllerPhase, event: ControllerEvent)
    requires
        spec_controller_step(phase, event).1 == ControllerAction::RunAttachPass,
    ensures
        phase == ControllerPhase::Starting || phase == ControllerPhase::Listening,
        phase == ControllerPhase::Starting ==> event is ContainersListed
            && event->ContainersListed_running > 0,
        phase == ControllerPhase::Listening ==> event is LifecycleEvent
            && event->LifecycleEvent_topic@ == spec_task_start_topic(),
{
}

} // verus!
