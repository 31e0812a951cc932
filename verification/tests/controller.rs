use tinyfw::controller::{
    controller_step, is_task_start_topic, ControllerAction, ControllerEvent, ControllerPhase,
};

#[test]
fn task_start_topic_is_recognised() {
    assert!(is_task_start_topic(&String::from("/tasks/start")));
    assert!(!is_task_start_topic(&String::from("/tasks/exit")));
    assert!(!is_task_start_topic(&String::from("/containers/create")));
    assert!(!is_task_start_topic(&String::from("")));
}

#[test]
fn startup_with_zero_containers_attaches_nothing() {
    let (phase, action) = controller_step(
        ControllerPhase::Starting,
        &ControllerEvent::ContainersListed { running: 0 },
    );
    assert_eq!(phase, ControllerPhase::Listening);
    assert_eq!(action, ControllerAction::NoAction);
}

#[test]
fn startup_with_running_containers_runs_a_pass() {
    let (phase, action) = controller_step(
        ControllerPhase::Starting,
        &ControllerEvent::ContainersListed { running: 2 },
    );
    assert_eq!(phase, ControllerPhase::Listening);
    assert_eq!(action, ControllerAction::RunAttachPass);
}

#[test]
fn a_task_start_event_runs_a_pass() {
    let (phase, action) = controller_step(
        ControllerPhase::Listening,
        &ControllerEvent::LifecycleEvent { topic: String::from("/tasks/start") },
    );
    assert_eq!(phase, ControllerPhase::Listening);
    assert_eq!(action, ControllerAction::RunAttachPass);
}

#[test]
fn other_lifecycle_events_are_ignored() {
    let (phase, action) = controller_step(
        ControllerPhase::Listening,
        &ControllerEvent::LifecycleEvent { topic: String::from("/tasks/exit") },
    );
    assert_eq!(phase, ControllerPhase::Listening);
    assert_eq!(action, ControllerAction::NoAction);
}

#[test]
fn a_termination_signal_drains_from_any_phase() {
    for phase in [ControllerPhase::Starting, ControllerPhase::Listening] {
        let (next, action) = controller_step(phase, &ControllerEvent::TerminationSignal);
        assert_eq!(next, ControllerPhase::Draining);
        assert_eq!(action, ControllerAction::Stop);
    }
}

#[test]
fn a_stream_failure_is_fatal() {
    let (phase, action) =
        controller_step(ControllerPhase::Listening, &ControllerEvent::StreamFailed);
    assert_eq!(phase, ControllerPhase::Draining);
    assert_eq!(action, ControllerAction::Fail);
}

#[test]
fn a_closed_stream_keeps_waiting() {
    let (phase, action) =
        controller_step(ControllerPhase::Listening, &ControllerEvent::StreamEnded);
    assert_eq!(phase, ControllerPhase::Listening);
    assert_eq!(action, ControllerAction::NoAction);
}

#[test]
fn draining_absorbs_every_event() {
    let events = [
        ControllerEvent::ContainersListed { running: 3 },
        ControllerEvent::LifecycleEvent { topic: String::from("/tasks/start") },
        ControllerEvent::StreamEnded,
        ControllerEvent::StreamFailed,
        ControllerEvent::TerminationSignal,
    ];
    for event in events {
        let (phase, action) = controller_step(ControllerPhase::Draining, &event);
        assert_eq!(phase, ControllerPhase::Draining);
        assert_eq!(action, ControllerAction::NoAction);
    }
}
