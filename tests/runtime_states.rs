use golem_worker::worker::{RuntimeEvent, RuntimeState, WorkerStatus};

#[test]
fn lifecycle_of_a_worker() {
    let s = RuntimeState::Idle;
    let s = s.step(RuntimeEvent::Start).unwrap();
    assert_eq!(s, RuntimeState::Loading);
    let s = s.step(RuntimeEvent::Ready).unwrap();
    assert_eq!(s, RuntimeState::Running);
    let s = s.step(RuntimeEvent::Suspend).unwrap();
    assert_eq!(s, RuntimeState::Suspended);
    let s = s.step(RuntimeEvent::Resume).unwrap();
    assert_eq!(s, RuntimeState::Running);
    assert_eq!(s.step(RuntimeEvent::Finish), Some(RuntimeState::Idle));
    assert_eq!(s.step(RuntimeEvent::Trap), Some(RuntimeState::Failed));
    assert_eq!(s.step(RuntimeEvent::Exit), Some(RuntimeState::Exited));
    assert_eq!(RuntimeState::Loading.step(RuntimeEvent::LoadFailed), Some(RuntimeState::Failed));
}

#[test]
fn interrupts() {
    let r = RuntimeState::Running;
    assert_eq!(r.step(RuntimeEvent::Interrupt { recover_immediately: false }), Some(RuntimeState::Interrupted));
    assert_eq!(r.step(RuntimeEvent::Interrupt { recover_immediately: true }), Some(RuntimeState::Idle));
    assert_eq!(RuntimeState::Interrupted.step(RuntimeEvent::Resume), Some(RuntimeState::Running));
}

#[test]
fn terminal_states_stay() {
    for s in [RuntimeState::Failed, RuntimeState::Exited] {
        assert!(!s.accepts_invocations());
        assert_eq!(s.step(RuntimeEvent::Start), None);
        assert_eq!(s.step(RuntimeEvent::Resume), None);
    }
    assert!(RuntimeState::Suspended.accepts_invocations());
    assert_eq!(RuntimeState::Idle.step(RuntimeEvent::Ready), None);
}

#[test]
fn status_codes() {
    assert_eq!(WorkerStatus::from_code(0), Some(WorkerStatus::Running));
    assert_eq!(WorkerStatus::from_code(6), Some(WorkerStatus::Exited));
    assert_eq!(WorkerStatus::from_code(7), None);
    assert_eq!(WorkerStatus::from_code(-1), None);
}
