use golem_worker::error::{worker_error_message, WorkerError, WorkerExecutionError};
use golem_worker::invocation::{
    CompleteError, EnqueueError, InvocationQueue, KeyRegistry, KeyState,
};
use golem_worker::worker::RuntimeState;

#[test]
fn minted_keys_are_fresh_and_pending() {
    let mut reg: KeyRegistry<Vec<u64>> = KeyRegistry::new();
    let a = reg.mint().unwrap();
    let b = reg.mint().unwrap();
    assert_ne!(a, b);
    assert!(matches!(reg.await_key(a), Some(KeyState::Pending)));
    assert!(matches!(reg.await_key(b), Some(KeyState::Pending)));
}

#[test]
fn await_on_the_same_key_returns_the_same_result() {
    let mut reg: KeyRegistry<Vec<u64>> = KeyRegistry::new();
    let k = reg.mint().unwrap();
    reg.complete(k, Ok(vec![1, 2, 3])).unwrap();
    let first = match reg.await_key(k) {
        Some(KeyState::Completed { result }) => result.clone(),
        other => panic!("unexpected {other:?}"),
    };
    let _ = reg.mint().unwrap();
    let second = match reg.await_key(k) {
        Some(KeyState::Completed { result }) => result.clone(),
        other => panic!("unexpected {other:?}"),
    };
    assert_eq!(first, vec![1, 2, 3]);
    assert_eq!(first, second);
}

#[test]
fn finished_keys_never_change() {
    let mut reg: KeyRegistry<Vec<u64>> = KeyRegistry::new();
    let k = reg.mint().unwrap();
    reg.complete(k, Ok(vec![4])).unwrap();
    assert_eq!(reg.complete(k, Ok(vec![5])), Err(CompleteError::AlreadyFinished));
    let crash = WorkerError::InternalError {
        error: Some(WorkerExecutionError::Interrupted { recover_immediately: true }),
    };
    assert_eq!(reg.complete(k, Err(crash)), Err(CompleteError::AlreadyFinished));
    assert!(matches!(reg.await_key(k), Some(KeyState::Completed { result }) if result == &vec![4]));
}

#[test]
fn simulated_crash_fails_the_key_and_a_new_invocation_succeeds() {
    let mut reg: KeyRegistry<Vec<u64>> = KeyRegistry::new();
    let k = reg.mint().unwrap();
    let crash = WorkerError::InternalError {
        error: Some(WorkerExecutionError::Interrupted { recover_immediately: true }),
    };
    reg.complete(k, Err(crash)).unwrap();
    match reg.await_key(k) {
        Some(KeyState::Failed { error }) => assert_eq!(worker_error_message(error), "Simulated crash"),
        other => panic!("unexpected {other:?}"),
    }
    let k2 = reg.mint().unwrap();
    reg.complete(k2, Ok(vec![5])).unwrap();
    assert!(matches!(reg.await_key(k2), Some(KeyState::Completed { result }) if result == &vec![5]));
}

#[test]
fn unknown_keys_are_reported() {
    let mut reg: KeyRegistry<Vec<u64>> = KeyRegistry::new();
    let k = reg.mint().unwrap();
    let other = golem_worker::invocation::InvocationKey { value: k.value + 100 };
    assert_eq!(reg.complete(other, Ok(vec![])), Err(CompleteError::UnknownKey));
    assert!(reg.await_key(other).is_none());
}

#[test]
fn queue_is_first_in_first_out() {
    let mut q: InvocationQueue<&str> = InvocationQueue::new();
    assert_eq!(q.enqueue(RuntimeState::Running, "inc"), Ok(()));
    assert_eq!(q.enqueue(RuntimeState::Suspended, "get"), Ok(()));
    assert_eq!(q.enqueue(RuntimeState::Idle, "dec"), Ok(()));
    assert_eq!(q.len(), 3);
    assert_eq!(q.next(), Some("inc"));
    assert_eq!(q.next(), Some("get"));
    assert_eq!(q.next(), Some("dec"));
    assert_eq!(q.next(), None);
}

#[test]
fn failed_or_exited_workers_take_no_invocations() {
    let mut q: InvocationQueue<u8> = InvocationQueue::new();
    assert_eq!(q.enqueue(RuntimeState::Failed, 1), Err(EnqueueError::WorkerFailed));
    assert_eq!(q.enqueue(RuntimeState::Exited, 2), Err(EnqueueError::WorkerExited));
    assert_eq!(q.len(), 0);
}

#[test]
fn echo_returns_its_params_under_the_component_convention() {
    let mut q: InvocationQueue<(golem_worker::invocation::InvocationKey, Vec<u64>)> =
        InvocationQueue::new();
    let mut reg: KeyRegistry<Vec<u64>> = KeyRegistry::new();
    let k = reg.mint().unwrap();
    q.enqueue(RuntimeState::Idle, (k, vec![7, 8, 9])).unwrap();
    let (key, params) = q.next().unwrap();
    reg.complete(key, Ok(params.clone())).unwrap();
    assert!(matches!(reg.await_key(k), Some(KeyState::Completed { result }) if result == &vec![7, 8, 9]));
}
