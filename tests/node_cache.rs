use golem_worker::ids::{TemplateId, WorkerId};
use golem_worker::log::stdout_event;
use golem_worker::node::{Admission, CacheFull, EventBuffer, StreamItem, WorkerCache};
use golem_worker::worker::RuntimeState;

fn w(name: &str) -> WorkerId {
    WorkerId { template_id: TemplateId { value: 3 }, name: name.to_string() }
}

#[test]
fn cache_fills_free_slots_then_finds() {
    let mut cache = WorkerCache::new(2);
    assert!(matches!(cache.acquire(w("a")), Ok(Admission::Instantiated)));
    assert!(matches!(cache.acquire(w("b")), Ok(Admission::Instantiated)));
    assert!(matches!(cache.acquire(w("a")), Ok(Admission::Found)));
    assert_eq!(cache.len(), 2);
    assert_eq!(cache.state_of(&w("a")), Some(RuntimeState::Idle));
    assert_eq!(cache.state_of(&w("c")), None);
}

#[test]
fn least_recently_used_suspended_worker_is_evicted() {
    let mut cache = WorkerCache::new(3);
    for n in ["a", "b", "c"] {
        cache.acquire(w(n)).unwrap();
        assert!(cache.set_state(&w(n), RuntimeState::Suspended));
    }
    assert!(cache.set_state(&w("b"), RuntimeState::Running));
    // Touch "a" so that "c" is now the least recently used suspended worker.
    assert!(matches!(cache.acquire(w("a")), Ok(Admission::Found)));
    match cache.acquire(w("d")) {
        Ok(Admission::Evicted { worker_id }) => assert_eq!(worker_id.name, "c"),
        other => panic!("unexpected {other:?}"),
    }
    assert_eq!(cache.state_of(&w("c")), None);
    assert_eq!(cache.state_of(&w("b")), Some(RuntimeState::Running));
    assert_eq!(cache.len(), 3);
}

#[test]
fn running_workers_are_not_evicted() {
    let mut cache = WorkerCache::new(1);
    cache.acquire(w("a")).unwrap();
    cache.set_state(&w("a"), RuntimeState::Running);
    assert!(matches!(cache.acquire(w("b")), Err(CacheFull)));
    assert_eq!(cache.state_of(&w("a")), Some(RuntimeState::Running));
    assert!(!cache.set_state(&w("zz"), RuntimeState::Idle));
}

#[test]
fn slow_clients_see_an_overflow_marker() {
    let mut buf = EventBuffer::new(2);
    for text in ["a", "b", "c", "d"] {
        buf.push(stdout_event(text));
    }
    let mut seen = vec![];
    while let Some(item) = buf.pop() {
        seen.push(match item {
            StreamItem::Event { event } => golem_worker::log::log_event_to_string(&event),
            StreamItem::Overflow => "<overflow>".to_string(),
        });
    }
    assert_eq!(seen, vec!["a", "b", "<overflow>"]);
    buf.push(stdout_event("e"));
    assert!(matches!(buf.pop(), Some(StreamItem::Event { .. })));
    assert!(buf.pop().is_none());
}
