use golem_worker::oplog::{
    Oplog, OplogEntry, OplogEntryKind, ReplayCursor, ReplayStep, UnexpectedOplogEntry,
};
use golem_worker::worker::OplogRegion;

fn entry(kind: OplogEntryKind, payload: &[u8]) -> OplogEntry {
    OplogEntry { timestamp: 0, kind, payload: payload.to_vec() }
}

/// A durable counter: each `inc` reads the stored count (an effect), adds one and
/// records the result. Recovery replays recorded results instead of reading again.
fn inc(log: &mut Oplog, cursor: &mut ReplayCursor, live_count: &mut u64) -> u64 {
    let seen = match cursor.next_effect(log, OplogEntryKind::EffectResult).unwrap() {
        ReplayStep::Replayed { index } => log.entry(index).unwrap().payload[0] as u64,
        ReplayStep::Live => {
            let v = *live_count;
            let idx = log.append(entry(OplogEntryKind::EffectResult, &[v as u8]));
            cursor.position = idx + 1;
            v
        }
    };
    *live_count = seen + 1;
    seen + 1
}

#[test]
fn durable_counter_survives_a_simulated_crash() {
    let mut log = Oplog::new();
    let mut cursor = ReplayCursor::new();
    let mut count = 0u64;
    let results: Vec<u64> = (0..3).map(|_| inc(&mut log, &mut cursor, &mut count)).collect();
    assert_eq!(results, vec![1, 2, 3]);

    // Simulated crash: memory is lost, the oplog is replayed from the start.
    let mut cursor = ReplayCursor::new();
    let mut count = 0u64;
    for want in 1..=3 {
        assert_eq!(inc(&mut log, &mut cursor, &mut count), want);
    }
    assert_eq!(inc(&mut log, &mut cursor, &mut count), 4);
    assert_eq!(log.last_index(), 4);
}

#[test]
fn append_returns_dense_indexes_from_one() {
    let mut log = Oplog::new();
    assert_eq!(log.last_index(), 0);
    assert_eq!(log.append(entry(OplogEntryKind::Invocation, b"f")), 1);
    assert_eq!(log.append(entry(OplogEntryKind::EffectResult, b"x")), 2);
    assert!(log.entry(0).is_none());
    assert!(log.entry(3).is_none());
    assert_eq!(log.entry(2).unwrap().payload, b"x".to_vec());
}

#[test]
fn entries_stay_as_written() {
    let mut log = Oplog::new();
    log.append(entry(OplogEntryKind::EffectResult, b"first"));
    let before = log.entry(1).unwrap().payload.clone();
    log.append(entry(OplogEntryKind::Log, b"second"));
    assert!(log.mark_deleted(OplogRegion { start: 1, end: 1 }));
    assert_eq!(log.entry(1).unwrap().payload, before);
}

#[test]
fn mark_deleted_takes_only_existing_ranges() {
    let mut log = Oplog::new();
    log.append(entry(OplogEntryKind::EffectResult, b"a"));
    log.append(entry(OplogEntryKind::EffectResult, b"b"));
    assert!(!log.mark_deleted(OplogRegion { start: 0, end: 1 }));
    assert!(!log.mark_deleted(OplogRegion { start: 2, end: 1 }));
    assert!(!log.mark_deleted(OplogRegion { start: 2, end: 3 }));
    assert!(log.mark_deleted(OplogRegion { start: 1, end: 2 }));
    assert!(log.is_deleted(1) && log.is_deleted(2) && !log.is_deleted(3));
}

#[test]
fn replay_skips_deleted_regions() {
    let mut log = Oplog::new();
    log.append(entry(OplogEntryKind::EffectResult, b"failed attempt"));
    log.append(entry(OplogEntryKind::EffectResult, b"retry"));
    log.mark_deleted(OplogRegion { start: 1, end: 1 });
    let mut cursor = ReplayCursor::new();
    assert_eq!(
        cursor.next_effect(&log, OplogEntryKind::EffectResult),
        Ok(ReplayStep::Replayed { index: 2 })
    );
    assert_eq!(cursor.next_effect(&log, OplogEntryKind::EffectResult), Ok(ReplayStep::Live));
}

#[test]
fn replay_rejects_an_entry_of_another_kind() {
    let mut log = Oplog::new();
    log.append(entry(OplogEntryKind::Suspend, b""));
    let mut cursor = ReplayCursor::new();
    assert_eq!(
        cursor.next_effect(&log, OplogEntryKind::EffectResult),
        Err(UnexpectedOplogEntry {
            expected: OplogEntryKind::EffectResult,
            got: OplogEntryKind::Suspend,
        })
    );
    assert_eq!(cursor.position, 1);
}

#[test]
fn two_recoveries_observe_the_same_effects() {
    let mut log = Oplog::new();
    for k in 0..5u8 {
        log.append(entry(OplogEntryKind::EffectResult, &[k]));
    }
    log.mark_deleted(OplogRegion { start: 2, end: 3 });
    let run = |log: &Oplog| {
        let mut c = ReplayCursor::new();
        (0..4).map(|_| c.next_effect(log, OplogEntryKind::EffectResult)).collect::<Vec<_>>()
    };
    let first = run(&log);
    let second = run(&log);
    assert_eq!(first, second);
    assert_eq!(
        first,
        vec![
            Ok(ReplayStep::Replayed { index: 1 }),
            Ok(ReplayStep::Replayed { index: 4 }),
            Ok(ReplayStep::Replayed { index: 5 }),
            Ok(ReplayStep::Live),
        ]
    );
}
