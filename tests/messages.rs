use golem_worker::error::{
    is_worker_execution_error, worker_error_message, WorkerError, WorkerExecutionError,
};
use golem_worker::ids::{PromiseId, ShardId, TemplateId, WorkerId};
use golem_worker::text::{decimal, hex, join};

fn worker(name: &str) -> WorkerId {
    WorkerId {
        template_id: TemplateId { value: 0xab },
        name: name.to_string(),
    }
}

fn internal(e: WorkerExecutionError) -> WorkerError {
    WorkerError::InternalError { error: Some(e) }
}

#[test]
fn decimal_writes_numbers() {
    assert_eq!(decimal(0), "0");
    assert_eq!(decimal(7), "7");
    assert_eq!(decimal(1024), "1024");
    assert_eq!(decimal(u64::MAX), "18446744073709551615");
}

#[test]
fn hex_writes_fixed_width_digits() {
    assert_eq!(hex(0xab, 4), "00ab");
    assert_eq!(hex(u128::MAX, 32), "ffffffffffffffffffffffffffffffff");
    assert_eq!(hex(5, 0), "");
}

#[test]
fn join_puts_separator_between_pieces() {
    let pieces = vec!["a".to_string(), "b".to_string(), "c".to_string()];
    assert_eq!(join(&pieces, ", "), "a, b, c");
    assert_eq!(join(&vec![], ", "), "");
    assert_eq!(join(&vec!["only".to_string()], ", "), "only");
}

#[test]
fn worker_id_text_names_template_and_worker() {
    assert_eq!(worker("w1").to_text(), "000000000000000000000000000000ab/w1");
}

#[test]
fn bad_request_joins_its_messages() {
    let e = WorkerError::BadRequest {
        errors: vec!["first".to_string(), "second".to_string()],
    };
    assert_eq!(worker_error_message(&e), "first, second");
}

#[test]
fn plain_client_errors_carry_their_text() {
    let cases = vec![
        WorkerError::Unauthorized { error: "no token".to_string() },
        WorkerError::LimitExceeded { error: "no token".to_string() },
        WorkerError::NotFound { error: "no token".to_string() },
        WorkerError::AlreadyExists { error: "no token".to_string() },
    ];
    for e in cases {
        assert_eq!(worker_error_message(&e), "no token");
    }
}

#[test]
fn internal_error_without_detail() {
    let e = WorkerError::InternalError { error: None };
    assert_eq!(worker_error_message(&e), "Internal error");
}

#[test]
fn interrupts_tell_crash_from_api_interrupt() {
    let crash = internal(WorkerExecutionError::Interrupted { recover_immediately: true });
    let interrupt = internal(WorkerExecutionError::Interrupted { recover_immediately: false });
    assert_eq!(worker_error_message(&crash), "Simulated crash");
    assert_eq!(worker_error_message(&interrupt), "Interrupted via the Golem API");
}

#[test]
fn execution_error_messages() {
    let tid = TemplateId { value: 0xab };
    let promise = PromiseId { worker_id: worker("w1"), oplog_idx: 12 };
    let w = "000000000000000000000000000000ab/w1";
    let t = "000000000000000000000000000000ab";
    let cases: Vec<(WorkerExecutionError, String)> = vec![
        (WorkerExecutionError::InvalidRequest { details: "bad".to_string() }, "bad".to_string()),
        (
            WorkerExecutionError::WorkerAlreadyExists { worker_id: worker("w1") },
            format!("Worker already exists: {w}"),
        ),
        (
            WorkerExecutionError::WorkerCreationFailed {
                worker_id: worker("w1"),
                details: "boom".to_string(),
            },
            format!("Worker creation failed: {w}: boom"),
        ),
        (
            WorkerExecutionError::FailedToResumeWorker { worker_id: worker("w1") },
            format!("Failed to resume worker: {w}"),
        ),
        (
            WorkerExecutionError::TemplateDownloadFailed {
                template_id: tid,
                template_version: 3,
                reason: "gone".to_string(),
            },
            format!("Failed to download template: {t} version 3: gone"),
        ),
        (
            WorkerExecutionError::TemplateParseFailed {
                template_id: tid,
                template_version: 4,
                reason: "junk".to_string(),
            },
            format!("Failed to parse template: {t} version 4: junk"),
        ),
        (
            WorkerExecutionError::GetLatestVersionOfTemplateFailed {
                template_id: tid,
                reason: "down".to_string(),
            },
            format!("Failed to get latest version of template: {t}: down"),
        ),
        (
            WorkerExecutionError::PromiseNotFound { promise_id: promise.clone() },
            format!("Promise not found: {w}#12"),
        ),
        (
            WorkerExecutionError::PromiseDropped { promise_id: promise.clone() },
            format!("Promise dropped: {w}#12"),
        ),
        (
            WorkerExecutionError::PromiseAlreadyCompleted { promise_id: promise.clone() },
            format!("Promise already completed: {w}#12"),
        ),
        (WorkerExecutionError::ParamTypeMismatch, "Parameter type mismatch".to_string()),
        (WorkerExecutionError::NoValueInMessage, "No value in message".to_string()),
        (
            WorkerExecutionError::ValueMismatch { details: "x".to_string() },
            "Value mismatch: x".to_string(),
        ),
        (
            WorkerExecutionError::UnexpectedOplogEntry {
                expected: "A".to_string(),
                got: "B".to_string(),
            },
            "Unexpected oplog entry; Expected: A, got: B".to_string(),
        ),
        (
            WorkerExecutionError::RuntimeError { details: "trap".to_string() },
            "Runtime error: trap".to_string(),
        ),
        (
            WorkerExecutionError::InvalidShardId {
                shard_id: ShardId { value: 3 },
                shard_ids: vec![ShardId { value: 1 }, ShardId { value: 2 }],
            },
            "Invalid shard id: 3; ids: [1, 2]".to_string(),
        ),
        (
            WorkerExecutionError::PreviousInvocationFailed { details: "d".to_string() },
            "Previous invocation failed: d".to_string(),
        ),
        (WorkerExecutionError::PreviousInvocationExited, "Previous invocation exited".to_string()),
        (WorkerExecutionError::InvalidAccount, "Invalid account id".to_string()),
        (
            WorkerExecutionError::WorkerNotFound { worker_id: worker("w1") },
            format!("Worker not found: {w}"),
        ),
        (
            WorkerExecutionError::Unknown { details: "?".to_string() },
            "Unknown error: ?".to_string(),
        ),
    ];
    for (e, want) in cases {
        assert_eq!(worker_error_message(&internal(e)), want);
    }
}

#[test]
fn invalid_shard_id_with_no_known_ids() {
    let e = internal(WorkerExecutionError::InvalidShardId {
        shard_id: ShardId { value: 0 },
        shard_ids: vec![],
    });
    assert_eq!(worker_error_message(&e), "Invalid shard id: 0; ids: []");
}

#[test]
fn execution_error_matches_only_the_same_failure() {
    let got = internal(WorkerExecutionError::WorkerNotFound { worker_id: worker("w1") });
    assert!(is_worker_execution_error(
        &got,
        &WorkerExecutionError::WorkerNotFound { worker_id: worker("w1") }
    ));
    assert!(!is_worker_execution_error(
        &got,
        &WorkerExecutionError::WorkerNotFound { worker_id: worker("w2") }
    ));
    assert!(!is_worker_execution_error(&got, &WorkerExecutionError::InvalidAccount));
    let plain = WorkerError::NotFound { error: "x".to_string() };
    assert!(!is_worker_execution_error(
        &plain,
        &WorkerExecutionError::WorkerNotFound { worker_id: worker("w1") }
    ));
    let shards = internal(WorkerExecutionError::InvalidShardId {
        shard_id: ShardId { value: 1 },
        shard_ids: vec![ShardId { value: 1 }],
    });
    assert!(is_worker_execution_error(
        &shards,
        &WorkerExecutionError::InvalidShardId {
            shard_id: ShardId { value: 1 },
            shard_ids: vec![ShardId { value: 1 }],
        }
    ));
    assert!(!is_worker_execution_error(
        &shards,
        &WorkerExecutionError::InvalidShardId {
            shard_id: ShardId { value: 1 },
            shard_ids: vec![ShardId { value: 2 }],
        }
    ));
}
