use golem_worker::dsl::{
    acknowledgement_outcome, capture_step, invocation_key_outcome, invocation_outcome,
    start_worker_outcome, worker_metadata_outcome, CaptureAction, CaptureInput, ProtocolFault,
    Reply,
};
use golem_worker::error::{WorkerError, WorkerExecutionError};
use golem_worker::ids::{TemplateId, WorkerId};
use golem_worker::invocation::InvocationKey;
use golem_worker::log::stdout_event;
use golem_worker::worker::{
    to_worker_metadata, MetadataFault, WorkerMetadataMessage, WorkerStatus,
};

fn worker(name: &str) -> WorkerId {
    WorkerId { template_id: TemplateId { value: 1 }, name: name.to_string() }
}

fn message() -> WorkerMetadataMessage {
    WorkerMetadataMessage {
        worker_id: Some(worker("w1")),
        template_version: 2,
        args: vec!["--verbose".to_string()],
        env: vec![("KEY".to_string(), "value".to_string())],
        account_id: Some("acc".to_string()),
        status: 2,
        created_at: 1_700_000_000_000,
    }
}

#[test]
fn started_worker_or_its_error() {
    let ok = start_worker_outcome(Reply::Success { value: Some(worker("w1")) });
    assert!(matches!(ok, Ok(Ok(ref w)) if w.name == "w1"));
    let e = WorkerError::AlreadyExists { error: "dup".to_string() };
    assert!(matches!(start_worker_outcome(Reply::Failure { error: Some(e) }), Ok(Err(WorkerError::AlreadyExists { .. }))));
    assert!(matches!(start_worker_outcome(Reply::Missing), Err(ProtocolFault::NoResponse)));
    assert!(matches!(start_worker_outcome(Reply::Success { value: None }), Err(ProtocolFault::MissingWorkerId)));
    assert!(matches!(start_worker_outcome(Reply::Failure { error: None }), Err(ProtocolFault::EmptyError)));
}

#[test]
fn metadata_is_read_from_the_message() {
    let m = to_worker_metadata(message()).unwrap();
    assert_eq!(m.worker_id.worker_id.name, "w1");
    assert_eq!(m.worker_id.template_version, 2);
    assert_eq!(m.args, vec!["--verbose".to_string()]);
    assert_eq!(m.env, vec![("KEY".to_string(), "value".to_string())]);
    assert_eq!(m.account_id, "acc");
    assert_eq!(m.created_at, 1_700_000_000_000);
    assert_eq!(m.last_known_status.status, WorkerStatus::Suspended);
    assert_eq!(m.last_known_status.oplog_idx, 0);
    assert!(m.last_known_status.deleted_regions.is_empty());
}

#[test]
fn metadata_faults() {
    let mut a = message();
    a.worker_id = None;
    assert!(matches!(to_worker_metadata(a), Err(MetadataFault::MissingWorkerId)));
    let mut b = message();
    b.account_id = None;
    assert!(matches!(to_worker_metadata(b), Err(MetadataFault::MissingAccountId)));
    let mut c = message();
    c.status = 7;
    assert!(matches!(to_worker_metadata(c), Err(MetadataFault::InvalidStatus { code: 7 })));
}

#[test]
fn unknown_workers_have_no_metadata() {
    let nf = WorkerError::NotFound { error: "no".to_string() };
    assert!(matches!(worker_metadata_outcome(Reply::Failure { error: Some(nf) }), Ok(None)));
    let wnf = WorkerError::InternalError {
        error: Some(WorkerExecutionError::WorkerNotFound { worker_id: worker("w1") }),
    };
    assert!(matches!(worker_metadata_outcome(Reply::Failure { error: Some(wnf) }), Ok(None)));
    let other = WorkerError::Unauthorized { error: "no".to_string() };
    assert!(matches!(
        worker_metadata_outcome(Reply::Failure { error: Some(other) }),
        Err(ProtocolFault::Rejected { .. })
    ));
    assert!(matches!(worker_metadata_outcome(Reply::Success { value: message() }), Ok(Some(_))));
    let mut bad = message();
    bad.status = -1;
    assert!(matches!(
        worker_metadata_outcome(Reply::Success { value: bad }),
        Err(ProtocolFault::BadMetadata { fault: MetadataFault::InvalidStatus { code: -1 } })
    ));
}

#[test]
fn invocation_keys_and_results() {
    let k = InvocationKey { value: 42 };
    assert!(matches!(invocation_key_outcome(Reply::Success { value: k }), Ok(InvocationKey { value: 42 })));
    assert!(matches!(invocation_key_outcome(Reply::Missing), Err(ProtocolFault::NoResponse)));
    let r = invocation_outcome(Reply::Success { value: vec![1u64, 2] });
    assert!(matches!(r, Ok(Ok(ref v)) if v == &vec![1, 2]));
    let e = WorkerError::BadRequest { errors: vec![] };
    assert!(matches!(invocation_outcome::<()>(Reply::Failure { error: Some(e) }), Ok(Err(_))));
}

#[test]
fn acknowledgements() {
    assert!(acknowledgement_outcome(Reply::Success { value: () }).is_ok());
    let e = WorkerError::NotFound { error: "no".to_string() };
    assert!(matches!(acknowledgement_outcome(Reply::Failure { error: Some(e) }), Err(ProtocolFault::Rejected { .. })));
    assert!(matches!(acknowledgement_outcome(Reply::Failure { error: None }), Err(ProtocolFault::EmptyError)));
}

#[test]
fn capture_steps() {
    assert!(matches!(capture_step(false, CaptureInput::Event { event: stdout_event("a") }), CaptureAction::Forward { .. }));
    assert!(matches!(capture_step(true, CaptureInput::StreamEnd), CaptureAction::Reconnect));
    assert!(matches!(capture_step(false, CaptureInput::StreamEnd), CaptureAction::Finish));
    assert!(matches!(capture_step(true, CaptureInput::Abort), CaptureAction::Finish));
    assert!(matches!(capture_step(true, CaptureInput::StreamError), CaptureAction::Fail));
}
