use vstd::prelude::*;
use vstd::string::*;

use crate::ids::{
    promise_id_text, same_worker, template_id_text, worker_id_text, PromiseId, ShardId, TemplateId,
    WorkerId,
};
use crate::text::{decimal, decimal_text, join, join_text, texts};

verus! {

/// A failure inside the worker executor.
#[derive(Clone, Debug)]
pub enum WorkerExecutionError {
    InvalidRequest { details: String },
    WorkerAlreadyExists { worker_id: WorkerId },
    WorkerCreationFailed { worker_id: WorkerId, details: String },
    FailedToResumeWorker { worker_id: WorkerId },
    TemplateDownloadFailed { template_id: TemplateId, template_version: u64, reason: String },
    TemplateParseFailed { template_id: TemplateId, template_version: u64, reason: String },
    GetLatestVersionOfTemplateFailed { template_id: TemplateId, reason: String },
    PromiseNotFound { promise_id: PromiseId },
    PromiseDropped { promise_id: PromiseId },
    PromiseAlreadyCompleted { promise_id: PromiseId },
    Interrupted { recover_immediately: bool },
    ParamTypeMismatch,
    NoValueInMessage,
    ValueMismatch { details: String },
    UnexpectedOplogEntry { expected: String, got: String },
    RuntimeError { details: String },
    InvalidShardId { shard_id: ShardId, shard_ids: Vec<ShardId> },
    PreviousInvocationFailed { details: String },
    PreviousInvocationExited,
    InvalidAccount,
    WorkerNotFound { worker_id: WorkerId },
    Unknown { details: String },
}

/// An error as the control plane reports it to a client.
#[derive(Clone, Debug)]
pub enum WorkerError {
    BadRequest { errors: Vec<String> },
    Unauthorized { error: String },
    LimitExceeded { error: String },
    NotFound { error: String },
    AlreadyExists { error: String },
    InternalError { error: Option<WorkerExecutionError> },
}

/// The shard ids written as a bracketed, comma separated list.
pub open spec fn shard_ids_text(ids: Seq<ShardId>) -> Seq<char> {
    "["@ + join_text(ids.map_values(|s: ShardId| decimal_text(s.value as nat)), ", "@) + "]"@
}

/// The message that describes an executor failure.
pub open spec fn execution_error_text(e: WorkerExecutionError) -> Seq<char> {
    match e {
        WorkerExecutionError::InvalidRequest { details } => details@,
        WorkerExecutionError::WorkerAlreadyExists { worker_id } => "Worker already exists: "@
            + worker_id_text(worker_id),
        WorkerExecutionError::WorkerCreationFailed { worker_id, details } =>
            "Worker creation failed: "@ + worker_id_text(worker_id) + ": "@ + details@,
        WorkerExecutionError::FailedToResumeWorker { worker_id } => "Failed to resume worker: "@
            + worker_id_text(worker_id),
        WorkerExecutionError::TemplateDownloadFailed { template_id, template_version, reason } =>
            "Failed to download template: "@ + template_id_text(template_id) + " version "@
            + decimal_text(template_version as nat) + ": "@ + reason@,
        WorkerExecutionError::TemplateParseFailed { template_id, template_version, reason } =>
            "Failed to parse template: "@ + template_id_text(template_id) + " version "@
            + decimal_text(template_version as nat) + ": "@ + reason@,
        WorkerExecutionError::GetLatestVersionOfTemplateFailed { template_id, reason } =>
            "Failed to get latest version of template: "@ + template_id_text(template_id) + ": "@
            + reason@,
        WorkerExecutionError::PromiseNotFound { promise_id } => "Promise not found: "@
            + promise_id_text(promise_id),
        WorkerExecutionError::PromiseDropped { promise_id } => "Promise dropped: "@
            + promise_id_text(promise_id),
        WorkerExecutionError::PromiseAlreadyCompleted { promise_id } =>
            "Promise already completed: "@ + promise_id_text(promise_id),
        WorkerExecutionError::Interrupted { recover_immediately } => if recover_immediately {
            "Simulated crash"@
        } else {
            "Interrupted via the Golem API"@
        },
        WorkerExecutionError::ParamTypeMismatch => "Parameter type mismatch"@,
        WorkerExecutionError::NoValueInMessage => "No value in message"@,
        WorkerExecutionError::ValueMismatch { details } => "Value mismatch: "@ + details@,
        WorkerExecutionError::UnexpectedOplogEntry { expected, got } =>
            "Unexpected oplog entry; Expected: "@ + expected@ + ", got: "@ + got@,
        WorkerExecutionError::RuntimeError { details } => "Runtime error: "@ + details@,
        WorkerExecutionError::InvalidShardId { shard_id, shard_ids } => "Invalid shard id: "@
            + decimal_text(shard_id.value as nat) + "; ids: "@ + shard_ids_text(shard_ids@),
        WorkerExecutionError::PreviousInvocationFailed { details } =>
            "Previous invocation failed: "@ + details@,
        WorkerExecutionError::PreviousInvocationExited => "Previous invocation exited"@,
        WorkerExecutionError::InvalidAccount => "Invalid account id"@,
        WorkerExecutionError::WorkerNotFound { worker_id } => "Worker not found: "@
            + worker_id_text(worker_id),
        WorkerExecutionError::Unknown { details } => "Unknown error: "@ + details@,
    }
}

/// The message that describes an error reported to a client.
pub open spec fn worker_error_text(e: WorkerError) -> Seq<char> {
    match e {
        WorkerError::BadRequest { errors } => join_text(texts(errors@), ", "@),
        WorkerError::Unauthorized { error } => error@,
        WorkerError::LimitExceeded { error } => error@,
        WorkerError::NotFound { error } => error@,
        WorkerError::AlreadyExists { error } => error@,
        WorkerError::InternalError { error } => match error {
            None => "Internal error"@,
            Some(inner) => execution_error_text(inner),
        },
    }
}

/// Two executor failures are the same failure: same kind, same fields.
pub open spec fn same_execution_error(a: WorkerExecutionError, b: WorkerExecutionError) -> bool {
    match (a, b) {
        (
            WorkerExecutionError::InvalidRequest { details: x },
            WorkerExecutionError::InvalidRequest { details: y },
        ) => x@ == y@,
        (
            WorkerExecutionError::WorkerAlreadyExists { worker_id: x },
            WorkerExecutionError::WorkerAlreadyExists { worker_id: y },
        ) => same_worker(x, y),
        (
            WorkerExecutionError::WorkerCreationFailed { worker_id: x, details: d },
            WorkerExecutionError::WorkerCreationFailed { worker_id: y, details: e },
        ) => same_worker(x, y) && d@ == e@,
        (
            WorkerExecutionError::FailedToResumeWorker { worker_id: x },
            WorkerExecutionError::FailedToResumeWorker { worker_id: y },
        ) => same_worker(x, y),
        (
            WorkerExecutionError::TemplateDownloadFailed {
                template_id: t,
                template_version: v,
                reason: r,
            },
            WorkerExecutionError::TemplateDownloadFailed {
                template_id: u,
                template_version: w,
                reason: s,
            },
        ) => t == u && v == w && r@ == s@,
        (
            WorkerExecutionError::TemplateParseFailed { template_id: t, template_version: v, reason: r },
            WorkerExecutionError::TemplateParseFailed { template_id: u, template_version: w, reason: s },
        ) => t == u && v == w && r@ == s@,
        (
            WorkerExecutionError::GetLatestVersionOfTemplateFailed { template_id: t, reason: r },
            WorkerExecutionError::GetLatestVersionOfTemplateFailed { template_id: u, reason: s },
        ) => t == u && r@ == s@,
        (
            WorkerExecutionError::PromiseNotFound { promise_id: p },
            WorkerExecutionError::PromiseNotFound { promise_id: q },
        ) => same_worker(p.worker_id, q.worker_id) && p.oplog_idx == q.oplog_idx,
        (
            WorkerExecutionError::PromiseDropped { promise_id: p },
            WorkerExecutionError::PromiseDropped { promise_id: q },
        ) => same_worker(p.worker_id, q.worker_id) && p.oplog_idx == q.oplog_idx,
        (
            WorkerExecutionError::PromiseAlreadyCompleted { promise_id: p },
            WorkerExecutionError::PromiseAlreadyCompleted { promise_id: q },
        ) => same_worker(p.worker_id, q.worker_id) && p.oplog_idx == q.oplog_idx,
        (
            WorkerExecutionError::Interrupted { recover_immediately: x },
            WorkerExecutionError::Interrupted { recover_immediately: y },
        ) => x == y,
        (WorkerExecutionError::ParamTypeMismatch, WorkerExecutionError::ParamTypeMismatch) => true,
        (WorkerExecutionError::NoValueInMessage, WorkerExecutionError::NoValueInMessage) => true,
        (
            WorkerExecutionError::ValueMismatch { details: x },
            WorkerExecutionError::ValueMismatch { details: y },
        ) => x@ == y@,
        (
            WorkerExecutionError::UnexpectedOplogEntry { expected: e, got: g },
            WorkerExecutionError::UnexpectedOplogEntry { expected: f, got: h },
        ) => e@ == f@ && g@ == h@,
        (
            WorkerExecutionError::RuntimeError { details: x },
            WorkerExecutionError::RuntimeError { details: y },
        ) => x@ == y@,
        (
            WorkerExecutionError::InvalidShardId { shard_id: s, shard_ids: v },
            WorkerExecutionError::InvalidShardId { shard_id: t, shard_ids: w },
        ) => s == t && v@ == w@,
        (
            WorkerExecutionError::PreviousInvocationFailed { details: x },
            WorkerExecutionError::PreviousInvocationFailed { details: y },
        ) => x@ == y@,
        (
            WorkerExecutionError::PreviousInvocationExited,
            WorkerExecutionError::PreviousInvocationExited,
        ) => true,
        (WorkerExecutionError::InvalidAccount, WorkerExecutionError::InvalidAccount) => true,
        (
            WorkerExecutionError::WorkerNotFound { worker_id: x },
            WorkerExecutionError::WorkerNotFound { worker_id: y },
        ) => same_worker(x, y),
        (
            WorkerExecutionError::Unknown { details: x },
            WorkerExecutionError::Unknown { details: y },
        ) => x@ == y@,
        _ => false,
    }
}

fn shard_ids_to_text(ids: &Vec<ShardId>) -> (r: String)
    ensures
        r@ == shard_ids_text(ids@),
{
    let mut parts: Vec<String> = Vec::new();
    let mut i: usize = 0;
    while i < ids.len()
        invariant
            i <= ids.len(),
            parts@.len() == i,
            texts(parts@) =~= ids@.subrange(0, i as int).map_values(
                |s: ShardId| decimal_text(s.value as nat),
            ),
        decreases ids.len() - i,
    {
        let d = decimal(ids[i].value);
        let ghost before = parts@;
        parts.push(d);
        proof {
            let want = ids@.subrange(0, i as int + 1).map_values(
                |s: ShardId| decimal_text(s.value as nat),
            );
            assert forall|j: int| 0 <= j < i + 1 implies texts(parts@)[j] == want[j] by {
                if j < i {
                    assert(parts@[j] == before[j]);
                    assert(texts(before)[j] == decimal_text(ids@[j].value as nat));
                } else {
                    assert(parts@[j]@ == decimal_text(ids@[j].value as nat));
                }
            }
            assert(texts(parts@) =~= want);
        }
        i = i + 1;
    }
    assert(ids@.subrange(0, i as int) =~= ids@);
    let mut s = String::from_str("[");
    let inner = join(&parts, ", ");
    s.append(inner.as_str());
    s.append("]");
    s
}

fn same_shard_ids(a: &Vec<ShardId>, b: &Vec<ShardId>) -> (r: bool)
    ensures
        r == (a@ == b@),
{
    if a.len() != b.len() {
        return false;
    }
    let mut i: usize = 0;
    while i < a.len()
        invariant
            i <= a.len(),
            a.len() == b.len(),
            forall|j: int| 0 <= j < i ==> a@[j] == b@[j],
        decreases a.len() - i,
    {
        if a[i].value != b[i].value {
            return false;
        }
        i = i + 1;
    }
    assert(a@ =~= b@);
    true
}

fn text_with(prefix: &str, tail: &String) -> (r: String)
    ensures
        r@ == prefix@ + tail@,
{
    let mut s = String::from_str(prefix);
    s.append(tail.as_str());
    s
}

impl WorkerExecutionError {
    /// The message that describes this failure.
    pub fn message(&self) -> (r: String)
        ensures
            r@ == execution_error_text(*self),
    {
        match self {
            WorkerExecutionError::InvalidRequest { details } => details.clone(),
            WorkerExecutionError::WorkerAlreadyExists { worker_id } => text_with(
                "Worker already exists: ",
                &worker_id.to_text(),
            ),
            WorkerExecutionError::WorkerCreationFailed { worker_id, details } => {
                let mut s = text_with("Worker creation failed: ", &worker_id.to_text());
                s.append(": ");
                s.append(details.as_str());
                s
            },
            WorkerExecutionError::FailedToResumeWorker { worker_id } => text_with(
                "Failed to resume worker: ",
                &worker_id.to_text(),
            ),
            WorkerExecutionError::TemplateDownloadFailed { template_id, template_version, reason } => {
                let mut s = text_with("Failed to download template: ", &template_id.to_text());
                s.append(" version ");
                s.append(decimal(*template_version).as_str());
                s.append(": ");
                s.append(reason.as_str());
                s
            },
            WorkerExecutionError::TemplateParseFailed { template_id, template_version, reason } => {
                let mut s = text_with("Failed to parse template: ", &template_id.to_text());
                s.append(" version ");
                s.append(decimal(*template_version).as_str());
                s.append(": ");
                s.append(reason.as_str());
                s
            },
            WorkerExecutionError::GetLatestVersionOfTemplateFailed { template_id, reason } => {
                let mut s = text_with(
                    "Failed to get latest version of template: ",
                    &template_id.to_text(),
                );
                s.append(": ");
                s.append(reason.as_str());
                s
            },
            WorkerExecutionError::PromiseNotFound { promise_id } => text_with(
                "Promise not found: ",
                &promise_id.to_text(),
            ),
            WorkerExecutionError::PromiseDropped { promise_id } => text_with(
                "Promise dropped: ",
                &promise_id.to_text(),
            ),
            WorkerExecutionError::PromiseAlreadyCompleted { promise_id } => text_with(
                "Promise already completed: ",
                &promise_id.to_text(),
            ),
            WorkerExecutionError::Interrupted { recover_immediately } => if *recover_immediately {
                String::from_str("Simulated crash")
            } else {
                String::from_str("Interrupted via the Golem API")
            },
            WorkerExecutionError::ParamTypeMismatch => String::from_str("Parameter type mismatch"),
            WorkerExecutionError::NoValueInMessage => String::from_str("No value in message"),
            WorkerExecutionError::ValueMismatch { details } => text_with("Value mismatch: ", details),
            WorkerExecutionError::UnexpectedOplogEntry { expected, got } => {
                let mut s = text_with("Unexpected oplog entry; Expected: ", expected);
                s.append(", got: ");
                s.append(got.as_str());
                s
            },
            WorkerExecutionError::RuntimeError { details } => text_with("Runtime error: ", details),
            WorkerExecutionError::InvalidShardId { shard_id, shard_ids } => {
                let mut s = text_with("Invalid shard id: ", &decimal(shard_id.value));
                s.append("; ids: ");
                s.append(shard_ids_to_text(shard_ids).as_str());
                s
            },
            WorkerExecutionError::PreviousInvocationFailed { details } => text_with(
                "Previous invocation failed: ",
                details,
            ),
            WorkerExecutionError::PreviousInvocationExited => String::from_str(
                "Previous invocation exited",
            ),
            WorkerExecutionError::InvalidAccount => String::from_str("Invalid account id"),
            WorkerExecutionError::WorkerNotFound { worker_id } => text_with(
                "Worker not found: ",
                &worker_id.to_text(),
            ),
            WorkerExecutionError::Unknown { details } => text_with("Unknown error: ", details),
        }
    }

    /// Whether both failures are the same failure.
    pub fn same_as(&self, other: &WorkerExecutionError) -> (r: bool)
        ensures
            r == same_execution_error(*self, *other),
    {
        match (self, other) {
            (
                WorkerExecutionError::InvalidRequest { details: x },
                WorkerExecutionError::InvalidRequest { details: y },
            ) => *x == *y,
            (
                WorkerExecutionError::WorkerAlreadyExists { worker_id: x },
                WorkerExecutionError::WorkerAlreadyExists { worker_id: y },
            ) => x.same_as(y),
            (
                WorkerExecutionError::WorkerCreationFailed { worker_id: x, details: d },
                WorkerExecutionError::WorkerCreationFailed { worker_id: y, details: e },
            ) => x.same_as(y) && *d == *e,
            (
                WorkerExecutionError::FailedToResumeWorker { worker_id: x },
                WorkerExecutionError::FailedToResumeWorker { worker_id: y },
            ) => x.same_as(y),
            (
                WorkerExecutionError::TemplateDownloadFailed {
                    template_id: t,
                    template_version: v,
                    reason: r,
                },
                WorkerExecutionError::TemplateDownloadFailed {
                    template_id: u,
                    template_version: w,
                    reason: s,
                },
            ) => t.value == u.value && *v == *w && *r == *s,
            (
                WorkerExecutionError::TemplateParseFailed {
                    template_id: t,
                    template_version: v,
                    reason: r,
                },
                WorkerExecutionError::TemplateParseFailed {
                    template_id: u,
                    template_version: w,
                    reason: s,
                },
            ) => t.value == u.value && *v == *w && *r == *s,
            (
                WorkerExecutionError::GetLatestVersionOfTemplateFailed { template_id: t, reason: r },
                WorkerExecutionError::GetLatestVersionOfTemplateFailed { template_id: u, reason: s },
            ) => t.value == u.value && *r == *s,
            (
                WorkerExecutionError::PromiseNotFound { promise_id: p },
                WorkerExecutionError::PromiseNotFound { promise_id: q },
            ) => p.worker_id.same_as(&q.worker_id) && p.oplog_idx == q.oplog_idx,
            (
                WorkerExecutionError::PromiseDropped { promise_id: p },
                WorkerExecutionError::PromiseDropped { promise_id: q },
            ) => p.worker_id.same_as(&q.worker_id) && p.oplog_idx == q.oplog_idx,
            (
                WorkerExecutionError::PromiseAlreadyCompleted { promise_id: p },
                WorkerExecutionError::PromiseAlreadyCompleted { promise_id: q },
            ) => p.worker_id.same_as(&q.worker_id) && p.oplog_idx == q.oplog_idx,
            (
                WorkerExecutionError::Interrupted { recover_immediately: x },
                WorkerExecutionError::Interrupted { recover_immediately: y },
            ) => *x == *y,
            (WorkerExecutionError::ParamTypeMismatch, WorkerExecutionError::ParamTypeMismatch) => true,
            (WorkerExecutionError::NoValueInMessage, WorkerExecutionError::NoValueInMessage) => true,
            (
                WorkerExecutionError::ValueMismatch { details: x },
                WorkerExecutionError::ValueMismatch { details: y },
            ) => *x == *y,
            (
                WorkerExecutionError::UnexpectedOplogEntry { expected: e, got: g },
                WorkerExecutionError::UnexpectedOplogEntry { expected: f, got: h },
            ) => *e == *f && *g == *h,
            (
                WorkerExecutionError::RuntimeError { details: x },
                WorkerExecutionError::RuntimeError { details: y },
            ) => *x == *y,
            (
                WorkerExecutionError::InvalidShardId { shard_id: s, shard_ids: v },
                WorkerExecutionError::InvalidShardId { shard_id: t, shard_ids: w },
            ) => s.value == t.value && same_shard_ids(v, w),
            (
                WorkerExecutionError::PreviousInvocationFailed { details: x },
                WorkerExecutionError::PreviousInvocationFailed { details: y },
            ) => *x == *y,
            (
                WorkerExecutionError::PreviousInvocationExited,
                WorkerExecutionError::PreviousInvocationExited,
            ) => true,
            (WorkerExecutionError::InvalidAccount, WorkerExecutionError::InvalidAccount) => true,
            (
                WorkerExecutionError::WorkerNotFound { worker_id: x },
                WorkerExecutionError::WorkerNotFound { worker_id: y },
            ) => x.same_as(y),
            (
                WorkerExecutionError::Unknown { details: x },
                WorkerExecutionError::Unknown { details: y },
            ) => *x == *y,
            _ => false,
        }
    }
}

/// The message that describes an error reported to a client.
pub fn worker_error_message(error: &WorkerError) -> (r: String)
    ensures
        r@ == worker_error_text(*error),
{
    match error {
        WorkerError::BadRequest { errors } => join(errors, ", "),
        WorkerError::Unauthorized { error } => error.clone(),
        WorkerError::LimitExceeded { error } => error.clone(),
        WorkerError::NotFound { error } => error.clone(),
        WorkerError::AlreadyExists { error } => error.clone(),
        WorkerError::InternalError { error } => match error {
            None => String::from_str("Internal error"),
            Some(inner) => inner.message(),
        },
    }
}

/// Whether `got` is an internal error that carries exactly the failure `expected`.
pub fn is_worker_execution_error(got: &WorkerError, expected: &WorkerExecutionError) -> (r: bool)
    ensures
        r == (match *got {
            WorkerError::InternalError { error: Some(inner) } => same_execution_error(
                inner,
                *expected,
            ),
            _ => false,
        }),
{
    match got {
        WorkerError::InternalError { error: Some(inner) } => inner.same_as(expected),
        _ => false,
    }
}

} // verus!
