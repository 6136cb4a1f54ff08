use vstd::prelude::*;

use crate::error::{WorkerError, WorkerExecutionError};
use crate::ids::WorkerId;
use crate::invocation::InvocationKey;
use crate::log::LogEvent;
use crate::worker::{
    metadata_fault, reads_metadata, to_worker_metadata, MetadataFault, WorkerMetadata,
    WorkerMetadataMessage,
};

verus! {

/// A control-plane reply as it arrives: no result at all, a success, or an error
/// envelope whose detail may be missing.
#[derive(Clone, Debug)]
pub enum Reply<T> {
    Missing,
    Success { value: T },
    Failure { error: Option<WorkerError> },
}

/// A reply that breaks the control protocol, or an error where the operation
/// admits none.
#[derive(Clone, Debug)]
pub enum ProtocolFault {
    NoResponse,
    EmptyError,
    MissingWorkerId,
    Rejected { error: WorkerError },
    BadMetadata { fault: MetadataFault },
}

/// Whether an error says that the worker does not exist.
pub open spec fn is_not_found(e: WorkerError) -> bool {
    e is NotFound || e matches WorkerError::InternalError {
        error: Some(WorkerExecutionError::WorkerNotFound { .. }),
    }
}

/// Reads the reply to starting a worker: its id, or the error that the service
/// gave for it.
pub fn start_worker_outcome(reply: Reply<Option<WorkerId>>) -> (r: Result<
    Result<WorkerId, WorkerError>,
    ProtocolFault,
>)
    ensures
        r == (match reply {
            Reply::Missing => Err(ProtocolFault::NoResponse),
            Reply::Success { value: None } => Err(ProtocolFault::MissingWorkerId),
            Reply::Success { value: Some(id) } => Ok(Ok(id)),
            Reply::Failure { error: Some(e) } => Ok(Err(e)),
            Reply::Failure { error: None } => Err(ProtocolFault::EmptyError),
        }),
{
    match reply {
        Reply::Missing => Err(ProtocolFault::NoResponse),
        Reply::Success { value: None } => Err(ProtocolFault::MissingWorkerId),
        Reply::Success { value: Some(id) } => Ok(Ok(id)),
        Reply::Failure { error: Some(e) } => Ok(Err(e)),
        Reply::Failure { error: None } => Err(ProtocolFault::EmptyError),
    }
}

/// Reads the reply to a metadata query: the metadata, or `None` where the worker
/// does not exist. Any other error is a fault.
pub fn worker_metadata_outcome(reply: Reply<WorkerMetadataMessage>) -> (r: Result<
    Option<WorkerMetadata>,
    ProtocolFault,
>)
    ensures
        reply is Missing ==> r == Err::<Option<WorkerMetadata>, _>(ProtocolFault::NoResponse),
        reply matches Reply::Failure { error: Some(e) } ==> (if is_not_found(e) {
            r == Ok::<_, ProtocolFault>(None::<WorkerMetadata>)
        } else {
            r == Err::<Option<WorkerMetadata>, _>(ProtocolFault::Rejected { error: e })
        }),
        reply matches Reply::Failure { error: None } ==> r == Err::<Option<WorkerMetadata>, _>(
            ProtocolFault::EmptyError,
        ),
        reply matches Reply::Success { value } ==> (match metadata_fault(value) {
            Some(f) => r == Err::<Option<WorkerMetadata>, _>(ProtocolFault::BadMetadata { fault: f }),
            None => r matches Ok(Some(m)) && reads_metadata(value, m),
        }),
{
    match reply {
        Reply::Missing => Err(ProtocolFault::NoResponse),
        Reply::Success { value } => match to_worker_metadata(value) {
            Ok(m) => Ok(Some(m)),
            Err(f) => Err(ProtocolFault::BadMetadata { fault: f }),
        },
        Reply::Failure { error: Some(e) } => match e {
            WorkerError::NotFound { .. } => Ok(None),
            WorkerError::InternalError {
                error: Some(WorkerExecutionError::WorkerNotFound { .. }),
            } => Ok(None),
            _ => Err(ProtocolFault::Rejected { error: e }),
        },
        Reply::Failure { error: None } => Err(ProtocolFault::EmptyError),
    }
}

/// Reads the reply to a request for an invocation key; every error is a fault.
pub fn invocation_key_outcome(reply: Reply<InvocationKey>) -> (r: Result<
    InvocationKey,
    ProtocolFault,
>)
    ensures
        r == (match reply {
            Reply::Missing => Err(ProtocolFault::NoResponse),
            Reply::Success { value } => Ok(value),
            Reply::Failure { error: Some(e) } => Err(ProtocolFault::Rejected { error: e }),
            Reply::Failure { error: None } => Err(ProtocolFault::EmptyError),
        }),
{
    match reply {
        Reply::Missing => Err(ProtocolFault::NoResponse),
        Reply::Success { value } => Ok(value),
        Reply::Failure { error: Some(e) } => Err(ProtocolFault::Rejected { error: e }),
        Reply::Failure { error: None } => Err(ProtocolFault::EmptyError),
    }
}

/// Reads the reply to an invocation: its result values, or the error that the
/// service gave for it.
pub fn invocation_outcome<T>(reply: Reply<T>) -> (r: Result<Result<T, WorkerError>, ProtocolFault>)
    ensures
        r == (match reply {
            Reply::Missing => Err(ProtocolFault::NoResponse),
            Reply::Success { value } => Ok(Ok(value)),
            Reply::Failure { error: Some(e) } => Ok(Err(e)),
            Reply::Failure { error: None } => Err(ProtocolFault::EmptyError),
        }),
{
    match reply {
        Reply::Missing => Err(ProtocolFault::NoResponse),
        Reply::Success { value } => Ok(Ok(value)),
        Reply::Failure { error: Some(e) } => Ok(Err(e)),
        Reply::Failure { error: None } => Err(ProtocolFault::EmptyError),
    }
}

/// Reads the reply to resuming or interrupting a worker, or simulating its crash:
/// anything but a success is a fault.
pub fn acknowledgement_outcome(reply: Reply<()>) -> (r: Result<(), ProtocolFault>)
    ensures
        r == (match reply {
            Reply::Missing => Err(ProtocolFault::NoResponse),
            Reply::Success { .. } => Ok(()),
            Reply::Failure { error: Some(e) } => Err(ProtocolFault::Rejected { error: e }),
            Reply::Failure { error: None } => Err(ProtocolFault::EmptyError),
        }),
{
    match reply {
        Reply::Missing => Err(ProtocolFault::NoResponse),
        Reply::Success { .. } => Ok(()),
        Reply::Failure { error: Some(e) } => Err(ProtocolFault::Rejected { error: e }),
        Reply::Failure { error: None } => Err(ProtocolFault::EmptyError),
    }
}

/// What arrives while output is being captured.
#[derive(Clone, Debug)]
pub enum CaptureInput {
    /// An event of the worker's output stream.
    Event { event: LogEvent },
    /// The stream ended.
    StreamEnd,
    /// The stream failed.
    StreamError,
    /// The capture was asked to stop.
    Abort,
}

/// What a capture does next.
#[derive(Clone, Debug)]
pub enum CaptureAction {
    /// Hand the event on and keep reading.
    Forward { event: LogEvent },
    /// Connect to the worker again and keep reading.
    Reconnect,
    /// Send the end marker and stop.
    Finish,
    /// Stop with a fault.
    Fail,
}

/// Decides a capture's next step. A capture that runs until aborted reconnects
/// when the stream ends; any other capture finishes there.
pub fn capture_step(until_aborted: bool, input: CaptureInput) -> (r: CaptureAction)
    ensures
        r == (match input {
            CaptureInput::Event { event } => CaptureAction::Forward { event },
            CaptureInput::StreamEnd => if until_aborted {
                CaptureAction::Reconnect
            } else {
                CaptureAction::Finish
            },
            CaptureInput::StreamError => CaptureAction::Fail,
            CaptureInput::Abort => CaptureAction::Finish,
        }),
{
    match input {
        CaptureInput::Event { event } => CaptureAction::Forward { event },
        CaptureInput::StreamEnd => if until_aborted {
            CaptureAction::Reconnect
        } else {
            CaptureAction::Finish
        },
        CaptureInput::StreamError => CaptureAction::Fail,
        CaptureInput::Abort => CaptureAction::Finish,
    }
}

} // verus!
