use vstd::prelude::*;

use crate::ids::WorkerId;

verus! {

/// The status of a worker as the control plane reports it.
#[derive(Clone, Copy, Debug, PartialEq, Eq, Structural)]
pub enum WorkerStatus {
    Running,
    Idle,
    Suspended,
    Interrupted,
    Retrying,
    Failed,
    Exited,
}

/// The status with the given wire number, if there is one.
pub open spec fn status_of_code(code: i32) -> Option<WorkerStatus> {
    if code == 0 {
        Some(WorkerStatus::Running)
    } else if code == 1 {
        Some(WorkerStatus::Idle)
    } else if code == 2 {
        Some(WorkerStatus::Suspended)
    } else if code == 3 {
        Some(WorkerStatus::Interrupted)
    } else if code == 4 {
        Some(WorkerStatus::Retrying)
    } else if code == 5 {
        Some(WorkerStatus::Failed)
    } else if code == 6 {
        Some(WorkerStatus::Exited)
    } else {
        None
    }
}

impl WorkerStatus {
    /// Reads a status from its wire number.
    pub fn from_code(code: i32) -> (r: Option<WorkerStatus>)
        ensures
            r == status_of_code(code),
    {
        match code {
            0 => Some(WorkerStatus::Running),
            1 => Some(WorkerStatus::Idle),
            2 => Some(WorkerStatus::Suspended),
            3 => Some(WorkerStatus::Interrupted),
            4 => Some(WorkerStatus::Retrying),
            5 => Some(WorkerStatus::Failed),
            6 => Some(WorkerStatus::Exited),
            _ => None,
        }
    }
}

/// How often and how patiently a failed invocation is retried.
#[derive(Clone, Copy, Debug, PartialEq, Eq, Structural)]
pub struct RetryConfig {
    pub max_attempts: u32,
    pub min_delay_ms: u64,
    pub max_delay_ms: u64,
}

/// A contiguous range of oplog indexes, both ends included.
#[derive(Clone, Copy, Debug, PartialEq, Eq, Structural)]
pub struct OplogRegion {
    pub start: u64,
    pub end: u64,
}

/// The persisted status of a worker.
#[derive(Clone, Debug)]
pub struct WorkerStatusRecord {
    pub status: WorkerStatus,
    pub oplog_idx: u64,
    pub overridden_retry_config: Option<RetryConfig>,
    pub deleted_regions: Vec<OplogRegion>,
}

/// A worker id together with the template version it was started at.
#[derive(Clone, Debug)]
pub struct VersionedWorkerId {
    pub worker_id: WorkerId,
    pub template_version: u64,
}

/// What is known of a worker.
#[derive(Clone, Debug)]
pub struct WorkerMetadata {
    pub worker_id: VersionedWorkerId,
    pub args: Vec<String>,
    pub env: Vec<(String, String)>,
    pub account_id: String,
    pub created_at: u64,
    pub last_known_status: WorkerStatusRecord,
}

/// Worker metadata as the control plane sends it: ids may be absent and the status
/// is a wire number.
#[derive(Clone, Debug)]
pub struct WorkerMetadataMessage {
    pub worker_id: Option<WorkerId>,
    pub template_version: u64,
    pub args: Vec<String>,
    pub env: Vec<(String, String)>,
    pub account_id: Option<String>,
    pub status: i32,
    pub created_at: u64,
}

/// Why a metadata message could not be read.
#[derive(Clone, Copy, Debug, PartialEq, Eq, Structural)]
pub enum MetadataFault {
    MissingWorkerId,
    MissingAccountId,
    InvalidStatus { code: i32 },
}

/// Why a metadata message cannot be read, if it cannot.
pub open spec fn metadata_fault(m: WorkerMetadataMessage) -> Option<MetadataFault> {
    if m.worker_id is None {
        Some(MetadataFault::MissingWorkerId)
    } else if m.account_id is None {
        Some(MetadataFault::MissingAccountId)
    } else if status_of_code(m.status) is None {
        Some(MetadataFault::InvalidStatus { code: m.status })
    } else {
        None
    }
}

/// `m` is the metadata that the message carries.
pub open spec fn reads_metadata(msg: WorkerMetadataMessage, m: WorkerMetadata) -> bool {
    &&& m.worker_id.worker_id == msg.worker_id.unwrap()
    &&& m.worker_id.template_version == msg.template_version
    &&& m.args == msg.args
    &&& m.env == msg.env
    &&& m.account_id == msg.account_id.unwrap()
    &&& m.created_at == msg.created_at
    &&& m.last_known_status.status == status_of_code(msg.status).unwrap()
    &&& m.last_known_status.oplog_idx == 0
    &&& m.last_known_status.overridden_retry_config is None
    &&& m.last_known_status.deleted_regions@.len() == 0
}

/// Reads worker metadata out of a control-plane message. The worker id and the
/// account id must be present and the status must be a known wire number; the
/// creation time is taken over as sent.
pub fn to_worker_metadata(metadata: WorkerMetadataMessage) -> (r: Result<
    WorkerMetadata,
    MetadataFault,
>)
    ensures
        match metadata_fault(metadata) {
            Some(f) => r == Err::<WorkerMetadata, _>(f),
            None => r matches Ok(m) && reads_metadata(metadata, m),
        },
{
    let worker_id = match metadata.worker_id {
        Some(w) => w,
        None => return Err(MetadataFault::MissingWorkerId),
    };
    let account_id = match metadata.account_id {
        Some(a) => a,
        None => return Err(MetadataFault::MissingAccountId),
    };
    let status = match WorkerStatus::from_code(metadata.status) {
        Some(s) => s,
        None => return Err(MetadataFault::InvalidStatus { code: metadata.status }),
    };
    Ok(WorkerMetadata {
        worker_id: VersionedWorkerId { worker_id, template_version: metadata.template_version },
        args: metadata.args,
        env: metadata.env,
        account_id,
        created_at: metadata.created_at,
        last_known_status: WorkerStatusRecord {
            status,
            oplog_idx: 0,
            overridden_retry_config: None,
            deleted_regions: Vec::new(),
        },
    })
}

/// Where a worker's runtime stands.
#[derive(Clone, Copy, Debug, PartialEq, Eq, Structural)]
pub enum RuntimeState {
    Idle,
    Loading,
    Running,
    Suspended,
    Interrupted,
    Failed,
    Exited,
}

/// What happens to a worker's runtime.
#[derive(Clone, Copy, Debug, PartialEq, Eq, Structural)]
pub enum RuntimeEvent {
    Start,
    Ready,
    LoadFailed,
    Finish,
    Suspend,
    Resume,
    Interrupt { recover_immediately: bool },
    Trap,
    Exit,
}

/// The state that an event leads to, or `None` where the event is not allowed.
pub open spec fn next_state(s: RuntimeState, e: RuntimeEvent) -> Option<RuntimeState> {
    match (s, e) {
        (RuntimeState::Idle, RuntimeEvent::Start) => Some(RuntimeState::Loading),
        (RuntimeState::Loading, RuntimeEvent::Ready) => Some(RuntimeState::Running),
        (RuntimeState::Loading, RuntimeEvent::LoadFailed) => Some(RuntimeState::Failed),
        (RuntimeState::Running, RuntimeEvent::Finish) => Some(RuntimeState::Idle),
        (RuntimeState::Running, RuntimeEvent::Suspend) => Some(RuntimeState::Suspended),
        (RuntimeState::Suspended, RuntimeEvent::Resume) => Some(RuntimeState::Running),
        (RuntimeState::Interrupted, RuntimeEvent::Resume) => Some(RuntimeState::Running),
        (RuntimeState::Running, RuntimeEvent::Interrupt { recover_immediately }) => if recover_immediately {
            Some(RuntimeState::Idle)
        } else {
            Some(RuntimeState::Interrupted)
        },
        (RuntimeState::Running, RuntimeEvent::Trap) => Some(RuntimeState::Failed),
        (RuntimeState::Running, RuntimeEvent::Exit) => Some(RuntimeState::Exited),
        _ => None,
    }
}

/// Whether a worker in this state is done for good.
pub open spec fn is_terminal(s: RuntimeState) -> bool {
    s == RuntimeState::Failed || s == RuntimeState::Exited
}

impl RuntimeState {
    /// The state that `event` leads to, or `None` where it is not allowed here.
    pub fn step(self, event: RuntimeEvent) -> (r: Option<RuntimeState>)
        ensures
            r == next_state(self, event),
    {
        match (self, event) {
            (RuntimeState::Idle, RuntimeEvent::Start) => Some(RuntimeState::Loading),
            (RuntimeState::Loading, RuntimeEvent::Ready) => Some(RuntimeState::Running),
            (RuntimeState::Loading, RuntimeEvent::LoadFailed) => Some(RuntimeState::Failed),
            (RuntimeState::Running, RuntimeEvent::Finish) => Some(RuntimeState::Idle),
            (RuntimeState::Running, RuntimeEvent::Suspend) => Some(RuntimeState::Suspended),
            (RuntimeState::Suspended, RuntimeEvent::Resume) => Some(RuntimeState::Running),
            (RuntimeState::Interrupted, RuntimeEvent::Resume) => Some(RuntimeState::Running),
            (RuntimeState::Running, RuntimeEvent::Interrupt { recover_immediately }) => {
                if recover_immediately {
                    Some(RuntimeState::Idle)
                } else {
                    Some(RuntimeState::Interrupted)
                }
            },
            (RuntimeState::Running, RuntimeEvent::Trap) => Some(RuntimeState::Failed),
            (RuntimeState::Running, RuntimeEvent::Exit) => Some(RuntimeState::Exited),
            _ => None,
        }
    }

    /// Whether invocations may still be queued for a worker in this state.
    pub fn accepts_invocations(self) -> (r: bool)
        ensures
            r == !is_terminal(self),
    {
        !(self == RuntimeState::Failed || self == RuntimeState::Exited)
    }
}

/// A worker that has failed or exited stays so, whatever happens to it.
pub proof fn terminal_states_are_final(s: RuntimeState, e: RuntimeEvent)
    requires
        is_terminal(s),
    ensures
        next_state(s, e) is None,
{
}

} // verus!
