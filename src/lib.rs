//! The worker-execution core of a durable WebAssembly runtime: versioned
//! templates, per-worker oplogs with deterministic replay, invocation keys and
//! queues, the shard map that places workers on executor nodes, the error
//! taxonomy of the control plane, log events, and the stdio calling convention.

pub mod text;
pub mod ids;
pub mod error;
pub mod log;
pub mod worker;
pub mod invocation;
pub mod oplog;
pub mod template;
pub mod stdio;
pub mod shard;
pub mod node;
pub mod retry;
pub mod kv;
pub mod dsl;
