//! Verified core of a thread-migration command for a chat platform.
//!
//! The library holds the decision logic of the pipeline: collating paginated
//! history, resolving author identities, choosing or provisioning an
//! impersonation endpoint, planning the ordered replay of messages into a
//! freshly created thread, and gating invocations behind context validation,
//! an authorization role and a process-wide single-flight lock. All network
//! traffic stays outside; the library exchanges plain values with its caller.

pub mod endpoint;
pub mod errors;
pub mod gate;
pub mod history;
pub mod model;
pub mod orchestrator;
pub mod render;
