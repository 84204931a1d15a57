//! A native agent for a managed runtime: it models the state a running
//! agent shares between its orchestration thread and the runtime's
//! class-load callbacks — the class cache, the bridge's notification
//! record, the pending/observed dependency sets and the session's phase —
//! and proves the decisions taken over that state. The foreign calls into
//! the runtime stay outside; their outcomes enter as plain values.

use vstd::prelude::*;

pub mod bridge;
pub mod cache;
pub mod client;
pub mod coordinator;
pub mod error;
pub mod injector;
pub mod marshal;
pub mod strutil;

verus! {

/// Builds the session that the host process drives after the agent module
/// is attached: a fresh provider and an orchestrator ready to attach to the
/// runtime.
pub fn process_attach() -> (r: Result<injector::BAgentInjector<client::Client>, error::Error>)
    ensures
        r matches Ok(session) && session.phase == injector::Phase::Attaching,
{
    let c: client::Client = injector::ClientTrait::new();
    Ok(injector::BAgentInjector::new(c))
}

} // verus!
