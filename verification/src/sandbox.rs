//! Resource limits applied to one agent's execution in its sandbox.
use vstd::prelude::*;

verus! {

/// Resource limits applied to a single agent's execution. The shape is the
/// same for every agent class; the values are chosen per class elsewhere.
#[derive(Debug, Clone, Copy, PartialEq, Eq)]
pub struct SandboxConfig {
    /// Instruction budget; 0 means unlimited.
    pub fuel_limit: u64,
    /// Wall-clock limit, enforced by epoch interruption.
    pub timeout_secs: Option<u64>,
}

} // verus!
