use vstd::prelude::*;

verus! {

/// The enforcement state the orchestrator exposes for display: whether
/// signature enforcement is currently enabled, together with the two kernel
/// validation routine addresses captured once at startup. The addresses are
/// purely diagnostic; no decision is ever made from them.
#[derive(Clone, Copy, Debug, PartialEq, Eq, Structural)]
pub struct EnforcementStatus {
    pub enabled: bool,
    pub validate_header_addr: u64,
    pub validate_data_addr: u64,
}

} // verus!
