use vstd::prelude::*;

verus! {

/// Represents the result of a settings apply operation.
#[derive(Debug, Clone, Copy, PartialEq, Eq, Structural)]
pub struct SettingsResult {
    pub branch_protection_applied: bool,
    pub status_checks_applied: bool,
    pub verified: bool,
}

} // verus!
