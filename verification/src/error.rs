//! The error taxonomy of the engine.
//!
//! Every operation detects the violation it would cause synchronously and
//! fails with the specific kind, leaving all state untouched, so a caller
//! can always retry and can tell a wrong role from a wrong state from a
//! double-spend attempt.

use vstd::prelude::*;

verus! {

/// Why an operation refused to run. Each variant is raised by exactly the
/// conditions its doc line names, and a failed operation has no effect.
#[derive(Clone, Copy, PartialEq, Eq, Structural, Debug)]
pub enum BugBountyError {
    /// A report was submitted against a paused vault.
    VaultInactive,
    /// An approve or reject was attempted by a caller other than the
    /// vault's recorded governance authority.
    NotGovernanceAuthority,
    /// An approve or reject was attempted on a report that is not pending.
    InvalidReportStatus,
    /// A payout was attempted on a report that is not approved, including
    /// a replay against an already-paid report.
    ReportNotApproved,
    /// A credential mint was attempted before the report was paid.
    ReportNotPaid,
    /// A payout was claimed by someone other than the report's researcher.
    UnauthorizedResearcher,
    /// A configuration change was attempted by someone other than the
    /// vault's owning team.
    UnauthorizedTeam,
    /// A counter increment would wrap; the operation aborts with no
    /// partial effect.
    ArithmeticOverflow,
}

} // verus!
