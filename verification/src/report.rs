//! The per-report lifecycle state machine.
//!
//! A report moves `Pending -> {Approved, Rejected}` and `Approved -> Paid`;
//! `Rejected` and `Paid` are terminal. Submission snapshots the payout
//! amount from the vault's current schedule, so a later schedule change
//! never touches an already-submitted report. Approval and rejection are
//! gated on the vault's recorded governance authority and on the report
//! still being pending, which makes the edge out of `Pending` single-fire:
//! no double approval, no approval after rejection.

use vstd::prelude::*;

use crate::error::BugBountyError;
use crate::ids::AccountId;
use crate::ids::ReportAddress;
use crate::vault::BugBountyVault;
use crate::vault::SeverityTier;
use crate::vault::vault_evolves;

verus! {

/// Where a report stands in its lifecycle.
#[derive(Clone, Copy, PartialEq, Eq, Structural, Debug)]
pub enum ReportStatus {
    /// Submitted, awaiting a governance decision.
    Pending,
    /// Accepted by governance; the researcher may claim the payout.
    Approved,
    /// Declined by governance; terminal.
    Rejected,
    /// The payout was executed; terminal.
    Paid,
}

/// One researcher's submission against exactly one vault. The identity
/// fields — vault, researcher, severity, content digest, snapshotted payout
/// amount and submission stamp — never change after submission; only the
/// status and the decision metadata move.
#[derive(Clone, PartialEq, Eq, Debug)]
pub struct VulnerabilityReport {
    /// The vault the report was submitted against.
    pub vault: AccountId,
    /// The researcher who owns the report and its payout.
    pub researcher: AccountId,
    /// Severity chosen at submission; fixed for the report's life.
    pub severity: SeverityTier,
    /// Where the report stands in its lifecycle.
    pub status: ReportStatus,
    /// Content digest of the off-chain report body.
    pub report_ipfs_hash: [u8; 32],
    /// When the report was submitted.
    pub submitted_at: i64,
    /// When governance approved it, if it did.
    pub approved_at: Option<i64>,
    /// When the payout was executed, if it was.
    pub paid_at: Option<i64>,
    /// The governance identity that decided the report, if one did.
    pub approver: Option<AccountId>,
    /// Free-text decision reason: optional on approval, mandatory on
    /// rejection.
    pub approval_reason: Option<String>,
    /// The reward snapshotted from the vault's schedule at submission;
    /// immutable afterwards.
    pub payout_amount: u64,
}

/// The single-step relation the lifecycle allows on a status: stay put, or
/// take one forward edge. There is no edge back, and the only edge into
/// `Paid` leaves `Approved`.
pub open spec fn status_progresses(a: ReportStatus, b: ReportStatus) -> bool {
    ||| b == a
    ||| (a is Pending && (b is Approved || b is Rejected))
    ||| (a is Approved && b is Paid)
}

/// How far along its lifecycle a status is. Every allowed step is
/// non-decreasing in this rank, so a report can never regress.
pub open spec fn status_rank(s: ReportStatus) -> int {
    match s {
        ReportStatus::Pending => 0,
        ReportStatus::Approved => 1,
        ReportStatus::Rejected => 1,
        ReportStatus::Paid => 2,
    }
}

/// What any single operation of the engine may do to a report: the
/// identity fields are immutable, and the status takes at most one allowed
/// forward step.
pub open spec fn report_evolves(a: VulnerabilityReport, b: VulnerabilityReport) -> bool {
    &&& b.vault == a.vault
    &&& b.researcher == a.researcher
    &&& b.severity == a.severity
    &&& b.report_ipfs_hash == a.report_ipfs_hash
    &&& b.submitted_at == a.submitted_at
    &&& b.payout_amount == a.payout_amount
    &&& status_progresses(a.status, b.status)
}

/// The pending report a submission call creates: payout snapshotted from
/// the vault's current schedule, no decision metadata yet.
pub open spec fn new_report(
    vault: BugBountyVault,
    vault_key: AccountId,
    researcher: AccountId,
    severity: SeverityTier,
    report_ipfs_hash: [u8; 32],
    now: i64,
) -> VulnerabilityReport {
    VulnerabilityReport {
        vault: vault_key,
        researcher,
        severity,
        status: ReportStatus::Pending,
        report_ipfs_hash,
        submitted_at: now,
        approved_at: None,
        paid_at: None,
        approver: None,
        approval_reason: None,
        payout_amount: vault.spec_reward_for(severity),
    }
}

/// The outcome of submitting a report against a vault: the new vault and
/// the result. A submission against a paused vault fails with
/// `VaultInactive`; one that would wrap the report counter fails with
/// `ArithmeticOverflow`; every other submission succeeds, lands at the
/// address indexed by the counter's old value, and bumps the counter.
pub open spec fn submit_outcome(
    vault: BugBountyVault,
    vault_key: AccountId,
    researcher: AccountId,
    severity: SeverityTier,
    report_ipfs_hash: [u8; 32],
    now: i64,
) -> (BugBountyVault, Result<(VulnerabilityReport, ReportAddress), BugBountyError>) {
    if !vault.vault_active {
        (vault, Err(BugBountyError::VaultInactive))
    } else if vault.total_reports == u64::MAX {
        (vault, Err(BugBountyError::ArithmeticOverflow))
    } else {
        (
            (BugBountyVault { total_reports: (vault.total_reports + 1) as u64, ..vault }),
            Ok(
                (
                    new_report(vault, vault_key, researcher, severity, report_ipfs_hash, now),
                    ReportAddress { vault: vault_key, researcher, index: vault.total_reports },
                ),
            ),
        )
    }
}

/// Submits a vulnerability report against the vault stored at `vault_key`.
///
/// On success the returned report is pending, owns a payout snapshotted
/// from the vault's current schedule for `severity`, and is to be stored at
/// the returned address, which the substrate derives from the vault, the
/// researcher and the vault's report count — so two submissions never
/// collide. Fails with `VaultInactive` on a paused vault and with
/// `ArithmeticOverflow` if the report counter would wrap; a failed call
/// changes nothing.
pub fn submit_report(
    vault: &mut BugBountyVault,
    vault_key: AccountId,
    researcher: AccountId,
    severity: SeverityTier,
    report_ipfs_hash: [u8; 32],
    now: i64,
) -> (r: Result<(VulnerabilityReport, ReportAddress), BugBountyError>)
    ensures
        (*final(vault), r) == submit_outcome(
            *old(vault),
            vault_key,
            researcher,
            severity,
            report_ipfs_hash,
            now,
        ),
        !old(vault).vault_active ==> r == Err::<(VulnerabilityReport, ReportAddress),
            BugBountyError,
        >(BugBountyError::VaultInactive) && *final(vault) == *old(vault),
        old(vault).vault_active && old(vault).total_reports == u64::MAX ==> r == Err::<
            (VulnerabilityReport, ReportAddress),
            BugBountyError,
        >(BugBountyError::ArithmeticOverflow) && *final(vault) == *old(vault),
        old(vault).vault_active && old(vault).total_reports < u64::MAX ==> {
            &&& r is Ok
            &&& r->Ok_0.0.status is Pending
            &&& r->Ok_0.0.payout_amount == old(vault).spec_reward_for(severity)
            &&& r->Ok_0.1 == (ReportAddress {
                vault: vault_key,
                researcher,
                index: old(vault).total_reports,
            })
            &&& final(vault).total_reports == old(vault).total_reports + 1
        },
        vault_evolves(*old(vault), *final(vault)),
        final(vault).vault_active == old(vault).vault_active,
{
    if !vault.vault_active {
        return Err(BugBountyError::VaultInactive);
    }
    let index = vault.total_reports;
    let next_total = match vault.total_reports.checked_add(1) {
        Some(next_total) => next_total,
        None => {
            return Err(BugBountyError::ArithmeticOverflow);
        },
    };
    let payout_amount = vault.reward_for(severity);
    vault.total_reports = next_total;
    let report = VulnerabilityReport {
        vault: vault_key,
        researcher,
        severity,
        status: ReportStatus::Pending,
        report_ipfs_hash,
        submitted_at: now,
        approved_at: None,
        paid_at: None,
        approver: None,
        approval_reason: None,
        payout_amount,
    };
    Ok((report, ReportAddress { vault: vault_key, researcher, index }))
}

/// The outcome of a governance approval: the new vault, the new report and
/// the result. The guards fire in order — wrong caller, report not
/// pending, approval counter would wrap — and a failed call changes
/// neither record.
pub open spec fn approve_outcome(
    vault: BugBountyVault,
    report: VulnerabilityReport,
    caller: AccountId,
    approval_reason: Option<String>,
    now: i64,
) -> (BugBountyVault, VulnerabilityReport, Result<(), BugBountyError>) {
    if caller != vault.governance_authority {
        (vault, report, Err(BugBountyError::NotGovernanceAuthority))
    } else if !(report.status is Pending) {
        (vault, report, Err(BugBountyError::InvalidReportStatus))
    } else if vault.approved_reports == u64::MAX {
        (vault, report, Err(BugBountyError::ArithmeticOverflow))
    } else {
        (
            (BugBountyVault { approved_reports: (vault.approved_reports + 1) as u64, ..vault }),
            (VulnerabilityReport {
                status: ReportStatus::Approved,
                approver: Some(caller),
                approved_at: Some(now),
                approval_reason,
                ..report
            }),
            Ok(()),
        )
    }
}

/// Approves a pending report.
///
/// Only the vault's recorded governance authority may decide a report; any
/// other caller fails with `NotGovernanceAuthority`. The report must still
/// be pending, else `InvalidReportStatus` — the decision edge fires once.
/// On success the report carries the approver, the stamp and the optional
/// reason, and the vault's approval counter is bumped (checked).
pub fn approve_report(
    vault: &mut BugBountyVault,
    report: &mut VulnerabilityReport,
    caller: AccountId,
    approval_reason: Option<String>,
    now: i64,
) -> (r: Result<(), BugBountyError>)
    ensures
        (*final(vault), *final(report), r) == approve_outcome(
            *old(vault),
            *old(report),
            caller,
            approval_reason,
            now,
        ),
        caller != old(vault).governance_authority ==> r == Err::<(), BugBountyError>(
            BugBountyError::NotGovernanceAuthority,
        ) && *final(report) == *old(report) && *final(vault) == *old(vault),
        caller == old(vault).governance_authority && !(old(report).status is Pending) ==> r
            == Err::<(), BugBountyError>(BugBountyError::InvalidReportStatus) && *final(report)
            == *old(report) && *final(vault) == *old(vault),
        r is Ok ==> final(report).status is Approved && final(report).approver == Some(caller)
            && final(report).approved_at == Some(now) && final(vault).approved_reports == old(
            vault,
        ).approved_reports + 1,
        vault_evolves(*old(vault), *final(vault)),
        report_evolves(*old(report), *final(report)),
        final(vault).vault_active == old(vault).vault_active,
{
    if caller != vault.governance_authority {
        return Err(BugBountyError::NotGovernanceAuthority);
    }
    if !matches!(report.status, ReportStatus::Pending) {
        return Err(BugBountyError::InvalidReportStatus);
    }
    let next_approved = match vault.approved_reports.checked_add(1) {
        Some(next_approved) => next_approved,
        None => {
            return Err(BugBountyError::ArithmeticOverflow);
        },
    };
    vault.approved_reports = next_approved;
    report.status = ReportStatus::Approved;
    report.approver = Some(caller);
    report.approved_at = Some(now);
    report.approval_reason = approval_reason;
    Ok(())
}

/// The outcome of a governance rejection: the new report and the result.
/// The guards fire in order — wrong caller, then report not pending — and
/// a failed call changes nothing. Rejection never touches the vault.
pub open spec fn reject_outcome(
    vault: BugBountyVault,
    report: VulnerabilityReport,
    caller: AccountId,
    rejection_reason: String,
) -> (VulnerabilityReport, Result<(), BugBountyError>) {
    if caller != vault.governance_authority {
        (report, Err(BugBountyError::NotGovernanceAuthority))
    } else if !(report.status is Pending) {
        (report, Err(BugBountyError::InvalidReportStatus))
    } else {
        (
            (VulnerabilityReport {
                status: ReportStatus::Rejected,
                approver: Some(caller),
                approval_reason: Some(rejection_reason),
                ..report
            }),
            Ok(()),
        )
    }
}

/// Rejects a pending report. The reason is mandatory on rejection.
///
/// Only the vault's recorded governance authority may decide a report; any
/// other caller fails with `NotGovernanceAuthority`. The report must still
/// be pending, else `InvalidReportStatus`, so a report once decided stays
/// decided. Rejection is terminal and moves no value.
pub fn reject_report(
    vault: &BugBountyVault,
    report: &mut VulnerabilityReport,
    caller: AccountId,
    rejection_reason: String,
) -> (r: Result<(), BugBountyError>)
    ensures
        (*final(report), r) == reject_outcome(*vault, *old(report), caller, rejection_reason),
        caller != vault.governance_authority ==> r == Err::<(), BugBountyError>(
            BugBountyError::NotGovernanceAuthority,
        ) && *final(report) == *old(report),
        caller == vault.governance_authority && !(old(report).status is Pending) ==> r == Err::<
            (),
            BugBountyError,
        >(BugBountyError::InvalidReportStatus) && *final(report) == *old(report),
        r is Ok ==> final(report).status is Rejected && final(report).approver == Some(caller),
        report_evolves(*old(report), *final(report)),
{
    if caller != vault.governance_authority {
        return Err(BugBountyError::NotGovernanceAuthority);
    }
    if !matches!(report.status, ReportStatus::Pending) {
        return Err(BugBountyError::InvalidReportStatus);
    }
    report.status = ReportStatus::Rejected;
    report.approver = Some(caller);
    report.approval_reason = Some(rejection_reason);
    Ok(())
}

} // verus!
