//! Payout settlement: the one-time, irreversible transfer tied to an
//! approved report.
//!
//! The transfer itself is performed by the custody primitive outside this
//! crate, under the vault's derived authority: a non-human signing identity
//! computable from the vault's owning team plus a fixed salt, for which no
//! private key exists. Settlement here checks the guards, advances the
//! report to `Paid`, and hands back the authorization the caller's runtime
//! presents to the custody primitive atomically with this call. Because the
//! guard requires `Approved` and the effect leaves `Paid`, a second call on
//! the same report always fails — the payout can be released exactly once.

use vstd::prelude::*;

use crate::error::BugBountyError;
use crate::ids::AccountId;
use crate::report::ReportStatus;
use crate::report::VulnerabilityReport;
use crate::report::report_evolves;
use crate::vault::BugBountyVault;

verus! {

/// The transfer a successful settlement authorizes: exactly the report's
/// snapshotted payout amount, out of the vault's custody account, signed by
/// the vault's derived authority. Values of this type are produced only by
/// `execute_payout`, which is what gives the transfer its legitimacy.
#[derive(Clone, Copy, PartialEq, Eq, Structural, Debug)]
pub struct PayoutAuthorization {
    /// The vault custody account the value leaves.
    pub vault_custody: AccountId,
    /// The vault identity the signing authority is derived from.
    pub authority_seed: AccountId,
    /// The amount to move: the report's snapshotted payout.
    pub amount: u64,
}

/// The outcome of a payout attempt: the new report and the result. The
/// guards fire in order — report not approved (which covers a replay on an
/// already-paid report), then a claimant other than the report's
/// researcher — and a failed call changes nothing and authorizes no
/// transfer.
pub open spec fn payout_outcome(
    vault: BugBountyVault,
    report: VulnerabilityReport,
    caller: AccountId,
    now: i64,
) -> (VulnerabilityReport, Result<PayoutAuthorization, BugBountyError>) {
    if !(report.status is Approved) {
        (report, Err(BugBountyError::ReportNotApproved))
    } else if caller != report.researcher {
        (report, Err(BugBountyError::UnauthorizedResearcher))
    } else {
        (
            (VulnerabilityReport { status: ReportStatus::Paid, paid_at: Some(now), ..report }),
            Ok(
                PayoutAuthorization {
                    vault_custody: vault.vault_token_account,
                    authority_seed: vault.program_team,
                    amount: report.payout_amount,
                },
            ),
        )
    }
}

/// Executes the payout of an approved report, claimed by its researcher.
///
/// Requires the report to be approved (else `ReportNotApproved`) and the
/// caller to be the report's researcher (else `UnauthorizedResearcher`).
/// On success the report becomes `Paid`, is stamped, and the returned
/// authorization moves exactly the snapshotted `payout_amount` — a schedule
/// changed after submission has no effect here. The caller's runtime
/// performs the transfer atomically with this call. Because success leaves
/// the report `Paid`, a second call fails with `ReportNotApproved` and
/// moves nothing.
pub fn execute_payout(
    vault: &BugBountyVault,
    report: &mut VulnerabilityReport,
    caller: AccountId,
    now: i64,
) -> (r: Result<PayoutAuthorization, BugBountyError>)
    ensures
        (*final(report), r) == payout_outcome(*vault, *old(report), caller, now),
        !(old(report).status is Approved) ==> r == Err::<PayoutAuthorization, BugBountyError>(
            BugBountyError::ReportNotApproved,
        ) && *final(report) == *old(report),
        old(report).status is Approved && caller != old(report).researcher ==> r == Err::<
            PayoutAuthorization,
            BugBountyError,
        >(BugBountyError::UnauthorizedResearcher) && *final(report) == *old(report),
        r is Ok ==> final(report).status is Paid && final(report).paid_at == Some(now)
            && r->Ok_0.amount == old(report).payout_amount && r->Ok_0.vault_custody
            == vault.vault_token_account && r->Ok_0.authority_seed == vault.program_team,
        report_evolves(*old(report), *final(report)),
{
    if !matches!(report.status, ReportStatus::Approved) {
        return Err(BugBountyError::ReportNotApproved);
    }
    if caller != report.researcher {
        return Err(BugBountyError::UnauthorizedResearcher);
    }
    let amount = report.payout_amount;
    report.status = ReportStatus::Paid;
    report.paid_at = Some(now);
    Ok(
        PayoutAuthorization {
            vault_custody: vault.vault_token_account,
            authority_seed: vault.program_team,
            amount,
        },
    )
}

} // verus!
