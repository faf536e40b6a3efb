//! Laws of the engine, stated over whole operation histories.
//!
//! Every operation's contract ends in `vault_evolves` or `report_evolves`,
//! so any run of the engine yields a history whose adjacent states satisfy
//! those relations. The lemmas here lift the single-step guarantees to
//! arbitrary histories: statuses never regress and never skip the approval
//! step, counters never decrease, a report's identity and snapshotted
//! payout never change, a payout can be released exactly once, and the
//! credential and report addressing schemes cannot collide.

use vstd::prelude::*;

use crate::error::BugBountyError;
use crate::ids::AccountId;
use crate::ids::ReportAddress;
use crate::payout::payout_outcome;
use crate::report::VulnerabilityReport;
use crate::report::report_evolves;
use crate::report::status_rank;
use crate::report::submit_outcome;
use crate::reputation::mint_outcome;
use crate::vault::BugBountyVault;
use crate::vault::SeverityTier;
use crate::vault::vault_evolves;

verus! {

/// A history of one report: each adjacent pair is related by what a single
/// operation of the engine may do, so every actual run produces one.
pub open spec fn valid_report_history(h: Seq<VulnerabilityReport>) -> bool {
    forall|i: int| 0 <= i < h.len() - 1 ==> #[trigger] report_evolves(h[i], h[i + 1])
}

/// A history of one vault under the same reading.
pub open spec fn valid_vault_history(h: Seq<BugBountyVault>) -> bool {
    forall|i: int| 0 <= i < h.len() - 1 ==> #[trigger] vault_evolves(h[i], h[i + 1])
}

/// Across any sequence of operations a report's status never regresses:
/// its lifecycle rank is non-decreasing along the whole history. The
/// identity fields and the snapshotted payout amount are also carried
/// unchanged from submission to the end of the report's life.
pub proof fn lemma_report_never_regresses(h: Seq<VulnerabilityReport>, i: int, j: int)
    requires
        valid_report_history(h),
        0 <= i <= j < h.len(),
    ensures
        status_rank(h[i].status) <= status_rank(h[j].status),
        h[j].vault == h[i].vault,
        h[j].researcher == h[i].researcher,
        h[j].severity == h[i].severity,
        h[j].payout_amount == h[i].payout_amount,
        h[j].report_ipfs_hash == h[i].report_ipfs_hash,
        h[j].submitted_at == h[i].submitted_at,
    decreases j - i,
{
    if i < j {
        lemma_report_never_regresses(h, i, j - 1);
        let k = j - 1;
        assert(report_evolves(h[k], h[k + 1]));
    }
}

/// A report's status never skips a state: `Paid` is unreachable without
/// first passing through `Approved`. Any history that starts at `Pending`
/// (as every freshly submitted report does) and reaches `Paid` holds an
/// `Approved` state strictly in between.
pub proof fn lemma_paid_passes_through_approved(h: Seq<VulnerabilityReport>, j: int)
    requires
        valid_report_history(h),
        0 <= j < h.len(),
        h[0].status is Pending,
        h[j].status is Paid,
    ensures
        exists|i: int| 0 < i < j && #[trigger] h[i].status is Approved,
    decreases j,
{
    assert(j > 0);
    let k = j - 1;
    assert(report_evolves(h[k], h[k + 1]));
    if h[j - 1].status is Approved {
        assert(j - 1 > 0);
        assert(h[j - 1].status is Approved);
    } else {
        lemma_paid_passes_through_approved(h, j - 1);
        let w = choose|i: int| 0 < i < j - 1 && #[trigger] h[i].status is Approved;
        assert(0 < w < j && h[w].status is Approved);
    }
}

/// The cumulative counters of a vault — total funded, total paid out,
/// total reports, approved reports — are monotonically non-decreasing
/// across any sequence of operations, and the vault's identities and
/// creation stamp never change. A failed operation contributes the
/// identical state, so no partial increment can appear in a history.
pub proof fn lemma_vault_counters_monotonic(h: Seq<BugBountyVault>, i: int, j: int)
    requires
        valid_vault_history(h),
        0 <= i <= j < h.len(),
    ensures
        h[i].total_funded <= h[j].total_funded,
        h[i].total_paid_out <= h[j].total_paid_out,
        h[i].total_reports <= h[j].total_reports,
        h[i].approved_reports <= h[j].approved_reports,
        h[j].program_team == h[i].program_team,
        h[j].governance_authority == h[i].governance_authority,
        h[j].vault_token_account == h[i].vault_token_account,
        h[j].created_at == h[i].created_at,
    decreases j - i,
{
    if i < j {
        lemma_vault_counters_monotonic(h, i, j - 1);
        let k = j - 1;
        assert(vault_evolves(h[k], h[k + 1]));
    }
}

/// Settlement is idempotent-safe: after any successful payout the report
/// is `Paid`, and a second settlement attempt on it — by any caller, at
/// any time, against any vault state — fails with `ReportNotApproved`,
/// changes nothing, and authorizes no transfer.
pub proof fn lemma_payout_exactly_once(
    v1: BugBountyVault,
    v2: BugBountyVault,
    report: VulnerabilityReport,
    c1: AccountId,
    t1: i64,
    c2: AccountId,
    t2: i64,
)
    requires
        payout_outcome(v1, report, c1, t1).1 is Ok,
    ensures
        ({
            let paid = payout_outcome(v1, report, c1, t1).0;
            &&& paid.status is Paid
            &&& payout_outcome(v2, paid, c2, t2) == (
                paid,
                Err::<crate::payout::PayoutAuthorization, BugBountyError>(
                    BugBountyError::ReportNotApproved,
                ),
            )
        }),
{
}

/// Two submissions against the same vault — by the same researcher or not,
/// concurrent in the sense that the ledger substrate serializes them in
/// either order — land at distinct addresses, because each address carries
/// the vault's report counter and every successful submission bumps it.
pub proof fn lemma_submissions_never_collide(
    vault: BugBountyVault,
    vault_key: AccountId,
    r1: AccountId,
    r2: AccountId,
    s1: SeverityTier,
    s2: SeverityTier,
    d1: [u8; 32],
    d2: [u8; 32],
    t1: i64,
    t2: i64,
)
    requires
        submit_outcome(vault, vault_key, r1, s1, d1, t1).1 is Ok,
    ensures
        ({
            let after_first = submit_outcome(vault, vault_key, r1, s1, d1, t1).0;
            let first = submit_outcome(vault, vault_key, r1, s1, d1, t1).1;
            let second = submit_outcome(after_first, vault_key, r2, s2, d2, t2).1;
            second is Ok ==> first->Ok_0.1 != second->Ok_0.1
        }),
{
}

/// At most one credential can exist per paid report: the address a mint
/// derives depends only on the (researcher, report) pair, never on the
/// label or the mint time, so every successful mint for the same report
/// lands on the same slot and the substrate's create-once rule admits only
/// the first. Distinct reports, in turn, can never collide on a slot.
pub proof fn lemma_one_credential_per_report(
    report: VulnerabilityReport,
    report_key: ReportAddress,
    other: VulnerabilityReport,
    other_key: ReportAddress,
    n1: String,
    n2: String,
    t1: i64,
    t2: i64,
)
    requires
        mint_outcome(report, report_key, n1, t1) is Ok,
        mint_outcome(other, other_key, n2, t2) is Ok,
    ensures
        mint_outcome(report, report_key, n2, t2)->Ok_0.1 == mint_outcome(
            report,
            report_key,
            n1,
            t1,
        )->Ok_0.1,
        report_key != other_key ==> mint_outcome(report, report_key, n1, t1)->Ok_0.1
            != mint_outcome(other, other_key, n2, t2)->Ok_0.1,
{
}

} // verus!
