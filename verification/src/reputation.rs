//! Reputation issuance: an immutable credential for a paid report.
//!
//! Once a report has reached the terminal `Paid` state, a credential
//! record may be minted for its researcher. The record is stored at an
//! address derived from the (researcher, report) pair, so the substrate's
//! create-once rule admits at most one credential per paid report. Pure
//! record creation; no value moves.

use vstd::prelude::*;

use crate::error::BugBountyError;
use crate::ids::AccountId;
use crate::ids::CredentialAddress;
use crate::ids::ReportAddress;
use crate::report::VulnerabilityReport;
use crate::vault::SeverityTier;

verus! {

/// An immutable proof-of-contribution record, one-to-one with a paid
/// report. Never mutated or deleted after creation.
#[derive(Clone, PartialEq, Eq, Debug)]
pub struct ReputationNFT {
    /// The researcher the credential is issued to.
    pub researcher: AccountId,
    /// The vault the rewarded report was submitted against.
    pub vault: AccountId,
    /// The address of the paid report the credential attests.
    pub report: ReportAddress,
    /// Severity copied from the report.
    pub severity: SeverityTier,
    /// Free-text program or project label chosen by the minter.
    pub project_name: String,
    /// When the credential was minted.
    pub minted_at: i64,
}

/// The credential a successful mint produces: identities and severity
/// copied from the report, label and stamp as given.
pub open spec fn new_credential(
    report: VulnerabilityReport,
    report_key: ReportAddress,
    project_name: String,
    now: i64,
) -> ReputationNFT {
    ReputationNFT {
        researcher: report.researcher,
        vault: report.vault,
        report: report_key,
        severity: report.severity,
        project_name,
        minted_at: now,
    }
}

/// The address a credential for `report_key` is stored at. It depends on
/// the researcher and the report alone — not on the label or the time — so
/// every mint for the same paid report lands on the same slot and the
/// substrate's create-once rule admits only the first.
pub open spec fn credential_address_of(
    report: VulnerabilityReport,
    report_key: ReportAddress,
) -> CredentialAddress {
    CredentialAddress { researcher: report.researcher, report: report_key }
}

/// The outcome of a mint attempt: a mint before the report reaches `Paid`
/// always fails with `ReportNotPaid`; on a paid report it yields the
/// credential and the address it must be stored at.
pub open spec fn mint_outcome(
    report: VulnerabilityReport,
    report_key: ReportAddress,
    project_name: String,
    now: i64,
) -> Result<(ReputationNFT, CredentialAddress), BugBountyError> {
    if !(report.status is Paid) {
        Err(BugBountyError::ReportNotPaid)
    } else {
        Ok((new_credential(report, report_key, project_name, now), credential_address_of(report, report_key)))
    }
}

/// Mints the reputation credential for a paid report.
///
/// `report_key` is the address the report is stored at. Fails with
/// `ReportNotPaid` unless the report is in the terminal `Paid` state. On
/// success the credential copies the report's researcher, vault and
/// severity, and is to be stored at the returned address, which the
/// substrate derives from the (researcher, report) pair — a second mint
/// for the same report derives the same address and is refused by the
/// substrate's create-once rule. The report itself is not touched.
pub fn mint_reputation_nft(
    report: &VulnerabilityReport,
    report_key: ReportAddress,
    project_name: String,
    now: i64,
) -> (r: Result<(ReputationNFT, CredentialAddress), BugBountyError>)
    ensures
        r == mint_outcome(*report, report_key, project_name, now),
        !(report.status is Paid) ==> r == Err::<(ReputationNFT, CredentialAddress), BugBountyError>(
            BugBountyError::ReportNotPaid,
        ),
        report.status is Paid ==> r is Ok && r->Ok_0.0.researcher == report.researcher
            && r->Ok_0.0.severity == report.severity && r->Ok_0.1 == (CredentialAddress {
            researcher: report.researcher,
            report: report_key,
        }),
{
    if !matches!(report.status, crate::report::ReportStatus::Paid) {
        return Err(BugBountyError::ReportNotPaid);
    }
    let credential = ReputationNFT {
        researcher: report.researcher,
        vault: report.vault,
        report: report_key,
        severity: report.severity,
        project_name,
        minted_at: now,
    };
    let address = CredentialAddress { researcher: report.researcher, report: report_key };
    Ok((credential, address))
}

} // verus!
