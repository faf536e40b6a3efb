//! Identities and deterministic storage addresses.
//!
//! Every party and account the engine speaks about — owning team, governance
//! authority, researcher, custody account — is an opaque identity issued by
//! the ledger substrate and compared by equality alone. Reports and
//! credentials are stored at addresses the substrate derives injectively
//! from a seed tuple; inside the model the seed tuple itself stands for the
//! address, so two records collide exactly when their seed tuples are equal.

use vstd::prelude::*;

verus! {

/// An opaque identity for a party or an account known to the ledger
/// substrate: a 32-byte key held as four 64-bit words, little end first.
/// Identities carry no structure the engine may read; the only operation on
/// them is the equality the substrate guarantees.
#[derive(Clone, Copy, PartialEq, Eq, Structural, Debug)]
pub struct AccountId(pub u64, pub u64, pub u64, pub u64);

/// The seed tuple from which the ledger substrate derives the storage
/// address of a vulnerability report: the parent vault, the submitting
/// researcher, and the vault's report count at the moment of submission.
/// Each researcher's next report against a vault therefore lands at a fresh
/// address, and two submissions can never collide on the same slot.
#[derive(Clone, Copy, PartialEq, Eq, Structural, Debug)]
pub struct ReportAddress {
    /// The vault the report was submitted against.
    pub vault: AccountId,
    /// The researcher who submitted the report.
    pub researcher: AccountId,
    /// The vault's `total_reports` counter at submission time.
    pub index: u64,
}

/// The seed tuple from which the ledger substrate derives the storage
/// address of a reputation credential: the researcher and the paid report
/// the credential attests. A second credential for the same pair derives
/// the same address, so the substrate's create-once rule admits at most one
/// credential per paid report.
#[derive(Clone, Copy, PartialEq, Eq, Structural, Debug)]
pub struct CredentialAddress {
    /// The researcher the credential is issued to.
    pub researcher: AccountId,
    /// The report the credential attests.
    pub report: ReportAddress,
}

} // verus!
