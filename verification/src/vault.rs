//! The vault: one bounty program's funding pool.
//!
//! A vault owns the severity reward schedule, the funding and report
//! counters, and the active flag. The owning team configures it, anyone may
//! fund it, and the workflow engine alone moves its report counters. The
//! value transfer behind a funding call is performed by the custody
//! primitive outside this crate; the functions here keep the ledger's
//! counters, and a counter that would wrap makes the whole operation fail
//! with no effect.

use vstd::prelude::*;

use crate::error::BugBountyError;
use crate::ids::AccountId;

verus! {

/// The severity of a vulnerability, fixed when the report is submitted.
/// Critical > High > Medium > Low by convention; the numeric rewards a
/// vault attaches to the tiers are not ordered by the engine.
#[derive(Clone, Copy, PartialEq, Eq, Structural, Debug)]
pub enum SeverityTier {
    Critical,
    High,
    Medium,
    Low,
}

/// One bounty program's funding pool: identities, reward schedule,
/// cumulative counters and the active flag.
#[derive(Clone, Copy, PartialEq, Eq, Debug)]
pub struct BugBountyVault {
    /// The owning team: may update the schedule and pause the vault.
    pub program_team: AccountId,
    /// The identity empowered to approve or reject reports.
    pub governance_authority: AccountId,
    /// The custody account that holds the vault's funds.
    pub vault_token_account: AccountId,
    /// Reward for a critical-severity report, in token units.
    pub critical_reward: u64,
    /// Reward for a high-severity report.
    pub high_reward: u64,
    /// Reward for a medium-severity report.
    pub medium_reward: u64,
    /// Reward for a low-severity report.
    pub low_reward: u64,
    /// Cumulative funding recorded for this vault; never decreases.
    pub total_funded: u64,
    /// Cumulative value paid out; never decreases.
    pub total_paid_out: u64,
    /// Number of reports ever submitted; never decreases.
    pub total_reports: u64,
    /// Number of reports ever approved; never decreases.
    pub approved_reports: u64,
    /// The token the vault pays rewards in; `None` means the native unit.
    pub reward_token_mint: Option<AccountId>,
    /// Whether the vault accepts new report submissions. In-flight
    /// approvals and payouts are not blocked by a paused vault.
    pub vault_active: bool,
    /// When the vault was created.
    pub created_at: i64,
}

impl BugBountyVault {
    /// The reward the current schedule assigns to a severity tier, by
    /// position in the four-slot schedule.
    pub open spec fn spec_reward_for(self, severity: SeverityTier) -> u64 {
        match severity {
            SeverityTier::Critical => self.critical_reward,
            SeverityTier::High => self.high_reward,
            SeverityTier::Medium => self.medium_reward,
            SeverityTier::Low => self.low_reward,
        }
    }

    /// Looks up the reward the current schedule assigns to a severity tier.
    pub fn reward_for(&self, severity: SeverityTier) -> (r: u64)
        ensures
            r == self.spec_reward_for(severity),
    {
        match severity {
            SeverityTier::Critical => self.critical_reward,
            SeverityTier::High => self.high_reward,
            SeverityTier::Medium => self.medium_reward,
            SeverityTier::Low => self.low_reward,
        }
    }
}

/// What any single operation of the engine may do to a vault: the identity
/// fields and the creation stamp never change, and every counter is
/// monotonically non-decreasing. The active flag may be toggled, so it does
/// not appear here.
pub open spec fn vault_evolves(a: BugBountyVault, b: BugBountyVault) -> bool {
    &&& b.program_team == a.program_team
    &&& b.governance_authority == a.governance_authority
    &&& b.vault_token_account == a.vault_token_account
    &&& b.reward_token_mint == a.reward_token_mint
    &&& b.created_at == a.created_at
    &&& b.total_funded >= a.total_funded
    &&& b.total_paid_out >= a.total_paid_out
    &&& b.total_reports >= a.total_reports
    &&& b.approved_reports >= a.approved_reports
}

/// The vault a creation call produces: counters zeroed, active, stamped
/// with the creation time, schedule and identities as given.
pub open spec fn new_vault(
    program_team: AccountId,
    governance_authority: AccountId,
    vault_token_account: AccountId,
    critical_reward: u64,
    high_reward: u64,
    medium_reward: u64,
    low_reward: u64,
    initial_funding: u64,
    reward_token_mint: Option<AccountId>,
    now: i64,
) -> BugBountyVault {
    BugBountyVault {
        program_team,
        governance_authority,
        vault_token_account,
        critical_reward,
        high_reward,
        medium_reward,
        low_reward,
        total_funded: initial_funding,
        total_paid_out: 0,
        total_reports: 0,
        approved_reports: 0,
        reward_token_mint,
        vault_active: true,
        created_at: now,
    }
}

/// Initializes a new bounty vault for `program_team`.
///
/// The caller authorizes as the owning team and supplies the custody
/// account; no value moves here — `initial_funding` records the figure the
/// caller funded through the custody primitive alongside this call.
pub fn create_bounty_vault(
    program_team: AccountId,
    governance_authority: AccountId,
    vault_token_account: AccountId,
    critical_reward: u64,
    high_reward: u64,
    medium_reward: u64,
    low_reward: u64,
    initial_funding: u64,
    reward_token_mint: Option<AccountId>,
    now: i64,
) -> (vault: BugBountyVault)
    ensures
        vault == new_vault(
            program_team,
            governance_authority,
            vault_token_account,
            critical_reward,
            high_reward,
            medium_reward,
            low_reward,
            initial_funding,
            reward_token_mint,
            now,
        ),
        vault.vault_active,
        vault.total_reports == 0 && vault.approved_reports == 0 && vault.total_paid_out == 0,
{
    BugBountyVault {
        program_team,
        governance_authority,
        vault_token_account,
        critical_reward,
        high_reward,
        medium_reward,
        low_reward,
        total_funded: initial_funding,
        total_paid_out: 0,
        total_reports: 0,
        approved_reports: 0,
        reward_token_mint,
        vault_active: true,
        created_at: now,
    }
}

/// The outcome of recording `amount` of new funding on a vault: the new
/// vault and the result handed to the caller. Funding succeeds for every
/// caller exactly when the counter does not wrap, and a failed call leaves
/// the vault unchanged.
pub open spec fn fund_outcome(vault: BugBountyVault, amount: u64) -> (BugBountyVault, Result<
    (),
    BugBountyError,
>) {
    if vault.total_funded + amount <= u64::MAX {
        (
            (BugBountyVault { total_funded: (vault.total_funded + amount) as u64, ..vault }),
            Ok(()),
        )
    } else {
        (vault, Err(BugBountyError::ArithmeticOverflow))
    }
}

/// Records `amount` of new funding on the vault's cumulative counter.
///
/// Any party may fund a vault. The caller's runtime moves the value from
/// the funder's custody account to the vault's custody account atomically
/// with this call; if the counter would wrap, the call fails with
/// `ArithmeticOverflow` and no value may move.
pub fn fund_vault(vault: &mut BugBountyVault, amount: u64) -> (r: Result<(), BugBountyError>)
    ensures
        (*final(vault), r) == fund_outcome(*old(vault), amount),
        old(vault).total_funded + amount <= u64::MAX ==> r == Ok::<(), BugBountyError>(())
            && final(vault).total_funded == old(vault).total_funded + amount,
        old(vault).total_funded + amount > u64::MAX ==> r == Err::<(), BugBountyError>(
            BugBountyError::ArithmeticOverflow,
        ) && *final(vault) == *old(vault),
        vault_evolves(*old(vault), *final(vault)),
        final(vault).vault_active == old(vault).vault_active,
{
    match vault.total_funded.checked_add(amount) {
        Some(total) => {
            vault.total_funded = total;
            Ok(())
        },
        None => Err(BugBountyError::ArithmeticOverflow),
    }
}

/// The outcome of a pause toggle requested by `caller`: only the owning
/// team may flip the flag; anyone else fails with `UnauthorizedTeam` and
/// changes nothing.
pub open spec fn toggle_outcome(vault: BugBountyVault, caller: AccountId) -> (BugBountyVault, Result<
    (),
    BugBountyError,
>) {
    if caller == vault.program_team {
        ((BugBountyVault { vault_active: !vault.vault_active, ..vault }), Ok(()))
    } else {
        (vault, Err(BugBountyError::UnauthorizedTeam))
    }
}

/// Pauses or unpauses the vault.
///
/// Only the owning team may call. An inactive vault rejects new report
/// submissions but does not block in-flight approvals or payouts.
pub fn toggle_vault_status(vault: &mut BugBountyVault, caller: AccountId) -> (r: Result<
    (),
    BugBountyError,
>)
    ensures
        (*final(vault), r) == toggle_outcome(*old(vault), caller),
        caller == old(vault).program_team ==> r == Ok::<(), BugBountyError>(())
            && final(vault).vault_active == !old(vault).vault_active,
        caller != old(vault).program_team ==> r == Err::<(), BugBountyError>(
            BugBountyError::UnauthorizedTeam,
        ) && *final(vault) == *old(vault),
        vault_evolves(*old(vault), *final(vault)),
{
    if caller == vault.program_team {
        vault.vault_active = !vault.vault_active;
        Ok(())
    } else {
        Err(BugBountyError::UnauthorizedTeam)
    }
}

/// The outcome of a reward-schedule update requested by `caller`: only the
/// owning team may replace the four amounts, atomically; anyone else fails
/// with `UnauthorizedTeam` and changes nothing. Already-submitted reports
/// keep the payout they snapshotted at submission.
pub open spec fn update_tiers_outcome(
    vault: BugBountyVault,
    caller: AccountId,
    critical_reward: u64,
    high_reward: u64,
    medium_reward: u64,
    low_reward: u64,
) -> (BugBountyVault, Result<(), BugBountyError>) {
    if caller == vault.program_team {
        (
            (BugBountyVault { critical_reward, high_reward, medium_reward, low_reward, ..vault }),
            Ok(()),
        )
    } else {
        (vault, Err(BugBountyError::UnauthorizedTeam))
    }
}

/// Replaces the vault's four reward amounts atomically.
///
/// Only the owning team may call. The new schedule applies to reports
/// submitted from now on; a report already submitted keeps the payout
/// amount it snapshotted.
pub fn update_reward_tiers(
    vault: &mut BugBountyVault,
    caller: AccountId,
    critical_reward: u64,
    high_reward: u64,
    medium_reward: u64,
    low_reward: u64,
) -> (r: Result<(), BugBountyError>)
    ensures
        (*final(vault), r) == update_tiers_outcome(
            *old(vault),
            caller,
            critical_reward,
            high_reward,
            medium_reward,
            low_reward,
        ),
        caller == old(vault).program_team ==> r == Ok::<(), BugBountyError>(())
            && final(vault).critical_reward == critical_reward && final(vault).high_reward
            == high_reward && final(vault).medium_reward == medium_reward
            && final(vault).low_reward == low_reward,
        caller != old(vault).program_team ==> r == Err::<(), BugBountyError>(
            BugBountyError::UnauthorizedTeam,
        ) && *final(vault) == *old(vault),
        vault_evolves(*old(vault), *final(vault)),
{
    if caller == vault.program_team {
        vault.critical_reward = critical_reward;
        vault.high_reward = high_reward;
        vault.medium_reward = medium_reward;
        vault.low_reward = low_reward;
        Ok(())
    } else {
        Err(BugBountyError::UnauthorizedTeam)
    }
}

} // verus!
