use bug_bounty_platform::error::BugBountyError;
use bug_bounty_platform::ids::AccountId;
use bug_bounty_platform::vault::create_bounty_vault;
use bug_bounty_platform::vault::fund_vault;
use bug_bounty_platform::vault::toggle_vault_status;
use bug_bounty_platform::vault::update_reward_tiers;
use bug_bounty_platform::vault::SeverityTier;

const TEAM: AccountId = AccountId(1, 0, 0, 0);
const GOV: AccountId = AccountId(2, 0, 0, 0);
const CUSTODY: AccountId = AccountId(3, 0, 0, 0);

#[test]
fn create_initializes_counters_and_flags() {
    let vault = create_bounty_vault(TEAM, GOV, CUSTODY, 1000, 500, 200, 50, 77, None, 42);
    assert_eq!(vault.program_team, TEAM);
    assert_eq!(vault.governance_authority, GOV);
    assert_eq!(vault.vault_token_account, CUSTODY);
    assert_eq!(vault.critical_reward, 1000);
    assert_eq!(vault.high_reward, 500);
    assert_eq!(vault.medium_reward, 200);
    assert_eq!(vault.low_reward, 50);
    assert_eq!(vault.total_funded, 77);
    assert_eq!(vault.total_paid_out, 0);
    assert_eq!(vault.total_reports, 0);
    assert_eq!(vault.approved_reports, 0);
    assert_eq!(vault.reward_token_mint, None);
    assert!(vault.vault_active);
    assert_eq!(vault.created_at, 42);
}

#[test]
fn reward_for_reads_the_schedule_by_tier() {
    let vault = create_bounty_vault(TEAM, GOV, CUSTODY, 1000, 500, 200, 50, 0, None, 0);
    assert_eq!(vault.reward_for(SeverityTier::Critical), 1000);
    assert_eq!(vault.reward_for(SeverityTier::High), 500);
    assert_eq!(vault.reward_for(SeverityTier::Medium), 200);
    assert_eq!(vault.reward_for(SeverityTier::Low), 50);
}

#[test]
fn fund_accumulates_checked() {
    let mut vault = create_bounty_vault(TEAM, GOV, CUSTODY, 1000, 500, 200, 50, 10, None, 0);
    assert_eq!(fund_vault(&mut vault, 90), Ok(()));
    assert_eq!(vault.total_funded, 100);
    assert_eq!(fund_vault(&mut vault, 0), Ok(()));
    assert_eq!(vault.total_funded, 100);
}

#[test]
fn fund_overflow_fails_without_effect() {
    let mut vault = create_bounty_vault(TEAM, GOV, CUSTODY, 1000, 500, 200, 50, u64::MAX - 5, None, 0);
    assert_eq!(fund_vault(&mut vault, 6), Err(BugBountyError::ArithmeticOverflow));
    assert_eq!(vault.total_funded, u64::MAX - 5);
    assert_eq!(fund_vault(&mut vault, 5), Ok(()));
    assert_eq!(vault.total_funded, u64::MAX);
}

#[test]
fn toggle_flips_only_for_owning_team() {
    let mut vault = create_bounty_vault(TEAM, GOV, CUSTODY, 1000, 500, 200, 50, 0, None, 0);
    assert_eq!(toggle_vault_status(&mut vault, GOV), Err(BugBountyError::UnauthorizedTeam));
    assert!(vault.vault_active);
    assert_eq!(toggle_vault_status(&mut vault, TEAM), Ok(()));
    assert!(!vault.vault_active);
    assert_eq!(toggle_vault_status(&mut vault, TEAM), Ok(()));
    assert!(vault.vault_active);
}

#[test]
fn update_tiers_replaces_schedule_atomically_for_team_only() {
    let mut vault = create_bounty_vault(TEAM, GOV, CUSTODY, 1000, 500, 200, 50, 0, None, 0);
    assert_eq!(
        update_reward_tiers(&mut vault, AccountId(99, 0, 0, 0), 1, 2, 3, 4),
        Err(BugBountyError::UnauthorizedTeam)
    );
    assert_eq!(vault.critical_reward, 1000);
    assert_eq!(vault.high_reward, 500);
    assert_eq!(update_reward_tiers(&mut vault, TEAM, 2000, 900, 300, 100), Ok(()));
    assert_eq!(vault.critical_reward, 2000);
    assert_eq!(vault.high_reward, 900);
    assert_eq!(vault.medium_reward, 300);
    assert_eq!(vault.low_reward, 100);
}
