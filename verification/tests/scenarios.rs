use bug_bounty_platform::error::BugBountyError;
use bug_bounty_platform::ids::AccountId;
use bug_bounty_platform::payout::execute_payout;
use bug_bounty_platform::report::approve_report;
use bug_bounty_platform::report::submit_report;
use bug_bounty_platform::report::ReportStatus;
use bug_bounty_platform::vault::create_bounty_vault;
use bug_bounty_platform::vault::toggle_vault_status;
use bug_bounty_platform::vault::update_reward_tiers;
use bug_bounty_platform::vault::SeverityTier;

const TEAM: AccountId = AccountId(11, 0, 0, 0);
const GOV: AccountId = AccountId(12, 0, 0, 0);
const CUSTODY: AccountId = AccountId(13, 0, 0, 0);
const VAULT_KEY: AccountId = AccountId(14, 0, 0, 0);
const RESEARCHER: AccountId = AccountId(19, 0, 0, 0);

#[test]
fn schedule_change_never_reprices_a_submitted_report() {
    let mut vault = create_bounty_vault(TEAM, GOV, CUSTODY, 1000, 500, 200, 50, 100_000, None, 1);
    let (mut report, _) =
        submit_report(&mut vault, VAULT_KEY, RESEARCHER, SeverityTier::High, [1; 32], 2).unwrap();
    assert_eq!(report.payout_amount, 500);
    assert_eq!(
        approve_report(&mut vault, &mut report, GOV, Some("confirmed".to_string()), 3),
        Ok(())
    );
    assert_eq!(update_reward_tiers(&mut vault, TEAM, 1000, 900, 200, 50), Ok(()));
    let auth = execute_payout(&vault, &mut report, RESEARCHER, 4).unwrap();
    assert_eq!(auth.amount, 500);
    assert_eq!(report.status, ReportStatus::Paid);
}

#[test]
fn two_submissions_by_one_researcher_never_collide() {
    let mut vault = create_bounty_vault(TEAM, GOV, CUSTODY, 1000, 500, 200, 50, 0, None, 1);
    let (_, first) =
        submit_report(&mut vault, VAULT_KEY, RESEARCHER, SeverityTier::Low, [2; 32], 2).unwrap();
    let (_, second) =
        submit_report(&mut vault, VAULT_KEY, RESEARCHER, SeverityTier::Low, [2; 32], 2).unwrap();
    assert_ne!(first, second);
    assert_eq!(first.index, 0);
    assert_eq!(second.index, 1);
    assert_eq!(vault.total_reports, 2);
}

#[test]
fn toggling_an_inactive_vault_reopens_submissions() {
    let mut vault = create_bounty_vault(TEAM, GOV, CUSTODY, 1000, 500, 200, 50, 0, None, 1);
    assert_eq!(toggle_vault_status(&mut vault, TEAM), Ok(()));
    assert!(!vault.vault_active);
    let refused = submit_report(&mut vault, VAULT_KEY, RESEARCHER, SeverityTier::High, [3; 32], 2);
    assert_eq!(refused, Err(BugBountyError::VaultInactive));
    assert_eq!(vault.total_reports, 0);
    assert_eq!(toggle_vault_status(&mut vault, TEAM), Ok(()));
    let accepted = submit_report(&mut vault, VAULT_KEY, RESEARCHER, SeverityTier::High, [3; 32], 3);
    assert!(accepted.is_ok());
    assert_eq!(vault.total_reports, 1);
}
