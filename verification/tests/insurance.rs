use obligation_ledger::errors::LedgerError;
use obligation_ledger::insurance::{Insurance, MONTH_IN_SECONDS};

#[test]
fn create_policy_rejects_nonpositive_figures() {
    let mut ledger = Insurance::initialize();
    let r = ledger.create_policy("health".to_string(), "health".to_string(), 0, 50_000, 1_000);
    assert_eq!(r, Err(LedgerError::InvalidAmount));
    let r = ledger.create_policy("home".to_string(), "property".to_string(), 30, -1, 1_000);
    assert_eq!(r, Err(LedgerError::InvalidAmount));
    assert_eq!(ledger.next_id, 0);
    assert_eq!(ledger.active_count, 0);
    assert_eq!(ledger.total_premium, 0);
}

#[test]
fn create_policy_sets_first_payment_one_month_ahead() {
    let mut ledger = Insurance::initialize();
    let id = ledger
        .create_policy("health".to_string(), "health".to_string(), 120, 50_000, 1_704_067_200)
        .unwrap();
    assert_eq!(id, 1);
    let policy = ledger.get_policy(1).unwrap();
    assert_eq!(policy.next_payment_date, 1_704_067_200 + MONTH_IN_SECONDS);
    assert_eq!(policy.next_payment_date, 1_706_659_200);
    assert!(policy.active);
    assert_eq!(policy.coverage_type, "health");
}

#[test]
fn pay_premium_moves_only_the_payment_date() {
    let mut ledger = Insurance::initialize();
    ledger
        .create_policy("health".to_string(), "health".to_string(), 120, 50_000, 1_000)
        .unwrap();
    assert!(ledger.pay_premium(1, 2_000_000));
    let policy = ledger.get_policy(1).unwrap();
    assert_eq!(policy.next_payment_date, 2_000_000 + MONTH_IN_SECONDS);
    assert_eq!(policy.monthly_premium, 120);
    assert!(policy.active);
    assert_eq!(ledger.active_count, 1);
    assert_eq!(ledger.total_premium, 120);
}

#[test]
fn pay_premium_refuses_unknown_and_inactive_policies() {
    let mut ledger = Insurance::initialize();
    assert!(!ledger.pay_premium(1, 1_000));
    ledger
        .create_policy("health".to_string(), "health".to_string(), 120, 50_000, 1_000)
        .unwrap();
    ledger.deactivate_policy(1).unwrap();
    assert!(!ledger.pay_premium(1, 1_000));
}

#[test]
fn deactivate_unknown_policy_is_not_found() {
    let mut ledger = Insurance::initialize();
    assert_eq!(ledger.deactivate_policy(4), Err(LedgerError::NotFound));
}

#[test]
fn deactivate_flips_once_then_reports_false() {
    let mut ledger = Insurance::initialize();
    ledger
        .create_policy("health".to_string(), "health".to_string(), 120, 50_000, 1_000)
        .unwrap();
    ledger
        .create_policy("car".to_string(), "vehicle".to_string(), 80, 20_000, 1_000)
        .unwrap();
    assert_eq!(ledger.total_premium, 200);
    assert_eq!(ledger.active_count, 2);
    assert_eq!(ledger.deactivate_policy(1), Ok(true));
    assert_eq!(ledger.total_premium, 80);
    assert_eq!(ledger.active_count, 1);
    assert_eq!(ledger.deactivate_policy(1), Ok(false));
    assert_eq!(ledger.total_premium, 80);
    assert_eq!(ledger.active_count, 1);
    assert!(!ledger.get_policy(1).unwrap().active);
}

#[test]
fn total_monthly_premium_matches_the_record_store() {
    let mut ledger = Insurance::initialize();
    ledger
        .create_policy("health".to_string(), "health".to_string(), 120, 50_000, 1_000)
        .unwrap();
    ledger
        .create_policy("car".to_string(), "vehicle".to_string(), 80, 20_000, 1_000)
        .unwrap();
    ledger
        .create_policy("travel".to_string(), "travel".to_string(), 15, 5_000, 1_000)
        .unwrap();
    ledger.deactivate_policy(2).unwrap();
    let mut scanned: i128 = 0;
    for policy in ledger.get_active_policies() {
        scanned += policy.monthly_premium;
    }
    assert_eq!(ledger.get_total_monthly_premium(), scanned);
    assert_eq!(ledger.get_total_monthly_premium(), 135);
}

#[test]
fn active_policies_come_in_ascending_id_order() {
    let mut ledger = Insurance::initialize();
    ledger
        .create_policy("health".to_string(), "health".to_string(), 120, 50_000, 1_000)
        .unwrap();
    ledger
        .create_policy("car".to_string(), "vehicle".to_string(), 80, 20_000, 1_000)
        .unwrap();
    ledger
        .create_policy("travel".to_string(), "travel".to_string(), 15, 5_000, 1_000)
        .unwrap();
    ledger.deactivate_policy(2).unwrap();
    let active = ledger.get_active_policies();
    assert_eq!(active.len(), 2);
    assert_eq!(active[0].id, 1);
    assert_eq!(active[1].id, 3);
}
