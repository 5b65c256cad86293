use obligation_ledger::bills::BillPayments;
use obligation_ledger::errors::LedgerError;

#[test]
fn create_assigns_sequential_ids() {
    let mut ledger = BillPayments::initialize();
    let a = ledger.create_bill("electricity".to_string(), 120, 1_700_000_000, false, 0);
    let b = ledger.create_bill("rent".to_string(), 900, 1_700_100_000, false, 0);
    let c = ledger.create_bill("water".to_string(), 45, 1_700_200_000, false, 0);
    assert_eq!(a, Ok(1));
    assert_eq!(b, Ok(2));
    assert_eq!(c, Ok(3));
    assert_eq!(ledger.next_id, 3);
}

#[test]
fn create_rejects_zero_amount() {
    let mut ledger = BillPayments::initialize();
    let r = ledger.create_bill("electricity".to_string(), 0, 1_700_000_000, false, 0);
    assert_eq!(r, Err(LedgerError::InvalidAmount));
    assert_eq!(ledger.next_id, 0);
    assert_eq!(ledger.unpaid_count, 0);
    assert_eq!(ledger.total_unpaid, 0);
}

#[test]
fn create_rejects_negative_amount() {
    let mut ledger = BillPayments::initialize();
    ledger
        .create_bill("rent".to_string(), 900, 1_700_000_000, false, 0)
        .unwrap();
    let r = ledger.create_bill("gas".to_string(), -7, 1_700_000_000, false, 0);
    assert_eq!(r, Err(LedgerError::InvalidAmount));
    assert_eq!(ledger.next_id, 1);
    assert_eq!(ledger.unpaid_count, 1);
    assert_eq!(ledger.total_unpaid, 900);
}

#[test]
fn pay_unknown_id_is_not_found_and_changes_nothing() {
    let mut ledger = BillPayments::initialize();
    ledger
        .create_bill("rent".to_string(), 900, 1_700_000_000, false, 0)
        .unwrap();
    let r = ledger.pay_bill(99);
    assert_eq!(r, Err(LedgerError::NotFound));
    assert_eq!(ledger.next_id, 1);
    assert_eq!(ledger.unpaid_count, 1);
    assert_eq!(ledger.total_unpaid, 900);
    let bill = ledger.get_bill(1).unwrap();
    assert!(!bill.paid);
    assert_eq!(bill.amount, 900);
    assert_eq!(bill.name, "rent");
}

#[test]
fn pay_flips_state_once_then_reports_false() {
    let mut ledger = BillPayments::initialize();
    ledger
        .create_bill("rent".to_string(), 900, 1_700_000_000, false, 0)
        .unwrap();
    assert_eq!(ledger.pay_bill(1), Ok(true));
    assert!(ledger.get_bill(1).unwrap().paid);
    assert_eq!(ledger.unpaid_count, 0);
    assert_eq!(ledger.total_unpaid, 0);
    assert_eq!(ledger.pay_bill(1), Ok(false));
    assert_eq!(ledger.unpaid_count, 0);
    assert_eq!(ledger.total_unpaid, 0);
    assert_eq!(ledger.next_id, 1);
}

#[test]
fn paying_recurring_bill_spawns_successor_one_period_later() {
    let mut ledger = BillPayments::initialize();
    ledger
        .create_bill("internet".to_string(), 75, 1_704_067_200, true, 30)
        .unwrap();
    assert_eq!(ledger.pay_bill(1), Ok(true));
    let successor = ledger.get_bill(2).unwrap();
    assert_eq!(successor.due_date, 1_706_659_200);
    assert_eq!(successor.amount, 75);
    assert_eq!(successor.name, "internet");
    assert!(successor.recurring);
    assert_eq!(successor.frequency_days, 30);
    assert!(!successor.paid);
    assert_eq!(ledger.next_id, 2);
    assert_eq!(ledger.unpaid_count, 1);
    assert_eq!(ledger.total_unpaid, 75);
}

#[test]
fn renew_is_none_for_one_off_bills() {
    let mut ledger = BillPayments::initialize();
    ledger
        .create_bill("one-off".to_string(), 10, 500, false, 14)
        .unwrap();
    let bill = ledger.get_bill(1).unwrap();
    assert!(BillPayments::renew(&bill, 2).is_none());
}

#[test]
fn renew_offsets_due_date_by_frequency_days() {
    let mut ledger = BillPayments::initialize();
    ledger
        .create_bill("weekly".to_string(), 10, 1_000, true, 7)
        .unwrap();
    let bill = ledger.get_bill(1).unwrap();
    let next = BillPayments::renew(&bill, 9).unwrap();
    assert_eq!(next.id, 9);
    assert_eq!(next.due_date, 1_000 + 7 * 86_400);
    assert_eq!(next.amount, 10);
}

#[test]
fn total_unpaid_always_matches_the_record_store() {
    let mut ledger = BillPayments::initialize();
    ledger.create_bill("a".to_string(), 10, 100, false, 0).unwrap();
    ledger.create_bill("b".to_string(), 20, 200, true, 30).unwrap();
    ledger.create_bill("c".to_string(), 40, 300, false, 0).unwrap();
    ledger.pay_bill(1).unwrap();
    ledger.pay_bill(2).unwrap();
    let mut scanned: i128 = 0;
    let mut id = 1;
    while let Some(bill) = ledger.get_bill(id) {
        if !bill.paid {
            scanned += bill.amount;
        }
        id += 1;
    }
    assert_eq!(ledger.get_total_unpaid(), scanned);
    assert_eq!(ledger.get_total_unpaid(), 60);
}

#[test]
fn unpaid_bills_come_in_ascending_id_order() {
    let mut ledger = BillPayments::initialize();
    ledger.create_bill("a".to_string(), 10, 100, false, 0).unwrap();
    ledger.create_bill("b".to_string(), 20, 200, false, 0).unwrap();
    ledger.create_bill("c".to_string(), 40, 300, false, 0).unwrap();
    ledger.pay_bill(2).unwrap();
    let unpaid = ledger.get_unpaid_bills();
    assert_eq!(unpaid.len(), 2);
    assert_eq!(unpaid[0].id, 1);
    assert_eq!(unpaid[1].id, 3);
}

#[test]
fn empty_ledger_has_nothing_to_report() {
    let ledger = BillPayments::initialize();
    assert!(ledger.get_bill(1).is_none());
    assert!(ledger.get_unpaid_bills().is_empty());
    assert_eq!(ledger.get_total_unpaid(), 0);
}
