use obligation_ledger::savings::{SavingsError, SavingsGoals};

#[test]
fn create_goal_rejects_nonpositive_target() {
    let mut ledger = SavingsGoals::initialize();
    assert_eq!(
        ledger.create_goal("holiday".to_string(), 0, 2_000, 1_000),
        Err(SavingsError::InvalidAmount)
    );
    assert_eq!(
        ledger.create_goal("holiday".to_string(), -500, 2_000, 1_000),
        Err(SavingsError::InvalidAmount)
    );
    assert_eq!(ledger.next_id, 0);
    assert_eq!(ledger.active_count, 0);
}

#[test]
fn create_goal_rejects_target_date_not_in_future() {
    let mut ledger = SavingsGoals::initialize();
    assert_eq!(
        ledger.create_goal("holiday".to_string(), 1_000, 999, 1_000),
        Err(SavingsError::InvalidDate)
    );
    assert_eq!(
        ledger.create_goal("holiday".to_string(), 1_000, 1_000, 1_000),
        Err(SavingsError::InvalidDate)
    );
    assert_eq!(ledger.next_id, 0);
}

#[test]
fn created_goal_starts_locked_with_nothing_saved() {
    let mut ledger = SavingsGoals::initialize();
    let id = ledger
        .create_goal("holiday".to_string(), 1_000, 2_000, 1_000)
        .unwrap();
    assert_eq!(id, 1);
    let goal = ledger.get_goal(1).unwrap();
    assert_eq!(goal.current_amount, 0);
    assert_eq!(goal.target_amount, 1_000);
    assert!(goal.locked);
    assert_eq!(ledger.active_count, 1);
    assert_eq!(ledger.completed_count, 0);
    assert_eq!(ledger.total_saved, 0);
}

#[test]
fn add_to_goal_rejects_nonpositive_amount() {
    let mut ledger = SavingsGoals::initialize();
    ledger
        .create_goal("holiday".to_string(), 1_000, 2_000, 1_000)
        .unwrap();
    assert_eq!(ledger.add_to_goal(1, 0), Err(SavingsError::InvalidAmount));
    assert_eq!(ledger.add_to_goal(1, -20), Err(SavingsError::InvalidAmount));
    assert_eq!(ledger.total_saved, 0);
}

#[test]
fn add_to_unknown_goal_is_not_found() {
    let mut ledger = SavingsGoals::initialize();
    assert_eq!(ledger.add_to_goal(3, 50), Err(SavingsError::GoalNotFound));
    assert_eq!(ledger.total_saved, 0);
}

#[test]
fn deposits_accumulate_and_feed_the_saved_total() {
    let mut ledger = SavingsGoals::initialize();
    ledger
        .create_goal("holiday".to_string(), 1_000, 2_000, 1_000)
        .unwrap();
    ledger
        .create_goal("car".to_string(), 5_000, 3_000, 1_000)
        .unwrap();
    assert_eq!(ledger.add_to_goal(1, 400), Ok(400));
    assert_eq!(ledger.add_to_goal(2, 250), Ok(250));
    assert_eq!(ledger.add_to_goal(1, 100), Ok(500));
    assert_eq!(ledger.total_saved, 750);
    assert_eq!(ledger.get_goal(1).unwrap().current_amount, 500);
    assert_eq!(ledger.get_goal(2).unwrap().current_amount, 250);
}

#[test]
fn crossing_the_target_moves_a_goal_to_completed() {
    let mut ledger = SavingsGoals::initialize();
    ledger
        .create_goal("holiday".to_string(), 1_000, 2_000, 1_000)
        .unwrap();
    ledger.add_to_goal(1, 999).unwrap();
    assert!(!ledger.is_goal_completed(1));
    assert_eq!(ledger.active_count, 1);
    assert_eq!(ledger.completed_count, 0);
    assert_eq!(ledger.add_to_goal(1, 1), Ok(1_000));
    assert!(ledger.is_goal_completed(1));
    assert_eq!(ledger.active_count, 0);
    assert_eq!(ledger.completed_count, 1);
    assert_eq!(ledger.add_to_goal(1, 5), Ok(1_005));
    assert_eq!(ledger.active_count, 0);
    assert_eq!(ledger.completed_count, 1);
}

#[test]
fn is_goal_completed_is_false_for_unknown_ids() {
    let ledger = SavingsGoals::initialize();
    assert!(!ledger.is_goal_completed(1));
}

#[test]
fn get_all_goals_returns_every_goal_in_id_order() {
    let mut ledger = SavingsGoals::initialize();
    ledger
        .create_goal("holiday".to_string(), 1_000, 2_000, 1_000)
        .unwrap();
    ledger
        .create_goal("car".to_string(), 5_000, 3_000, 1_000)
        .unwrap();
    let goals = ledger.get_all_goals();
    assert_eq!(goals.len(), 2);
    assert_eq!(goals[0].id, 1);
    assert_eq!(goals[0].name, "holiday");
    assert_eq!(goals[1].id, 2);
    assert_eq!(goals[1].name, "car");
}
