use support_core::error::Error;
use support_core::ledger::{free_star_available, GoldStar, StarLedger};

#[test]
fn get_or_create_yields_the_zero_row_and_is_idempotent() {
    let mut ledger = StarLedger::new();
    let zero = GoldStar {
        number_of_stars: 0,
        given_stars: 0,
        received_stars: 0,
        last_free_star: None,
    };
    assert_eq!(ledger.get_or_create_account(11), Ok(zero));
    assert_eq!(ledger.get_or_create_account(11), Ok(zero));
}

#[test]
fn create_user_writes_the_row_it_returns() {
    let mut ledger = StarLedger::new();
    let row = ledger.create_user_at(5, 2, 5, 100).unwrap();
    assert_eq!(
        row,
        GoldStar {
            number_of_stars: 5,
            given_stars: 2,
            received_stars: 5,
            last_free_star: Some(100),
        }
    );
    assert_eq!(ledger.get_or_create_account(5), Ok(row));
}

#[test]
fn create_user_without_given_stars_has_no_timestamp() {
    let mut ledger = StarLedger::new();
    let row = ledger.create_user_at(5, 0, 3, 100).unwrap();
    assert_eq!(row.last_free_star, None);
    assert_eq!(row.number_of_stars, 3);
    assert_eq!(row.received_stars, 3);
}

#[test]
fn create_user_twice_is_a_persistence_failure() {
    let mut ledger = StarLedger::new();
    ledger.create_user_at(5, 0, 0, 1).unwrap();
    assert_eq!(ledger.create_user_at(5, 1, 1, 2), Err(Error::PersistenceFailure));
}

#[test]
fn paid_transfer_beyond_balance_is_rejected_and_changes_nothing() {
    let mut ledger = StarLedger::new();
    ledger.create_user_at(5, 2, 5, 1).unwrap();
    assert_eq!(
        ledger.transfer_star_at(5, 10, false, 2),
        Err(Error::InsufficientBalance)
    );
    let row = ledger.get_or_create_account(5).unwrap();
    assert_eq!(row.number_of_stars, 5);
    assert_eq!(row.given_stars, 2);
}

#[test]
fn paid_transfer_moves_balance_onto_given() {
    let mut ledger = StarLedger::new();
    ledger.create_user_at(5, 2, 5, 1).unwrap();
    assert_eq!(ledger.transfer_star_at(5, 3, false, 2), Ok(()));
    let row = ledger.get_or_create_account(5).unwrap();
    assert_eq!(row.number_of_stars, 2);
    assert_eq!(row.given_stars, 5);
    assert_eq!(row.received_stars, 5);
}

#[test]
fn free_transfer_touches_only_given_and_timestamp() {
    let mut ledger = StarLedger::new();
    ledger.create_user_at(5, 2, 5, 1).unwrap();
    assert_eq!(ledger.transfer_star_at(5, 4, true, 400), Ok(()));
    let row = ledger.get_or_create_account(5).unwrap();
    assert_eq!(row.number_of_stars, 5);
    assert_eq!(row.received_stars, 5);
    assert_eq!(row.given_stars, 6);
    assert_eq!(row.last_free_star, Some(400));
}

#[test]
fn free_transfer_through_the_clock_stamps_a_timestamp() {
    let mut ledger = StarLedger::new();
    assert_eq!(ledger.transfer_star(5, 1, true), Ok(()));
    let row = ledger.get_or_create_account(5).unwrap();
    assert_eq!(row.given_stars, 1);
    assert_eq!(row.number_of_stars, 0);
    assert!(row.last_free_star.is_some());
}

#[test]
fn receive_raises_balance_and_received_together() {
    let mut ledger = StarLedger::new();
    assert_eq!(ledger.receive_star(8, 4), Ok(()));
    assert_eq!(ledger.receive_star(8, 2), Ok(()));
    let row = ledger.get_or_create_account(8).unwrap();
    assert_eq!(row.number_of_stars, 6);
    assert_eq!(row.received_stars, 6);
    assert_eq!(row.given_stars, 0);
}

#[test]
fn balance_follows_the_sum_of_applied_operations() {
    let mut ledger = StarLedger::new();
    ledger.receive_star(3, 10).unwrap();
    ledger.transfer_star_at(3, 4, false, 1).unwrap();
    assert_eq!(
        ledger.transfer_star_at(3, 7, false, 2),
        Err(Error::InsufficientBalance)
    );
    ledger.transfer_star_at(3, 2, true, 3).unwrap();
    ledger.receive_star(3, 1).unwrap();
    let row = ledger.get_or_create_account(3).unwrap();
    // 10 received - 4 paid + 1 received; the rejected and the free
    // transfer contribute nothing
    assert_eq!(row.number_of_stars, 7);
    assert_eq!(row.given_stars, 6);
    assert_eq!(row.received_stars, 11);
}

#[test]
fn counter_overflow_is_a_persistence_failure() {
    let mut ledger = StarLedger::new();
    ledger.create_user_at(5, i32::MAX, 0, 1).unwrap();
    assert_eq!(
        ledger.transfer_star_at(5, 1, true, 2),
        Err(Error::PersistenceFailure)
    );
    let mut other = StarLedger::new();
    other.create_user_at(6, 0, i32::MAX, 1).unwrap();
    assert_eq!(other.receive_star(6, 1), Err(Error::PersistenceFailure));
}

#[test]
fn oversized_user_id_is_a_conversion_error() {
    let mut ledger = StarLedger::new();
    assert_eq!(ledger.get_or_create_account(u64::MAX), Err(Error::ConversionError));
    assert_eq!(
        ledger.transfer_star_at(u64::MAX, 1, false, 1),
        Err(Error::ConversionError)
    );
    assert_eq!(ledger.receive_star(u64::MAX, 1), Err(Error::ConversionError));
}

#[test]
fn transfer_creates_the_row_lazily() {
    let mut ledger = StarLedger::new();
    // a paid transfer of zero against a missing row succeeds on the
    // implicit zero account and writes it
    assert_eq!(ledger.transfer_star_at(9, 0, false, 1), Ok(()));
    let row = ledger.get_or_create_account(9).unwrap();
    assert_eq!(row.number_of_stars, 0);
    assert_eq!(row.given_stars, 0);
}

#[test]
fn create_user_through_the_clock_stamps_when_stars_were_given() {
    let mut ledger = StarLedger::new();
    let row = ledger.create_user(5, 1, 0).unwrap();
    assert_eq!(row.given_stars, 1);
    assert!(row.last_free_star.is_some());
    let row2 = ledger.create_user(6, 0, 2).unwrap();
    assert_eq!(row2.last_free_star, None);
}

#[test]
fn cooldown_check_follows_the_recorded_timestamp() {
    // no free transfer recorded yet: always available
    assert!(free_star_available(None, 0, 86400));
    // one full period elapsed
    assert!(free_star_available(Some(100), 86500, 86400));
    // still inside the window
    assert!(!free_star_available(Some(100), 86499, 86400));
    // the recorded moment itself, with a zero period
    assert!(free_star_available(Some(100), 100, 0));
}
