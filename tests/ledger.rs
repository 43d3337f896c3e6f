use deposit_contract::{
    deposit, get_total_deposits, initialize, withdraw, DepositAccount, ErrorCode, Identity,
};

fn id(b: u8) -> Identity {
    Identity::new([b; 32])
}

fn entries(e: &DepositAccount) -> Vec<([u8; 32], u64)> {
    e.user_deposits.iter().map(|d| (d.user.bytes, d.amount)).collect()
}

fn sum_of_claims(e: &DepositAccount) -> u64 {
    e.user_deposits.iter().map(|d| d.amount).sum()
}

#[test]
fn initialize_is_empty() {
    let e = initialize(id(1));
    assert_eq!(e.total_deposits, 0);
    assert!(e.user_deposits.is_empty());
    assert!(e.owner == id(1));
    assert_eq!(get_total_deposits(&e), 0);
}

#[test]
fn scenario_deposit_and_withdraw() {
    let a = id(1);
    let b = id(2);
    let mut e = initialize(a);
    assert_eq!(deposit(&mut e, b, 100, Ok(())), Ok(()));
    assert_eq!(e.total_deposits, 100);
    assert_eq!(entries(&e), vec![([2; 32], 100)]);
    assert_eq!(deposit(&mut e, b, 50, Ok(())), Ok(()));
    assert_eq!(e.total_deposits, 150);
    assert_eq!(entries(&e), vec![([2; 32], 150)]);
    assert_eq!(withdraw(&mut e, b, 200, u64::MAX), Err(ErrorCode::InsufficientFunds));
    assert_eq!(e.total_deposits, 150);
    assert_eq!(entries(&e), vec![([2; 32], 150)]);
    assert_eq!(withdraw(&mut e, b, 150, 150), Ok(()));
    assert_eq!(e.total_deposits, 0);
    assert_eq!(entries(&e), vec![([2; 32], 0)]);
    assert_eq!(get_total_deposits(&e), 0);
}

#[test]
fn total_matches_claims_after_operations() {
    let mut e = initialize(id(9));
    let _ = deposit(&mut e, id(1), 40, Ok(()));
    let _ = deposit(&mut e, id(2), 70, Ok(()));
    assert_eq!(e.total_deposits, sum_of_claims(&e));
    let _ = withdraw(&mut e, id(1), 15, 1000);
    assert_eq!(e.total_deposits, sum_of_claims(&e));
    let _ = withdraw(&mut e, id(2), 71, 1000);
    assert_eq!(e.total_deposits, sum_of_claims(&e));
    let _ = deposit(&mut e, id(1), 5, Err(ErrorCode::TransferFailed));
    assert_eq!(e.total_deposits, sum_of_claims(&e));
    assert_eq!(e.total_deposits, 95);
}

#[test]
fn deposit_then_withdraw_restores_state() {
    let mut e = initialize(id(9));
    let _ = deposit(&mut e, id(1), 30, Ok(()));
    let _ = deposit(&mut e, id(2), 20, Ok(()));
    let before_total = e.total_deposits;
    let before = entries(&e);
    assert_eq!(deposit(&mut e, id(1), 12, Ok(())), Ok(()));
    assert_eq!(withdraw(&mut e, id(1), 12, 1000), Ok(()));
    assert_eq!(e.total_deposits, before_total);
    assert_eq!(entries(&e), before);
}

#[test]
fn repeated_deposits_keep_one_entry() {
    let mut e = initialize(id(9));
    let _ = deposit(&mut e, id(3), 1, Ok(()));
    let _ = deposit(&mut e, id(4), 2, Ok(()));
    let _ = deposit(&mut e, id(3), 5, Ok(()));
    let _ = deposit(&mut e, id(3), 0, Ok(()));
    assert_eq!(entries(&e), vec![([3; 32], 6), ([4; 32], 2)]);
    assert_eq!(e.total_deposits, 8);
}

#[test]
fn exact_withdraw_leaves_zero_entry() {
    let mut e = initialize(id(9));
    let _ = deposit(&mut e, id(5), 77, Ok(()));
    assert_eq!(withdraw(&mut e, id(5), 77, 77), Ok(()));
    assert_eq!(entries(&e), vec![([5; 32], 0)]);
    assert_eq!(e.total_deposits, 0);
}

#[test]
fn over_withdraw_changes_nothing() {
    let mut e = initialize(id(9));
    let _ = deposit(&mut e, id(5), 77, Ok(()));
    assert_eq!(withdraw(&mut e, id(5), 78, u64::MAX), Err(ErrorCode::InsufficientFunds));
    assert_eq!(entries(&e), vec![([5; 32], 77)]);
    assert_eq!(e.total_deposits, 77);
}

#[test]
fn withdraw_without_entry_fails() {
    let mut e = initialize(id(9));
    let _ = deposit(&mut e, id(5), 10, Ok(()));
    assert_eq!(withdraw(&mut e, id(6), 0, 100), Err(ErrorCode::InsufficientFunds));
    assert_eq!(entries(&e), vec![([5; 32], 10)]);
}

#[test]
fn withdraw_beyond_custody_fails() {
    let mut e = initialize(id(9));
    let _ = deposit(&mut e, id(5), 10, Ok(()));
    assert_eq!(withdraw(&mut e, id(5), 10, 9), Err(ErrorCode::InsufficientFunds));
    assert_eq!(entries(&e), vec![([5; 32], 10)]);
    assert_eq!(e.total_deposits, 10);
}

#[test]
fn failed_transfer_is_passed_on() {
    let mut e = initialize(id(9));
    assert_eq!(deposit(&mut e, id(5), 10, Err(ErrorCode::TransferFailed)), Err(ErrorCode::TransferFailed));
    assert_eq!(deposit(&mut e, id(5), 10, Err(ErrorCode::AccountNotFound)), Err(ErrorCode::AccountNotFound));
    assert_eq!(e.total_deposits, 0);
    assert!(e.user_deposits.is_empty());
}

#[test]
fn deposit_up_to_the_largest_total() {
    let mut e = initialize(id(9));
    assert_eq!(deposit(&mut e, id(1), u64::MAX - 1, Ok(())), Ok(()));
    assert_eq!(deposit(&mut e, id(1), 1, Ok(())), Ok(()));
    assert_eq!(e.total_deposits, u64::MAX);
    assert_eq!(entries(&e), vec![([1; 32], u64::MAX)]);
}

#[test]
fn identities_compare_by_every_byte() {
    let mut k = [7u8; 32];
    assert!(Identity::new(k) == Identity::new([7; 32]));
    k[31] = 8;
    assert!(Identity::new(k) != Identity::new([7; 32]));
}

#[test]
fn error_messages() {
    assert_eq!(ErrorCode::InsufficientFunds.message(), "Insufficient funds for withdrawal.");
    assert_eq!(ErrorCode::Unauthorized.message(), "Unauthorized access.");
    assert_eq!(ErrorCode::InvalidAmount.message(), "The deposited amount is not the correct value.");
}
