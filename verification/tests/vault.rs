use guarded_vault::contract::{Vault, VaultError};
use guarded_vault::reentrancy::ReentrancyGuardError;

#[test]
fn deposit_and_get_balance() {
    let mut v = Vault::new();
    assert_eq!(v.get_balance(1), 0);
    assert_eq!(v.deposit(1, 100), Ok(()));
    assert_eq!(v.get_balance(1), 100);
    assert_eq!(v.get_balance(2), 0);
    assert_eq!(v.deposit(1, 25), Ok(()));
    assert_eq!(v.get_balance(1), 125);
}

#[test]
fn init_keeps_balances() {
    let mut v = Vault::new();
    v.deposit(3, 50).unwrap();
    v.init();
    assert_eq!(v.get_balance(3), 50);
}

#[test]
fn withdraw_success_debits_once() {
    let mut v = Vault::new();
    v.deposit(1, 100).unwrap();
    let r = v.withdraw(1, 40, |mv| (mv, true));
    assert_eq!(r, Ok(()));
    assert_eq!(v.get_balance(1), 60);
    // The guard was released: another withdrawal goes through.
    assert_eq!(v.withdraw(1, 60, |mv| (mv, true)), Ok(()));
    assert_eq!(v.get_balance(1), 0);
}

#[test]
fn withdraw_insufficient_balance() {
    let mut v = Vault::new();
    v.deposit(1, 40).unwrap();
    let mut transferred = false;
    let r = v.withdraw(1, 100, |mv| {
        transferred = true;
        (mv, true)
    });
    assert_eq!(r, Err(VaultError::InsufficientBalance));
    assert!(!transferred);
    assert_eq!(v.get_balance(1), 40);
    // The domain error released the guard.
    assert_eq!(v.withdraw(1, 40, |mv| (mv, true)), Ok(()));
}

#[test]
fn withdraw_transfer_failure_releases_guard() {
    let mut v = Vault::new();
    v.deposit(1, 100).unwrap();
    let r = v.withdraw(1, 100, |mv| (mv, false));
    assert_eq!(r, Err(VaultError::TransferFailed));
    // No debit took place and the guard is free again.
    assert_eq!(v.get_balance(1), 100);
    assert_eq!(v.withdraw(1, 100, |mv| (mv, true)), Ok(()));
    assert_eq!(v.get_balance(1), 0);
}

#[test]
fn withdraw_rejects_reentrant_transfer() {
    let mut v = Vault::new();
    v.deposit(1, 100).unwrap();
    let mut inner_section_ran = false;
    let mut inner_result = None;
    let r = v.withdraw(1, 100, |mv: Vault| {
        let mut m = mv;
        let rr = m.withdraw(1, 100, |x: Vault| {
            inner_section_ran = true;
            (x, true)
        });
        inner_result = Some(rr);
        (m, true)
    });
    // The nested attempt was rejected with a distinguishable error and its
    // critical section never ran; the outer withdrawal went through once.
    assert_eq!(
        inner_result,
        Some(Err(VaultError::ReentrancyGuardError(
            ReentrancyGuardError::ReentrantCall
        )))
    );
    assert!(!inner_section_ran);
    assert_eq!(r, Ok(()));
    assert_eq!(v.get_balance(1), 0);
}

#[test]
fn withdraw_pays_once_under_attack() {
    let mut v = Vault::new();
    v.deposit(1, 100).unwrap();
    let mut received: u128 = 0;
    let r = v.withdraw(1, 100, |mv: Vault| {
        received += 100;
        let mut m = mv;
        let rr = m.withdraw(1, 100, |x: Vault| {
            received += 100;
            (x, true)
        });
        assert!(rr.is_err());
        (m, true)
    });
    assert_eq!(r, Ok(()));
    // One payout for one balance: the guard closed the window.
    assert_eq!(received, 100);
    assert_eq!(v.get_balance(1), 0);
}

#[test]
fn withdraw_unsafe_pays_twice_under_attack() {
    let mut v = Vault::new();
    v.deposit(1, 100).unwrap();
    let mut received: u128 = 0;
    let r = v.withdraw_unsafe(1, 100, |mv: Vault| {
        received += 100;
        // Re-enter before the outer call has debited the balance: the
        // unprotected path happily pays out a second time.
        let mut m = mv;
        let rr = m.withdraw_unsafe(1, 100, |x: Vault| {
            received += 100;
            (x, true)
        });
        assert_eq!(rr, Ok(()));
        (m, true)
    });
    assert_eq!(r, Ok(()));
    // 100 deposited, 200 paid out: the vulnerability this library's guard
    // exists to prevent.
    assert_eq!(received, 200);
    assert_eq!(v.get_balance(1), 0);
}

#[test]
fn withdraw_unsafe_plain_paths() {
    let mut v = Vault::new();
    v.deposit(1, 80).unwrap();
    assert_eq!(
        v.withdraw_unsafe(1, 90, |mv| (mv, true)),
        Err(VaultError::InsufficientBalance)
    );
    assert_eq!(
        v.withdraw_unsafe(1, 30, |mv| (mv, false)),
        Err(VaultError::TransferFailed)
    );
    assert_eq!(v.get_balance(1), 80);
    assert_eq!(v.withdraw_unsafe(1, 30, |mv| (mv, true)), Ok(()));
    assert_eq!(v.get_balance(1), 50);
}

#[test]
fn full_balance_roundtrip_at_the_limit() {
    let mut v = Vault::new();
    assert_eq!(v.deposit(9, u128::MAX), Ok(()));
    assert_eq!(v.get_balance(9), u128::MAX);
    assert_eq!(v.withdraw(9, u128::MAX, |mv| (mv, true)), Ok(()));
    assert_eq!(v.get_balance(9), 0);
}
