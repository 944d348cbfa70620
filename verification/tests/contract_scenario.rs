use traffic_harness::subcurrency::run_contract_scenario;
use traffic_harness::subcurrency::Ledger;

#[test]
fn nine_wallets_send_three_back() {
    // Mint 100 to each of the 9 non-minter wallets; each sends 3 back. The
    // minter ends with 9 * 3 = 27 and every other wallet with 100 - 3 = 97.
    let ledger = run_contract_scenario(10, 100, 3);
    assert_eq!(ledger.num_wallets(), 10);
    assert_eq!(ledger.balance(0), 27);
    for i in 1..10 {
        assert_eq!(ledger.balance(i), 97);
    }
}

#[test]
fn single_wallet_scenario_is_trivial() {
    let ledger = run_contract_scenario(1, 100, 3);
    assert_eq!(ledger.num_wallets(), 1);
    assert_eq!(ledger.balance(0), 0);
}

#[test]
fn mint_adds_to_one_wallet() {
    let mut ledger = Ledger::new(3);
    assert!(ledger.mint(2, 41));
    assert_eq!(ledger.balance(0), 0);
    assert_eq!(ledger.balance(1), 0);
    assert_eq!(ledger.balance(2), 41);
}

#[test]
fn mint_to_missing_wallet_fails() {
    let mut ledger = Ledger::new(3);
    assert!(!ledger.mint(3, 1));
    for i in 0..3 {
        assert_eq!(ledger.balance(i), 0);
    }
}

#[test]
fn mint_overflow_fails_and_changes_nothing() {
    let mut ledger = Ledger::new(1);
    assert!(ledger.mint(0, u64::MAX));
    assert!(!ledger.mint(0, 1));
    assert_eq!(ledger.balance(0), u64::MAX);
}

#[test]
fn send_moves_balance() {
    let mut ledger = Ledger::new(2);
    assert!(ledger.mint(0, 10));
    assert!(ledger.send(0, 1, 4));
    assert_eq!(ledger.balance(0), 6);
    assert_eq!(ledger.balance(1), 4);
}

#[test]
fn send_with_insufficient_balance_fails() {
    let mut ledger = Ledger::new(2);
    assert!(ledger.mint(0, 3));
    assert!(!ledger.send(0, 1, 4));
    assert_eq!(ledger.balance(0), 3);
    assert_eq!(ledger.balance(1), 0);
}

#[test]
fn send_to_self_changes_nothing() {
    let mut ledger = Ledger::new(2);
    assert!(ledger.mint(1, 5));
    assert!(ledger.send(1, 1, 5));
    assert_eq!(ledger.balance(1), 5);
}

#[test]
fn send_overflowing_receiver_fails() {
    let mut ledger = Ledger::new(2);
    assert!(ledger.mint(0, u64::MAX));
    assert!(ledger.mint(1, 2));
    assert!(!ledger.send(1, 0, 1));
    assert_eq!(ledger.balance(0), u64::MAX);
    assert_eq!(ledger.balance(1), 2);
}
