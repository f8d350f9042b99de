use erc20::{Erc20Token, Error, Event, Ledger};

const A: u64 = 0;
const B: u64 = 1;
const C: u64 = 2;

fn trash(supply: u128) -> Ledger {
    let mut ledger = Ledger::new();
    assert_eq!(ledger.init(A, b"Trash".to_vec(), b"TRS".to_vec(), supply), Ok(0));
    ledger
}

/// Sums the balances that the three test accounts hold of `token`.
fn held(ledger: &Ledger, token: u32) -> u128 {
    ledger.balance_of((token, A)) + ledger.balance_of((token, B)) + ledger.balance_of((token, C))
}

#[test]
fn fresh_ledger_is_empty() {
    let ledger = Ledger::new();
    assert_eq!(ledger.token_id_counter(), 0);
    assert!(ledger.token_details(0).is_none());
    assert!(!ledger.has_balance_entry((0, A)));
    assert!(!ledger.has_allowance_entry((0, A, B)));
    assert_eq!(ledger.allowance((0, A, B)), 0);
    assert!(ledger.events().is_empty());
}

#[test]
fn init_registers_token_and_credits_caller() {
    let mut ledger = Ledger::new();
    assert_eq!(ledger.init(B, b"Trash".to_vec(), b"TRS".to_vec(), 10), Ok(0));
    assert_eq!(ledger.token_id_counter(), 1);
    let details = ledger.token_details(0).unwrap();
    assert_eq!(details.name(), &b"Trash".to_vec());
    assert_eq!(details.ticker(), &b"TRS".to_vec());
    assert_eq!(*details.total_supply(), 10);
    assert_eq!(Ok(details.clone()), Erc20Token::new(b"Trash".to_vec(), b"TRS".to_vec(), 10u128));
    assert!(ledger.has_balance_entry((0, B)));
    assert!(!ledger.has_balance_entry((0, A)));
    assert_eq!(ledger.balance_of((0, B)), 10);
    assert!(ledger.token_details(1).is_none());
    assert!(ledger.events().is_empty());
}

#[test]
fn init_hands_out_dense_ids() {
    let mut ledger = Ledger::new();
    assert_eq!(ledger.init(A, b"one".to_vec(), b"O".to_vec(), 1), Ok(0));
    assert_eq!(ledger.init(B, b"two".to_vec(), b"T".to_vec(), 2), Ok(1));
    assert_eq!(ledger.init(A, b"three".to_vec(), b"H".to_vec(), 3), Ok(2));
    assert_eq!(ledger.token_id_counter(), 3);
    assert_eq!(ledger.balance_of((0, A)), 1);
    assert_eq!(ledger.balance_of((1, B)), 2);
    assert_eq!(ledger.balance_of((2, A)), 3);
    assert_eq!(ledger.balance_of((1, A)), 0);
    assert_eq!(*ledger.token_details(1).unwrap().total_supply(), 2);
}

#[test]
fn init_accepts_longest_name_and_ticker() {
    let mut ledger = Ledger::new();
    assert_eq!(ledger.init(A, vec![b'n'; 64], vec![b't'; 32], 5), Ok(0));
    assert_eq!(ledger.token_details(0).unwrap().name().len(), 64);
    assert_eq!(ledger.token_details(0).unwrap().ticker().len(), 32);
}

#[test]
fn init_accepts_empty_name_and_zero_supply() {
    let mut ledger = Ledger::new();
    assert_eq!(ledger.init(A, Vec::new(), Vec::new(), 0), Ok(0));
    assert!(ledger.has_balance_entry((0, A)));
    assert_eq!(ledger.balance_of((0, A)), 0);
    assert_eq!(ledger.transfer(A, 0, B, 0), Ok(()));
    assert_eq!(ledger.transfer(A, 0, B, 1), Err(Error::InsufficientBalance));
}

#[test]
fn init_rejects_long_name() {
    let mut ledger = Ledger::new();
    assert_eq!(ledger.init(A, vec![b'n'; 65], b"TRS".to_vec(), 10), Err(Error::InvalidInput));
    assert_eq!(ledger.token_id_counter(), 0);
    assert!(ledger.token_details(0).is_none());
    assert!(!ledger.has_balance_entry((0, A)));
}

#[test]
fn init_rejects_long_ticker() {
    let mut ledger = Ledger::new();
    assert_eq!(ledger.init(A, b"Trash".to_vec(), vec![b't'; 33], 10), Err(Error::InvalidInput));
    assert_eq!(ledger.token_id_counter(), 0);
    assert!(!ledger.has_balance_entry((0, A)));
    assert_eq!(ledger.init(A, b"Trash".to_vec(), b"TRS".to_vec(), 10), Ok(0));
}

#[test]
fn transfer_emits_event() {
    let mut ledger = trash(10);
    assert_eq!(ledger.transfer(A, 0, B, 4), Ok(()));
    assert_eq!(ledger.events(), &vec![Event::Transfer(0, A, B, 4)]);
    assert_eq!(ledger.transfer(A, 0, B, 0), Ok(()));
    assert_eq!(
        ledger.take_events(),
        vec![Event::Transfer(0, A, B, 4), Event::Transfer(0, A, B, 0)]
    );
    assert!(ledger.events().is_empty());
    assert_eq!(ledger.balance_of((0, A)), 6);
    assert_eq!(ledger.balance_of((0, B)), 4);
}

#[test]
fn transfer_creates_entry_for_receiver() {
    let mut ledger = trash(10);
    assert!(!ledger.has_balance_entry((0, B)));
    assert_eq!(ledger.transfer(A, 0, B, 0), Ok(()));
    assert!(ledger.has_balance_entry((0, B)));
    assert_eq!(ledger.balance_of((0, B)), 0);
    assert_eq!(ledger.transfer(B, 0, C, 0), Ok(()));
    assert_eq!(ledger.transfer(B, 0, C, 1), Err(Error::InsufficientBalance));
}

#[test]
fn transfer_errors_are_told_apart() {
    let mut ledger = trash(10);
    assert_eq!(ledger.transfer(B, 0, A, 1), Err(Error::NoSuchAccount));
    assert_eq!(ledger.transfer(B, 0, A, 0), Err(Error::NoSuchAccount));
    assert_eq!(ledger.transfer(A, 1, B, 1), Err(Error::NoSuchAccount));
    assert_eq!(ledger.transfer(A, 0, B, 11), Err(Error::InsufficientBalance));
    assert_eq!(ledger.balance_of((0, A)), 10);
    assert_eq!(ledger.balance_of((0, B)), 0);
    assert!(!ledger.has_balance_entry((0, B)));
    assert!(ledger.events().is_empty());
}

#[test]
fn conservation_over_a_run() {
    let mut ledger = trash(10);
    assert_eq!(ledger.init(B, b"Other".to_vec(), b"OTH".to_vec(), 7), Ok(1));
    assert_eq!(held(&ledger, 0), 10);
    assert_eq!(held(&ledger, 1), 7);
    assert_eq!(ledger.transfer(A, 0, B, 4), Ok(()));
    assert_eq!(ledger.transfer(B, 0, C, 3), Ok(()));
    assert_eq!(ledger.transfer(B, 1, C, 7), Ok(()));
    assert_eq!(ledger.transfer(C, 0, C, 2), Ok(()));
    assert_eq!(ledger.transfer(C, 0, A, 9), Err(Error::InsufficientBalance));
    assert_eq!(ledger.approve(A, 0, C, 6), Ok(()));
    assert_eq!(ledger.transfer_from(B, 0, A, C, 5), Ok(()));
    assert_eq!(ledger.balance_of((0, A)), 1);
    assert_eq!(ledger.balance_of((0, B)), 1);
    assert_eq!(ledger.balance_of((0, C)), 8);
    assert_eq!(ledger.balance_of((1, C)), 7);
    assert_eq!(held(&ledger, 0), 10);
    assert_eq!(held(&ledger, 1), 7);
    assert_eq!(*ledger.token_details(0).unwrap().total_supply(), 10);
    assert_eq!(*ledger.token_details(1).unwrap().total_supply(), 7);
}

#[test]
fn whole_supply_moves_and_then_nothing_is_left() {
    let mut ledger = trash(u128::MAX);
    assert_eq!(ledger.transfer(A, 0, B, u128::MAX), Ok(()));
    assert_eq!(ledger.balance_of((0, A)), 0);
    assert_eq!(ledger.balance_of((0, B)), u128::MAX);
    assert_eq!(ledger.transfer(A, 0, B, 1), Err(Error::InsufficientBalance));
    assert_eq!(ledger.transfer(A, 0, C, u128::MAX), Err(Error::InsufficientBalance));
    assert_eq!(ledger.balance_of((0, A)), 0);
    assert_eq!(ledger.balance_of((0, B)), u128::MAX);
}

#[test]
fn third_transfer_of_half_fails() {
    let mut ledger = trash(10);
    assert_eq!(ledger.transfer(A, 0, B, 5), Ok(()));
    assert_eq!(ledger.transfer(A, 0, B, 5), Ok(()));
    assert_eq!(ledger.balance_of((0, A)), 0);
    assert_eq!(ledger.transfer(A, 0, B, 5), Err(Error::InsufficientBalance));
    assert_eq!(ledger.balance_of((0, A)), 0);
    assert_eq!(ledger.balance_of((0, B)), 10);
}

#[test]
fn self_transfer_changes_nothing() {
    let mut ledger = trash(10);
    for value in 0..=10u128 {
        assert_eq!(ledger.transfer(A, 0, A, value), Ok(()));
        assert_eq!(ledger.balance_of((0, A)), 10);
    }
    assert_eq!(ledger.transfer(A, 0, A, 11), Err(Error::InsufficientBalance));
    assert_eq!(ledger.balance_of((0, A)), 10);
    assert_eq!(ledger.transfer(B, 0, B, 0), Err(Error::NoSuchAccount));
    assert_eq!(ledger.events().len(), 11);
    assert_eq!(ledger.events()[3], Event::Transfer(0, A, A, 3));
}

#[test]
fn self_transfer_that_cannot_be_added_is_refused() {
    let mut ledger = trash(u128::MAX);
    assert_eq!(ledger.transfer(A, 0, A, 1), Err(Error::Overflow));
    assert_eq!(ledger.transfer(A, 0, A, 0), Ok(()));
    assert_eq!(ledger.balance_of((0, A)), u128::MAX);
}

#[test]
fn approve_needs_a_balance_entry() {
    let mut ledger = trash(10);
    assert_eq!(ledger.approve(B, 0, A, 1), Err(Error::NoSuchAccount));
    assert_eq!(ledger.approve(A, 1, B, 1), Err(Error::NoSuchAccount));
    assert!(!ledger.has_allowance_entry((0, B, A)));
    assert!(ledger.events().is_empty());
}

#[test]
fn approvals_add_up() {
    let mut ledger = trash(10);
    assert_eq!(ledger.approve(A, 0, B, 3), Ok(()));
    assert_eq!(ledger.allowance((0, A, B)), 3);
    assert_eq!(ledger.approve(A, 0, B, 4), Ok(()));
    assert_eq!(ledger.allowance((0, A, B)), 7);
    assert_eq!(ledger.allowance((0, B, A)), 0);
    assert_eq!(ledger.allowance((0, A, C)), 0);
    assert_eq!(
        ledger.events(),
        &vec![Event::Approval(0, A, B, 3), Event::Approval(0, A, B, 4)]
    );
    assert_eq!(ledger.balance_of((0, A)), 10);
}

#[test]
fn approval_may_exceed_balance() {
    let mut ledger = trash(10);
    assert_eq!(ledger.approve(A, 0, B, 1000), Ok(()));
    assert_eq!(ledger.allowance((0, A, B)), 1000);
    assert_eq!(ledger.transfer_from(B, 0, A, B, 11), Err(Error::InsufficientBalance));
    assert_eq!(ledger.allowance((0, A, B)), 1000);
    assert_eq!(ledger.balance_of((0, A)), 10);
}

#[test]
fn approve_overflow_is_refused() {
    let mut ledger = trash(10);
    assert_eq!(ledger.approve(A, 0, B, u128::MAX), Ok(()));
    assert_eq!(ledger.approve(A, 0, B, 1), Err(Error::Overflow));
    assert_eq!(ledger.allowance((0, A, B)), u128::MAX);
    assert_eq!(ledger.approve(A, 0, B, 0), Ok(()));
    assert_eq!(ledger.events().len(), 2);
}

#[test]
fn transfer_from_spends_allowance() {
    let mut ledger = trash(10);
    assert_eq!(ledger.approve(A, 0, B, 6), Ok(()));
    ledger.take_events();
    assert_eq!(ledger.transfer_from(B, 0, A, B, 4), Ok(()));
    assert_eq!(ledger.allowance((0, A, B)), 2);
    assert_eq!(ledger.balance_of((0, A)), 6);
    assert_eq!(ledger.balance_of((0, B)), 4);
    assert_eq!(
        ledger.events(),
        &vec![Event::Approval(0, A, B, 4), Event::Transfer(0, A, B, 4)]
    );
    assert_eq!(ledger.transfer_from(B, 0, A, B, 3), Err(Error::InsufficientAllowance));
    assert_eq!(ledger.allowance((0, A, B)), 2);
    assert_eq!(ledger.transfer_from(B, 0, A, B, 2), Ok(()));
    assert_eq!(ledger.allowance((0, A, B)), 0);
    assert!(ledger.has_allowance_entry((0, A, B)));
    assert_eq!(ledger.transfer_from(B, 0, A, B, 0), Ok(()));
    assert_eq!(ledger.transfer_from(B, 0, A, B, 1), Err(Error::InsufficientAllowance));
    assert_eq!(ledger.balance_of((0, A)), 4);
    assert_eq!(ledger.balance_of((0, B)), 6);
}

#[test]
fn transfer_from_is_keyed_by_destination() {
    let mut ledger = trash(10);
    assert_eq!(ledger.approve(A, 0, B, 5), Ok(()));
    // the allowance that A gave to B does not let B send to C
    assert_eq!(ledger.transfer_from(B, 0, A, C, 1), Err(Error::NoSuchAccount));
    // but anyone may carry out the move to B
    assert_eq!(ledger.transfer_from(C, 0, A, B, 1), Ok(()));
    assert_eq!(ledger.allowance((0, A, B)), 4);
    assert_eq!(ledger.balance_of((0, B)), 1);
    assert_eq!(ledger.balance_of((0, C)), 0);
}

#[test]
fn transfer_from_without_allowance_entry() {
    let mut ledger = trash(10);
    assert_eq!(ledger.transfer_from(B, 0, A, B, 0), Err(Error::NoSuchAccount));
    assert_eq!(ledger.transfer_from(B, 0, A, B, 1), Err(Error::NoSuchAccount));
    assert_eq!(ledger.balance_of((0, A)), 10);
    assert!(ledger.events().is_empty());
}

#[test]
fn failed_transfer_from_keeps_allowance() {
    let mut ledger = trash(10);
    assert_eq!(ledger.approve(A, 0, B, 8), Ok(()));
    assert_eq!(ledger.transfer(A, 0, C, 7), Ok(()));
    ledger.take_events();
    assert_eq!(ledger.transfer_from(B, 0, A, B, 5), Err(Error::InsufficientBalance));
    assert_eq!(ledger.allowance((0, A, B)), 8);
    assert_eq!(ledger.balance_of((0, A)), 3);
    assert_eq!(ledger.balance_of((0, B)), 0);
    assert!(ledger.events().is_empty());
}

#[test]
fn unknown_token_is_rejected() {
    let mut ledger = trash(10);
    assert_eq!(ledger.transfer(A, 1, B, 0), Err(Error::NoSuchAccount));
    assert_eq!(ledger.approve(A, 1, B, 0), Err(Error::NoSuchAccount));
    assert_eq!(ledger.transfer_from(A, 1, A, B, 0), Err(Error::NoSuchAccount));
    assert_eq!(ledger.transfer(A, u32::MAX, B, 1), Err(Error::NoSuchAccount));
    assert_eq!(ledger.token_id_counter(), 1);
    assert!(!ledger.has_balance_entry((1, A)));
    assert!(!ledger.has_allowance_entry((1, A, B)));
    assert!(ledger.events().is_empty());
}

#[test]
fn take_events_keeps_the_stores() {
    let mut ledger = trash(10);
    assert_eq!(ledger.approve(A, 0, B, 2), Ok(()));
    assert_eq!(ledger.take_events(), vec![Event::Approval(0, A, B, 2)]);
    assert_eq!(ledger.take_events(), Vec::new());
    assert_eq!(ledger.allowance((0, A, B)), 2);
    assert_eq!(ledger.balance_of((0, A)), 10);
    assert_eq!(ledger.token_id_counter(), 1);
}

#[test]
fn token_record_checks_its_limits() {
    let token = Erc20Token::new(vec![7u8; 64], vec![9u8; 32], 5u128).unwrap();
    assert_eq!(token.name(), &vec![7u8; 64]);
    assert_eq!(token.ticker(), &vec![9u8; 32]);
    assert_eq!(*token.total_supply(), 5);
    assert_eq!(Erc20Token::new(vec![7u8; 65], vec![9u8; 32], 5u128), Err(Error::InvalidInput));
    assert_eq!(Erc20Token::new(vec![7u8; 64], vec![9u8; 33], 5u128), Err(Error::InvalidInput));
    assert_eq!(Erc20Token::new(vec![7u8; 65], vec![9u8; 33], 5u128), Err(Error::InvalidInput));
}

#[test]
fn token_record_clones_and_defaults() {
    let token = Erc20Token::new(b"Trash".to_vec(), b"TRS".to_vec(), 10u128).unwrap();
    let copy = token.clone();
    assert_eq!(copy, token);
    assert_eq!(copy.name(), &b"Trash".to_vec());
    assert_eq!(copy.ticker(), &b"TRS".to_vec());
    assert_eq!(*copy.total_supply(), 10);
    let empty: Erc20Token<u128> = Erc20Token::default();
    assert!(empty.name().is_empty());
    assert!(empty.ticker().is_empty());
    assert_eq!(*empty.total_supply(), 0);
}
