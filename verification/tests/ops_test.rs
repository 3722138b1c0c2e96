use tipper::errors::{LedgerError, TipperError};
use tipper::instructions::add_tip::add_tip;
use tipper::instructions::initialize_tipper::initialize_tipper;
use tipper::instructions::withdraw::withdraw;
use tipper::ledger::Ledger;
use tipper::states::{pubkey_eq, Pubkey, State, Tipper};

fn pk(b: u8) -> Pubkey {
    Pubkey { bytes: [b; 32] }
}

#[test]
fn test_create_campaign_fields() {
    let owner = pk(1);
    let name = b"coffee".to_vec();
    let t = initialize_tipper(owner, &name, 1000, 254).unwrap();
    assert_eq!(t.authority, owner);
    assert_eq!(t.target_name_len, 6);
    assert_eq!(&t.target_name[..6], b"coffee");
    assert_eq!(t.target_name[6..], [0u8; 26]);
    assert_eq!(t.balance, 0);
    assert_eq!(t.max_balance, 1000);
    assert!(matches!(t.state, State::Open));
    assert_eq!(t.bump, 254);
}

#[test]
fn test_record_storage_sizes() {
    // authority + name buffer + length byte + balance + capacity + state + bump
    assert_eq!(Tipper::LEN, 83);
    // author + campaign reference + amount + message buffer + length + bump
    assert_eq!(tipper::states::Tip::LEN, 106);
}

#[test]
fn test_pubkey_equality_is_by_bytes() {
    let a = pk(5);
    let mut b = pk(5);
    assert!(pubkey_eq(&a, &b));
    b.bytes[31] = 6;
    assert!(!pubkey_eq(&a, &b));
}

#[test]
fn test_create_name_at_limit_and_over() {
    let owner = pk(1);
    let exact = vec![7u8; 32];
    assert!(initialize_tipper(owner, &exact, 5, 0).is_ok());
    let long = vec![7u8; 33];
    assert_eq!(
        initialize_tipper(owner, &long, 5, 0),
        Err(TipperError::TargetNameTooLong)
    );
}

#[test]
fn test_create_succeeds_once_per_name_and_owner() {
    let mut l = Ledger::new();
    let owner = pk(1);
    let other = pk(2);
    let name = b"coffee".to_vec();
    assert_eq!(l.initialize(owner, &name, 1000, 255), Ok(()));
    // identical (name, owner): the record's address is already in use
    assert_eq!(
        l.initialize(owner, &name, 9999, 255),
        Err(LedgerError::AccountAlreadyInUse)
    );
    // same name under another owner, or another name: fresh addresses
    assert_eq!(l.initialize(other, &name, 1000, 255), Ok(()));
    assert_eq!(l.initialize(owner, &b"tea".to_vec(), 1000, 255), Ok(()));
    assert_eq!(l.campaigns.len(), 3);
}

#[test]
fn test_create_long_name_rejected_by_ledger() {
    let mut l = Ledger::new();
    assert_eq!(
        l.initialize(pk(1), &vec![0u8; 33], 10, 255),
        Err(LedgerError::Program(TipperError::TargetNameTooLong))
    );
    assert_eq!(l.campaigns.len(), 0);
}

#[test]
fn test_duplicate_tip_collides_regardless_of_amount() {
    let mut l = Ledger::new();
    let owner = pk(1);
    let alice = pk(10);
    let bob = pk(11);
    let name = b"jar".to_vec();
    l.initialize(owner, &name, 1_000_000, 255).unwrap();
    let key = l.campaigns[0].record_key();
    assert_eq!(l.tip(&key, alice, 5, &b"hi".to_vec(), 250), Ok(()));
    // same contributor, same campaign, same message: address collision,
    // whatever the amount
    assert_eq!(
        l.tip(&key, alice, 7, &b"hi".to_vec(), 250),
        Err(LedgerError::AccountAlreadyInUse)
    );
    // a different message or a different contributor derives a fresh address
    assert_eq!(l.tip(&key, alice, 7, &b"yo".to_vec(), 250), Ok(()));
    assert_eq!(l.tip(&key, bob, 7, &b"hi".to_vec(), 250), Ok(()));
    assert_eq!(l.tips.len(), 3);
    assert_eq!(l.campaigns[0].balance, 19);
}

#[test]
fn test_tip_unknown_campaign_fails() {
    let mut l = Ledger::new();
    let t = initialize_tipper(pk(1), &b"ghost".to_vec(), 10, 255).unwrap();
    assert_eq!(
        l.tip(&t.record_key(), pk(2), 1, &b"x".to_vec(), 250),
        Err(LedgerError::AccountNotFound)
    );
}

#[test]
fn test_zero_amount_rejected() {
    let mut t = initialize_tipper(pk(1), &b"jar".to_vec(), 100, 255).unwrap();
    assert_eq!(
        add_tip(&mut t, pk(2), 0, &b"x".to_vec(), 250),
        Err(TipperError::InvalidAmount)
    );
    assert_eq!(t.balance, 0);
    assert!(matches!(t.state, State::Open));
}

#[test]
fn test_overflow_boundary_leaves_balance_unchanged() {
    let mut l = Ledger::new();
    let owner = pk(1);
    let name = b"deep".to_vec();
    l.initialize(owner, &name, u64::MAX, 255).unwrap();
    let key = l.campaigns[0].record_key();
    assert_eq!(l.tip(&key, pk(2), u64::MAX - 10, &b"a".to_vec(), 250), Ok(()));
    assert_eq!(l.campaigns[0].balance, u64::MAX - 10);
    // crediting 20 more would overflow the 64-bit accumulator
    assert_eq!(
        l.tip(&key, pk(3), 20, &b"b".to_vec(), 250),
        Err(LedgerError::Program(TipperError::CapacityOverflow))
    );
    assert_eq!(l.campaigns[0].balance, u64::MAX - 10);
    assert!(matches!(l.campaigns[0].state, State::Open));
    // the exact remaining headroom still fits
    assert_eq!(l.tip(&key, pk(3), 10, &b"c".to_vec(), 250), Ok(()));
    assert_eq!(l.campaigns[0].balance, u64::MAX);
}

#[test]
fn test_capacity_boundary_closes_after_crossing_tip() {
    let mut t = initialize_tipper(pk(1), &b"cap".to_vec(), 100, 255).unwrap();
    add_tip(&mut t, pk(2), 90, &b"warmup".to_vec(), 250).unwrap();
    assert_eq!(t.balance, 90);
    assert!(matches!(t.state, State::Open));
    // the tip that passes the ceiling is still accepted...
    let tip = add_tip(&mut t, pk(3), 20, &b"over".to_vec(), 250).unwrap();
    assert_eq!(tip.amount, 20);
    assert_eq!(t.balance, 110);
    assert!(matches!(t.state, State::Closed));
    // ...and every later tip is refused
    assert_eq!(
        add_tip(&mut t, pk(4), 1, &b"late".to_vec(), 250),
        Err(TipperError::TipperClosed)
    );
    assert_eq!(t.balance, 110);
}

#[test]
fn test_zero_capacity_takes_one_tip_then_closes() {
    let mut t = initialize_tipper(pk(1), &b"zero".to_vec(), 0, 255).unwrap();
    assert!(matches!(t.state, State::Open));
    add_tip(&mut t, pk(2), 1, &b"first".to_vec(), 250).unwrap();
    assert_eq!(t.balance, 1);
    assert!(matches!(t.state, State::Closed));
    assert_eq!(
        add_tip(&mut t, pk(3), 1, &b"second".to_vec(), 250),
        Err(TipperError::TipperClosed)
    );
}

#[test]
fn test_tip_exactly_at_capacity_stays_open() {
    let mut t = initialize_tipper(pk(1), &b"edge".to_vec(), 100, 255).unwrap();
    add_tip(&mut t, pk(2), 100, &b"full".to_vec(), 250).unwrap();
    assert_eq!(t.balance, 100);
    assert!(matches!(t.state, State::Open));
}

#[test]
fn test_receipt_records_contribution() {
    let mut l = Ledger::new();
    let owner = pk(1);
    let alice = pk(10);
    let name = b"jar".to_vec();
    l.initialize(owner, &name, 1000, 255).unwrap();
    let key = l.campaigns[0].record_key();
    l.tip(&key, alice, 42, &b"nice jar".to_vec(), 251).unwrap();
    let tip = &l.tips[0];
    assert_eq!(tip.author, alice);
    assert_eq!(tip.amount, 42);
    assert_eq!(tip.message_len, 8);
    assert_eq!(&tip.message[..8], b"nice jar");
    assert_eq!(tip.message[8..], [0u8; 24]);
    assert_eq!(tip.bump, 251);
    assert_eq!(&tip.parent_tipper.target_name[..3], b"jar");
    assert_eq!(tip.parent_tipper.authority, owner);
}

#[test]
fn test_withdraw_only_owner_drains_and_destroys() {
    let mut l = Ledger::new();
    let owner = pk(1);
    let thief = pk(9);
    let name = b"fund".to_vec();
    l.initialize(owner, &name, 1000, 255).unwrap();
    let key = l.campaigns[0].record_key();
    l.tip(&key, pk(2), 300, &b"a".to_vec(), 250).unwrap();
    l.tip(&key, pk(3), 200, &b"b".to_vec(), 250).unwrap();
    // a non-owner is refused and the balance is untouched
    assert_eq!(
        l.withdraw_and_close(&key, thief),
        Err(LedgerError::Program(TipperError::Unauthorized))
    );
    assert_eq!(l.campaigns[0].balance, 500);
    // the owner receives exactly the balance and the record is destroyed
    assert_eq!(l.withdraw_and_close(&key, owner), Ok(500));
    assert_eq!(l.campaigns.len(), 0);
    // a second attempt finds no record
    assert_eq!(
        l.withdraw_and_close(&key, owner),
        Err(LedgerError::AccountNotFound)
    );
    // receipts outlive the campaign
    assert_eq!(l.tips.len(), 2);
}

#[test]
fn test_withdraw_closed_campaign_still_allowed() {
    let mut l = Ledger::new();
    let owner = pk(1);
    let name = b"done".to_vec();
    l.initialize(owner, &name, 10, 255).unwrap();
    let key = l.campaigns[0].record_key();
    l.tip(&key, pk(2), 25, &b"big".to_vec(), 250).unwrap();
    assert!(matches!(l.campaigns[0].state, State::Closed));
    assert_eq!(l.withdraw_and_close(&key, owner), Ok(25));
    assert_eq!(l.campaigns.len(), 0);
}

#[test]
fn test_withdraw_record_level() {
    let mut t = initialize_tipper(pk(1), &b"w".to_vec(), 100, 255).unwrap();
    add_tip(&mut t, pk(2), 60, &b"m".to_vec(), 250).unwrap();
    assert_eq!(withdraw(&mut t, pk(9)), Err(TipperError::Unauthorized));
    assert_eq!(t.balance, 60);
    assert_eq!(withdraw(&mut t, pk(1)), Ok(60));
    assert_eq!(t.balance, 0);
}

#[test]
fn test_tip_sequence_accumulates() {
    // every partial sum within capacity: the balance is the whole sum and
    // the campaign stays open
    let mut t = initialize_tipper(pk(1), &b"sum".to_vec(), 100, 255).unwrap();
    add_tip(&mut t, pk(2), 10, &b"a".to_vec(), 250).unwrap();
    add_tip(&mut t, pk(2), 20, &b"b".to_vec(), 250).unwrap();
    add_tip(&mut t, pk(2), 30, &b"c".to_vec(), 250).unwrap();
    assert_eq!(t.balance, 60);
    assert!(matches!(t.state, State::Open));

    // the last partial sum passes capacity: the balance is still the whole
    // sum, and the campaign ends closed
    let mut u = initialize_tipper(pk(1), &b"sum2".to_vec(), 100, 255).unwrap();
    add_tip(&mut u, pk(2), 50, &b"a".to_vec(), 250).unwrap();
    add_tip(&mut u, pk(2), 60, &b"b".to_vec(), 250).unwrap();
    assert_eq!(u.balance, 110);
    assert!(matches!(u.state, State::Closed));
}

#[test]
fn test_empty_name_and_empty_message() {
    let mut l = Ledger::new();
    let owner = pk(1);
    let name: Vec<u8> = Vec::new();
    assert_eq!(l.initialize(owner, &name, 50, 255), Ok(()));
    let key = l.campaigns[0].record_key();
    let empty: Vec<u8> = Vec::new();
    assert_eq!(l.tip(&key, pk(2), 5, &empty, 250), Ok(()));
    // the same contributor's second empty-message tip collides
    assert_eq!(
        l.tip(&key, pk(2), 6, &empty, 250),
        Err(LedgerError::AccountAlreadyInUse)
    );
    assert_eq!(l.campaigns[0].balance, 5);
}

#[test]
fn test_end_to_end_scenario() {
    let mut l = Ledger::new();
    let owner = pk(1);
    let a = pk(10);
    let b = pk(11);
    let c = pk(12);
    let name = b"coffee".to_vec();
    l.initialize(owner, &name, 1000, 255).unwrap();
    let key = l.campaigns[0].record_key();

    assert_eq!(l.tip(&key, a, 300, &b"nice".to_vec(), 250), Ok(()));
    assert_eq!(l.campaigns[0].balance, 300);
    assert!(matches!(l.campaigns[0].state, State::Open));

    assert_eq!(l.tip(&key, b, 800, &b"great".to_vec(), 250), Ok(()));
    assert_eq!(l.campaigns[0].balance, 1100);
    assert!(matches!(l.campaigns[0].state, State::Closed));

    assert_eq!(
        l.tip(&key, c, 1, &b"late".to_vec(), 250),
        Err(LedgerError::Program(TipperError::TipperClosed))
    );

    assert_eq!(l.withdraw_and_close(&key, owner), Ok(1100));
    assert_eq!(l.campaigns.len(), 0);
    assert_eq!(l.tips.len(), 2);
}
