use editions_core::address::Address;
use editions_core::deployment::EditionsDeployment;
use editions_core::errors::EditionsError;
use editions_core::hashlist::Hashlist;

fn addr(b: u8) -> Address {
    Address { bytes: vec![b; 32] }
}

fn deployment(max: u64) -> EditionsDeployment {
    editions_core::deployment::create(
        &addr(1),
        &b"COOL".to_vec(),
        max,
        &addr(2),
        &Address::sentinel(),
        false,
    )
    .unwrap()
}

#[test]
fn create_rejects_duplicate_symbol() {
    let r = editions_core::deployment::create(
        &addr(1),
        &b"COOL".to_vec(),
        5,
        &addr(2),
        &Address::sentinel(),
        true,
    );
    assert!(matches!(r, Err(EditionsError::DuplicateSymbol)));
}

#[test]
fn create_starts_with_nothing_issued() {
    let d = deployment(5);
    assert_eq!(d.number_of_tokens_issued, 0);
    assert_eq!(d.max_number_of_tokens, 5);
    assert_eq!(d.creator, addr(1));
    assert_eq!(d.symbol, b"COOL".to_vec());
}

#[test]
fn mint_issues_one_token_and_records_it() {
    let ep = addr(10);
    let cp = addr(11);
    let mut d = deployment(3);
    let mut ledger = Hashlist::new();
    let delegate = editions_core::mint_engine::derive_delegate(&ep, &cp, &d);
    let token = addr(77);
    assert!(editions_core::mint_engine::mint(&ep, &cp, &mut d, &mut ledger, &delegate, &token).is_ok());
    assert_eq!(d.number_of_tokens_issued, 1);
    assert!(ledger.contains(&token));
}

#[test]
fn mint_rejects_a_wrong_authority_proof() {
    let ep = addr(10);
    let cp = addr(11);
    let mut d = deployment(3);
    let mut ledger = Hashlist::new();
    let bogus = addr(66);
    let r = editions_core::mint_engine::mint(&ep, &cp, &mut d, &mut ledger, &bogus, &addr(77));
    assert!(matches!(r, Err(EditionsError::Unauthorized)));
    assert_eq!(d.number_of_tokens_issued, 0);
    assert!(!ledger.contains(&addr(77)));
}

#[test]
fn mint_rejects_a_reused_token_identity() {
    let ep = addr(10);
    let cp = addr(11);
    let mut d = deployment(3);
    let mut ledger = Hashlist::new();
    let delegate = editions_core::mint_engine::derive_delegate(&ep, &cp, &d);
    let token = addr(77);
    assert!(editions_core::mint_engine::mint(&ep, &cp, &mut d, &mut ledger, &delegate, &token).is_ok());
    let r = editions_core::mint_engine::mint(&ep, &cp, &mut d, &mut ledger, &delegate, &token);
    assert!(matches!(r, Err(EditionsError::DuplicateToken)));
    assert_eq!(d.number_of_tokens_issued, 1);
}

#[test]
fn the_attempt_past_the_maximum_fails_mint_limit_exceeded() {
    let ep = addr(10);
    let cp = addr(11);
    let mut d = deployment(2);
    let mut ledger = Hashlist::new();
    let delegate = editions_core::mint_engine::derive_delegate(&ep, &cp, &d);
    assert!(editions_core::mint_engine::mint(&ep, &cp, &mut d, &mut ledger, &delegate, &addr(71)).is_ok());
    assert!(editions_core::mint_engine::mint(&ep, &cp, &mut d, &mut ledger, &delegate, &addr(72)).is_ok());
    assert_eq!(d.number_of_tokens_issued, 2);
    let r = editions_core::mint_engine::mint(&ep, &cp, &mut d, &mut ledger, &delegate, &addr(73));
    assert!(matches!(r, Err(EditionsError::MintLimitExceeded)));
    assert_eq!(d.number_of_tokens_issued, 2);
    assert!(!ledger.contains(&addr(73)));
}
