use editions_core::address::Address;
use editions_core::errors::EditionsError;
use editions_core::metadata::{CreateMetadata, CreateMetadataInput};

fn addr(b: u8) -> Address {
    Address { bytes: vec![b; 32] }
}

fn input() -> CreateMetadataInput {
    CreateMetadataInput {
        name: b"Cool Token".to_vec(),
        symbol: b"COOL".to_vec(),
        description: b"an edition".to_vec(),
        update_authority: addr(8),
    }
}

fn ctx(authority: Address, migrator: Option<Address>) -> CreateMetadata {
    CreateMetadata {
        signer: addr(1),
        payer: addr(2),
        mint: addr(3),
        authority,
        invoked_migrator_program: migrator,
    }
}

#[test]
fn a_self_signing_authority_creates_metadata() {
    let m = editions_core::metadata::handler(&ctx(addr(4), None), input()).unwrap();
    assert_eq!(m.mint, addr(3));
    assert!(m.is_mutable);
    assert_eq!(m.name, b"Cool Token".to_vec());
    assert_eq!(m.symbol, b"COOL".to_vec());
    assert_eq!(m.description, b"an edition".to_vec());
    assert_eq!(m.creator, addr(4));
    assert_eq!(m.update_authority, addr(8));
}

#[test]
fn only_the_whitelisted_migrator_may_sign_delegated() {
    let r = editions_core::metadata::handler(&ctx(addr(4), Some(addr(9))), input());
    assert!(matches!(r, Err(EditionsError::InvalidSignedProgram)));
}

#[test]
fn the_migrator_needs_the_derived_signer() {
    let migrator = editions_core::tags::migrator_id();
    let r = editions_core::metadata::handler(&ctx(addr(4), Some(migrator)), input());
    assert!(matches!(r, Err(EditionsError::Unauthorized)));
}

#[test]
fn the_migrator_with_the_derived_signer_passes() {
    let migrator = editions_core::tags::migrator_id();
    let derived = editions_core::address::derive(
        &migrator,
        &editions_core::tags::metadata_signer_tag_bytes(),
        &vec![addr(3).bytes],
    )
    .unwrap();
    let m = editions_core::metadata::handler(&ctx(derived, Some(migrator)), input()).unwrap();
    assert_eq!(m.mint, addr(3));
}

#[test]
fn the_signer_check_alone_agrees_with_creation() {
    let migrator = editions_core::tags::migrator_id();
    let mint = addr(3);
    let derived = editions_core::address::derive(
        &migrator,
        &editions_core::tags::metadata_signer_tag_bytes(),
        &vec![mint.bytes.clone()],
    )
    .unwrap();
    assert!(editions_core::metadata::assert_is_valid_signer(
        &derived,
        &mint,
        &Some(migrator.clone()),
    )
    .is_ok());
    assert!(editions_core::metadata::assert_is_valid_signer(&addr(4), &mint, &None).is_ok());
    let r = editions_core::metadata::assert_is_valid_signer(&addr(4), &mint, &Some(migrator));
    assert!(matches!(r, Err(EditionsError::Unauthorized)));
}
