use editions_core::address::Address;
use editions_core::errors::EditionsError;
use editions_core::lifecycle::{MintMetadata, UpdateMintAuthorityCtx};

fn addr(b: u8) -> Address {
    Address { bytes: vec![b; 32] }
}

fn deployment_handle(editions_program: &Address, symbol: &[u8]) -> Address {
    editions_core::address::derive(
        editions_program,
        &editions_core::tags::deployment_tag_bytes(),
        &vec![symbol.to_vec()],
    )
    .unwrap()
}

fn complete_ctx(editions_program: &Address) -> UpdateMintAuthorityCtx {
    let mut deployment = editions_core::deployment::create(
        &addr(1),
        &b"COOL".to_vec(),
        2,
        &addr(2),
        &Address::sentinel(),
        false,
    )
    .unwrap();
    deployment.number_of_tokens_issued = 2;
    UpdateMintAuthorityCtx {
        editions_deployment: deployment,
        payer: addr(1),
        mint: MintMetadata {
            present: true,
            update_authority: deployment_handle(editions_program, b"COOL"),
        },
    }
}

#[test]
fn relinquish_sets_the_terminal_sentinel() {
    let ep = addr(10);
    let mut ctx = complete_ctx(&ep);
    assert!(editions_core::lifecycle::update_mint_authority(&mut ctx, &ep).is_ok());
    assert_eq!(ctx.mint.update_authority, Address::sentinel());
}

#[test]
fn relinquish_needs_a_complete_mint() {
    let ep = addr(10);
    let mut ctx = complete_ctx(&ep);
    ctx.editions_deployment.number_of_tokens_issued = 1;
    let r = editions_core::lifecycle::update_mint_authority(&mut ctx, &ep);
    assert!(matches!(r, Err(EditionsError::MintNotComplete)));
    assert_ne!(ctx.mint.update_authority, Address::sentinel());
}

#[test]
fn relinquish_needs_the_creator() {
    let ep = addr(10);
    let mut ctx = complete_ctx(&ep);
    ctx.payer = addr(8);
    let r = editions_core::lifecycle::update_mint_authority(&mut ctx, &ep);
    assert!(matches!(r, Err(EditionsError::InvalidCreator)));
}

#[test]
fn relinquish_needs_attached_metadata() {
    let ep = addr(10);
    let mut ctx = complete_ctx(&ep);
    ctx.mint.present = false;
    let r = editions_core::lifecycle::update_mint_authority(&mut ctx, &ep);
    assert!(matches!(r, Err(EditionsError::MetadataNotFound)));
}

#[test]
fn relinquish_rejects_an_already_changed_authority() {
    let ep = addr(10);
    let mut ctx = complete_ctx(&ep);
    ctx.mint.update_authority = addr(9);
    let r = editions_core::lifecycle::update_mint_authority(&mut ctx, &ep);
    assert!(matches!(r, Err(EditionsError::UpdateAuthorityAlreadyChanged)));
}

#[test]
fn relinquish_scenario_is_one_way_and_blocks_minting() {
    // A deployment whose issuance is complete: relinquish succeeds, the
    // authority becomes the terminal sentinel, a further mint attempt
    // fails at the limit, and a second relinquish fails rather than
    // silently succeeding.
    let ep = addr(10);
    let cp = addr(11);
    let mut ctx = complete_ctx(&ep);
    assert!(editions_core::lifecycle::update_mint_authority(&mut ctx, &ep).is_ok());
    assert_eq!(ctx.mint.update_authority, Address::sentinel());

    let mut ledger = editions_core::hashlist::Hashlist::new();
    let delegate = editions_core::mint_engine::derive_delegate(&ep, &cp, &ctx.editions_deployment);
    let r = editions_core::mint_engine::mint(
        &ep,
        &cp,
        &mut ctx.editions_deployment,
        &mut ledger,
        &delegate,
        &addr(70),
    );
    assert!(matches!(r, Err(EditionsError::MintLimitExceeded)));

    let r = editions_core::lifecycle::update_mint_authority(&mut ctx, &ep);
    assert!(matches!(r, Err(EditionsError::UpdateAuthorityAlreadyChanged)));
    assert_eq!(ctx.mint.update_authority, Address::sentinel());
}
