use vstd::prelude::*;
use crate::address::{Address, addr_eq, sentinel_bytes};
use crate::deployment::EditionsDeployment;
use crate::errors::EditionsError;
use crate::tags::deployment_tag_bytes;

verus! {

/// What the authority lifecycle reads of a token's metadata: whether the
/// metadata record is attached at all, and who currently holds its update
/// authority. The sentinel identity there means nobody does.
pub struct MintMetadata {
    pub present: bool,
    pub update_authority: Address,
}

impl MintMetadata {
    pub open spec fn wf(&self) -> bool {
        self.update_authority.wf()
    }
}

/// The state one relinquishment touches: the deployment record, the
/// caller's identity, and the mint's metadata.
pub struct UpdateMintAuthorityCtx {
    pub editions_deployment: EditionsDeployment,
    pub payer: Address,
    pub mint: MintMetadata,
}

impl UpdateMintAuthorityCtx {
    pub open spec fn wf(&self) -> bool {
        &&& self.editions_deployment.wf()
        &&& self.payer.wf()
        &&& self.mint.wf()
    }
}

/// What authority relinquishment decides, in order: issuance must be
/// complete, the caller must be the creator, the metadata must be
/// attached, and its update authority must still be the deployment's own
/// derived handle — a prior unsanctioned change makes relinquishment
/// impossible forever.
pub open spec fn relinquish_result(ctx: UpdateMintAuthorityCtx, editions_program: Seq<u8>) -> Result<
    (),
    EditionsError,
> {
    let deployment = ctx.editions_deployment;
    if !deployment.mint_complete() {
        Err(EditionsError::MintNotComplete)
    } else if ctx.payer@ != deployment.creator@ {
        Err(EditionsError::InvalidCreator)
    } else if !ctx.mint.present {
        Err(EditionsError::MetadataNotFound)
    } else if ctx.mint.update_authority@ != deployment.spec_handle(editions_program) {
        Err(EditionsError::UpdateAuthorityAlreadyChanged)
    } else {
        Ok(())
    }
}

/// Relinquish the deployment's authority over its token's mutable
/// metadata: a one-way transition, available only to the creator and only
/// once issuance is complete. On success the metadata's update authority
/// becomes the terminal sentinel, which corresponds to no controllable
/// identity; nothing can undo it. On any failure nothing changes.
pub fn update_mint_authority(ctx: &mut UpdateMintAuthorityCtx, editions_program: &Address) -> (r:
    Result<(), EditionsError>)
    requires
        old(ctx).wf(),
        editions_program.wf(),
    ensures
        final(ctx).wf(),
        r == relinquish_result(*old(ctx), editions_program@),
        r is Err ==> *final(ctx) == *old(ctx),
        r is Ok ==> final(ctx).mint.update_authority@ == sentinel_bytes(),
        r is Ok ==> final(ctx).mint.present == old(ctx).mint.present,
        r is Ok ==> final(ctx).editions_deployment == old(ctx).editions_deployment,
        r is Ok ==> final(ctx).payer@ == old(ctx).payer@,
{
    if ctx.editions_deployment.number_of_tokens_issued
        != ctx.editions_deployment.max_number_of_tokens {
        return Err(EditionsError::MintNotComplete);
    }
    if !addr_eq(&ctx.payer, &ctx.editions_deployment.creator) {
        return Err(EditionsError::InvalidCreator);
    }
    if !ctx.mint.present {
        return Err(EditionsError::MetadataNotFound);
    }
    let mut dep_seeds: Vec<Vec<u8>> = Vec::new();
    dep_seeds.push(crate::address::dup_bytes(&ctx.editions_deployment.symbol));
    let expected = match crate::address::derive(
        editions_program,
        &deployment_tag_bytes(),
        &dep_seeds,
    ) {
        Ok(a) => a,
        Err(_) => {
            proof {
                assert(crate::address::seeds_view(dep_seeds@) =~= seq![
                    ctx.editions_deployment.symbol@,
                ]);
            }
            return vstd::pervasive::unreached();
        },
    };
    proof {
        assert(crate::address::seeds_view(dep_seeds@) =~= seq![ctx.editions_deployment.symbol@]);
    }
    if !addr_eq(&ctx.mint.update_authority, &expected) {
        return Err(EditionsError::UpdateAuthorityAlreadyChanged);
    }
    ctx.mint.update_authority = Address::sentinel();
    Ok(())
}

/// Law: relinquishment is idempotent-safe, never silently repeatable.
/// Once the metadata's update authority is the terminal sentinel, a
/// further call fails rather than relinquishing twice — with
/// `UpdateAuthorityAlreadyChanged` when its other preconditions hold.
/// This holds whenever the deployment's derived handle is itself not the
/// sentinel, which the derivation's collision resistance makes certain in
/// practice.
pub proof fn lemma_relinquish_terminal(ctx: UpdateMintAuthorityCtx, editions_program: Seq<u8>)
    requires
        ctx.mint.update_authority@ == sentinel_bytes(),
        ctx.editions_deployment.spec_handle(editions_program) != sentinel_bytes(),
    ensures
        relinquish_result(ctx, editions_program) is Err,
        ctx.editions_deployment.mint_complete() && ctx.payer@ == ctx.editions_deployment.creator@
            && ctx.mint.present ==> relinquish_result(ctx, editions_program) == Err::<
            (),
            EditionsError,
        >(EditionsError::UpdateAuthorityAlreadyChanged),
{
}

} // verus!
