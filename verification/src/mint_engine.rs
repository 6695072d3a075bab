use vstd::prelude::*;
use crate::address::{Address, addr_eq, handle_of};
use crate::deployment::EditionsDeployment;
use crate::errors::EditionsError;
use crate::hashlist::Hashlist;
use crate::tags::{controls_tag, controls_tag_bytes, deployment_tag_bytes};

verus! {

/// The delegated authority handle a deployment expects a mint request to
/// carry: the handle the controls program derives, under the controls
/// namespace tag, from the deployment record's own derived address.
pub open spec fn expected_delegate(
    editions_program: Seq<u8>,
    controls_program: Seq<u8>,
    deployment: EditionsDeployment,
) -> Seq<u8> {
    handle_of(controls_program, controls_tag(), seq![deployment.spec_handle(editions_program)])
}

/// The delegated authority handle the controls record derives for itself
/// over a deployment: the structural proof it presents with a mint
/// request.
pub fn derive_delegate(
    editions_program: &Address,
    controls_program: &Address,
    deployment: &EditionsDeployment,
) -> (r: Address)
    requires
        editions_program.wf(),
        controls_program.wf(),
        deployment.wf(),
    ensures
        r@ == expected_delegate(editions_program@, controls_program@, *deployment),
        r.wf(),
{
    let mut dep_seeds: Vec<Vec<u8>> = Vec::new();
    dep_seeds.push(crate::address::dup_bytes(&deployment.symbol));
    let deployment_address = match crate::address::derive(
        editions_program,
        &deployment_tag_bytes(),
        &dep_seeds,
    ) {
        Ok(a) => a,
        Err(_) => {
            proof {
                assert(crate::address::seeds_view(dep_seeds@) =~= seq![deployment.symbol@]);
            }
            return vstd::pervasive::unreached();
        },
    };
    proof {
        assert(crate::address::seeds_view(dep_seeds@) =~= seq![deployment.symbol@]);
    }
    let mut delegate_seeds: Vec<Vec<u8>> = Vec::new();
    delegate_seeds.push(deployment_address.bytes);
    let delegate = match crate::address::derive(
        controls_program,
        &controls_tag_bytes(),
        &delegate_seeds,
    ) {
        Ok(a) => a,
        Err(_) => {
            proof {
                assert(crate::address::seeds_view(delegate_seeds@)[0].len() == 32);
            }
            return vstd::pervasive::unreached();
        },
    };
    proof {
        assert(crate::address::seeds_view(delegate_seeds@) =~= seq![
            deployment.spec_handle(editions_program@),
        ]);
    }
    delegate
}

/// What the core mint step decides, in order: the caller's authority proof
/// must match the deployment's expected delegate derivation; the issued
/// counter must not have reached the maximum; the token identity must be
/// new to the issuance ledger.
pub open spec fn mint_result(
    editions_program: Seq<u8>,
    controls_program: Seq<u8>,
    deployment: EditionsDeployment,
    ledger: Seq<Seq<u8>>,
    signer: Seq<u8>,
    token_id: Seq<u8>,
) -> Result<(), EditionsError> {
    if signer != expected_delegate(editions_program, controls_program, deployment) {
        Err(EditionsError::Unauthorized)
    } else if deployment.mint_complete() {
        Err(EditionsError::MintLimitExceeded)
    } else if ledger.contains(token_id) {
        Err(EditionsError::DuplicateToken)
    } else {
        Ok(())
    }
}

/// Issue one new unique token under a deployment.
///
/// The caller proves delegated authority with `signer`; on success exactly
/// one ledger entry is appended for `token_id` and the issued counter
/// rises by one. On any failure nothing changes: the mint is atomic with
/// the checks that guard it. The materialization of the token itself is
/// the substrate's affair and carries no state of this model.
pub fn mint(
    editions_program: &Address,
    controls_program: &Address,
    deployment: &mut EditionsDeployment,
    hashlist: &mut Hashlist,
    signer: &Address,
    token_id: &Address,
) -> (r: Result<(), EditionsError>)
    requires
        old(deployment).wf(),
        old(hashlist).wf(),
        editions_program.wf(),
        controls_program.wf(),
    ensures
        final(deployment).wf(),
        final(hashlist).wf(),
        r == mint_result(
            editions_program@,
            controls_program@,
            *old(deployment),
            old(hashlist)@,
            signer@,
            token_id@,
        ),
        r is Err ==> *final(deployment) == *old(deployment) && *final(hashlist) == *old(hashlist),
        r is Ok ==> *final(deployment) == (EditionsDeployment {
            number_of_tokens_issued: (old(deployment).number_of_tokens_issued + 1) as u64,
            ..*old(deployment)
        }) && final(hashlist)@ == old(hashlist)@.push(token_id@) && !old(hashlist)@.contains(
            token_id@,
        ),
{
    let expected = derive_delegate(editions_program, controls_program, deployment);
    if !addr_eq(signer, &expected) {
        return Err(EditionsError::Unauthorized);
    }
    if deployment.number_of_tokens_issued == deployment.max_number_of_tokens {
        return Err(EditionsError::MintLimitExceeded);
    }
    match hashlist.insert(token_id.dup()) {
        Ok(_) => (),
        Err(e) => {
            return Err(e);
        },
    }
    deployment.number_of_tokens_issued = deployment.number_of_tokens_issued + 1;
    Ok(())
}

/// Law: the issued counter can never pass the maximum. A well-formed
/// deployment that has issued its full count rejects every authorized
/// attempt with `MintLimitExceeded`, and an accepted mint starts strictly
/// below the maximum, so one more token still respects it.
pub proof fn lemma_issue_cap(
    editions_program: Seq<u8>,
    controls_program: Seq<u8>,
    deployment: EditionsDeployment,
    ledger: Seq<Seq<u8>>,
    signer: Seq<u8>,
    token_id: Seq<u8>,
)
    requires
        deployment.wf(),
    ensures
        deployment.mint_complete() && signer == expected_delegate(
            editions_program,
            controls_program,
            deployment,
        ) ==> mint_result(
            editions_program,
            controls_program,
            deployment,
            ledger,
            signer,
            token_id,
        ) == Err::<(), EditionsError>(EditionsError::MintLimitExceeded),
        mint_result(editions_program, controls_program, deployment, ledger, signer, token_id)
            is Ok ==> deployment.number_of_tokens_issued + 1 <= deployment.max_number_of_tokens,
{
}

} // verus!
