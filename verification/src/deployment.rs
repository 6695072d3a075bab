use vstd::prelude::*;
use crate::address::{Address, dup_bytes, handle_of, sentinel_bytes};
use crate::errors::EditionsError;
use crate::tags::deployment_tag;

verus! {

/// The canonical description of an edition family: who created it, how
/// many tokens it may ever issue, and how many it has issued so far.
pub struct EditionsDeployment {
    /// The family's unique key component; at most 32 bytes, so that it can
    /// serve as a derivation seed.
    pub symbol: Vec<u8>,
    /// The creator's identity. Only the creator may relinquish authority.
    pub creator: Address,
    /// The maximum number of tokens this deployment may ever issue.
    pub max_number_of_tokens: u64,
    /// How many tokens have been issued so far. Never exceeds the maximum.
    pub number_of_tokens_issued: u64,
    /// The token group every issued edition belongs to.
    pub group_mint: Address,
    /// Cosigning policy: the sentinel here means any signer may request a
    /// mint; any other identity restricts minting to the creator's cosign.
    pub cosigner_program_id: Address,
}

impl EditionsDeployment {
    /// The record's invariant: the issued counter never exceeds the
    /// maximum, the symbol fits in one derivation seed, and the stored
    /// identities are well-formed addresses.
    pub open spec fn wf(&self) -> bool {
        &&& self.number_of_tokens_issued <= self.max_number_of_tokens
        &&& self.symbol@.len() <= 32
        &&& self.creator.wf()
        &&& self.group_mint.wf()
        &&& self.cosigner_program_id.wf()
    }

    /// Whether every token of the family has been issued.
    pub open spec fn mint_complete(&self) -> bool {
        self.number_of_tokens_issued == self.max_number_of_tokens
    }

    /// Whether the deployment demands the creator's cosign on every mint.
    pub open spec fn require_creator_cosign(&self) -> bool {
        self.cosigner_program_id@ != sentinel_bytes()
    }

    /// The deployment record's own derived address under the editions
    /// program: its authority handle over its tokens' mutable metadata.
    pub open spec fn spec_handle(&self, editions_program: Seq<u8>) -> Seq<u8> {
        handle_of(editions_program, deployment_tag(), seq![self.symbol@])
    }
}

/// Create a deployment record for a new edition family.
///
/// The substrate stores each deployment at the address derived from its
/// symbol, so a record already standing at that address means the symbol
/// is taken: the caller reports that as `already_exists`, and creation
/// fails with `DuplicateSymbol`. Otherwise the record starts with nothing
/// issued.
pub fn create(
    creator: &Address,
    symbol: &Vec<u8>,
    max_number_of_tokens: u64,
    group_mint: &Address,
    cosigner_program_id: &Address,
    already_exists: bool,
) -> (r: Result<EditionsDeployment, EditionsError>)
    requires
        creator.wf(),
        group_mint.wf(),
        cosigner_program_id.wf(),
        symbol@.len() <= 32,
    ensures
        already_exists ==> r == Err::<EditionsDeployment, EditionsError>(
            EditionsError::DuplicateSymbol,
        ),
        !already_exists ==> (r matches Ok(d) && d.symbol@ == symbol@ && d.creator@ == creator@
            && d.max_number_of_tokens == max_number_of_tokens && d.number_of_tokens_issued == 0
            && d.group_mint@ == group_mint@ && d.cosigner_program_id@ == cosigner_program_id@
            && d.wf()),
{
    if already_exists {
        return Err(EditionsError::DuplicateSymbol);
    }
    Ok(
        EditionsDeployment {
            symbol: dup_bytes(symbol),
            creator: creator.dup(),
            max_number_of_tokens,
            number_of_tokens_issued: 0,
            group_mint: group_mint.dup(),
            cosigner_program_id: cosigner_program_id.dup(),
        },
    )
}

} // verus!
