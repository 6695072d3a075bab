use vstd::prelude::*;
use crate::address::{Address, addr_eq, dup_bytes, handle_of};
use crate::errors::EditionsError;
use crate::tags::{metadata_signer_tag, metadata_signer_tag_bytes, migrator_id_bytes};

verus! {

/// What a caller supplies when creating a metadata record.
pub struct CreateMetadataInput {
    pub name: Vec<u8>,
    pub symbol: Vec<u8>,
    pub description: Vec<u8>,
    pub update_authority: Address,
}

/// A descriptive metadata record attached to a token.
pub struct Metadata {
    pub mint: Address,
    pub is_mutable: bool,
    pub name: Vec<u8>,
    pub symbol: Vec<u8>,
    pub description: Vec<u8>,
    pub creator: Address,
    pub update_authority: Address,
}

/// The identities one metadata creation involves: the caller, the token,
/// the authority the record will name as creator, and — when a migration
/// program acts on the caller's behalf — that program's identity.
pub struct CreateMetadata {
    pub signer: Address,
    pub payer: Address,
    pub mint: Address,
    pub authority: Address,
    pub invoked_migrator_program: Option<Address>,
}

impl CreateMetadata {
    pub open spec fn wf(&self) -> bool {
        &&& self.signer.wf()
        &&& self.payer.wf()
        &&& self.mint.wf()
        &&& self.authority.wf()
        &&& match self.invoked_migrator_program {
            Some(p) => p.wf(),
            None => true,
        }
    }
}

/// What the delegated-signer check decides. Without a migration program
/// the authority signs for itself and passes. With one, the program must
/// be the single whitelisted migrator, and the claimed signer must be the
/// handle that program derives from the token's identity under the
/// metadata-signer namespace tag.
pub open spec fn valid_signer_result(
    signer: Seq<u8>,
    mint: Seq<u8>,
    invoked_migrator_program: Option<Address>,
) -> Result<(), EditionsError> {
    match invoked_migrator_program {
        Some(p) => {
            if p@ != migrator_id_bytes() {
                Err(EditionsError::InvalidSignedProgram)
            } else if signer != handle_of(p@, metadata_signer_tag(), seq![mint]) {
                Err(EditionsError::Unauthorized)
            } else {
                Ok(())
            }
        },
        None => Ok(()),
    }
}

/// Check that the claimed signing authority is valid for this token:
/// either it signs for itself, or it is the handle the whitelisted
/// migration program derives for the token.
pub fn assert_is_valid_signer(
    signer: &Address,
    mint: &Address,
    invoked_migrator_program: &Option<Address>,
) -> (r: Result<(), EditionsError>)
    requires
        mint.wf(),
        match invoked_migrator_program {
            Some(p) => p.wf(),
            None => true,
        },
    ensures
        r == valid_signer_result(signer@, mint@, *invoked_migrator_program),
{
    match invoked_migrator_program {
        Some(program) => {
            let migrator = crate::tags::migrator_id();
            if !addr_eq(program, &migrator) {
                return Err(EditionsError::InvalidSignedProgram);
            }
            let mut seeds: Vec<Vec<u8>> = Vec::new();
            seeds.push(dup_bytes(&mint.bytes));
            proof {
                assert(crate::address::seeds_view(seeds@) =~= seq![mint@]);
            }
            if !crate::address::verify(signer, program, &metadata_signer_tag_bytes(), &seeds) {
                return Err(EditionsError::Unauthorized);
            }
            Ok(())
        },
        None => Ok(()),
    }
}

/// What metadata creation decides and builds: after the signer check
/// passes, a fresh mutable record naming the authority as creator and
/// carrying the supplied descriptive fields.
pub open spec fn create_metadata_ok(
    ctx: CreateMetadata,
    input: CreateMetadataInput,
    m: Metadata,
) -> bool {
    &&& m.mint@ == ctx.mint@
    &&& m.is_mutable == true
    &&& m.name@ == input.name@
    &&& m.symbol@ == input.symbol@
    &&& m.description@ == input.description@
    &&& m.creator@ == ctx.authority@
    &&& m.update_authority@ == input.update_authority@
}

/// Create a metadata record for a token. Fails exactly as the signer
/// check does; otherwise returns the fresh record.
pub fn handler(ctx: &CreateMetadata, metadata_input: CreateMetadataInput) -> (r: Result<
    Metadata,
    EditionsError,
>)
    requires
        ctx.wf(),
    ensures
        r is Err ==> r == Err::<Metadata, EditionsError>(
            valid_signer_result(
                ctx.authority@,
                ctx.mint@,
                ctx.invoked_migrator_program,
            ).get_Err_0(),
        ) && valid_signer_result(ctx.authority@, ctx.mint@, ctx.invoked_migrator_program) is Err,
        r is Ok <==> valid_signer_result(ctx.authority@, ctx.mint@, ctx.invoked_migrator_program)
            is Ok,
        r matches Ok(m) ==> create_metadata_ok(*ctx, metadata_input, m),
{
    match assert_is_valid_signer(&ctx.authority, &ctx.mint, &ctx.invoked_migrator_program) {
        Ok(_) => (),
        Err(e) => {
            return Err(e);
        },
    }
    Ok(
        Metadata {
            mint: ctx.mint.dup(),
            is_mutable: true,
            name: metadata_input.name,
            symbol: metadata_input.symbol,
            description: metadata_input.description,
            creator: ctx.authority.dup(),
            update_authority: metadata_input.update_authority,
        },
    )
}

} // verus!
