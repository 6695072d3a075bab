use vstd::prelude::*;
use crate::address::{Address, addr_eq, handle_of};
use crate::errors::EditionsError;
use crate::inscriptions::{Inscription, write_result, write_to_inscription};
use crate::tags::{legacy_tag, legacy_tag_bytes};

verus! {

/// What the holder check reads of a token account: which token it holds,
/// who owns it, and how many units it holds.
pub struct HolderTokenAccount {
    pub mint: Address,
    pub owner: Address,
    pub amount: u64,
}

impl HolderTokenAccount {
    pub open spec fn wf(&self) -> bool {
        &&& self.mint.wf()
        &&& self.owner.wf()
    }
}

/// What a holder supplies with a write: the bytes and where they start.
pub struct WriteToLegacyInscriptionInput {
    pub data: Vec<u8>,
    pub start_pos: u32,
}

/// The state one holder-write touches: the holder's identity and token
/// account, the token's identity, and the content record written into.
pub struct WriteToLegacyInscriptionAsHolder {
    pub owner: Address,
    pub mint: Address,
    pub token_account: HolderTokenAccount,
    pub inscription: Inscription,
}

impl WriteToLegacyInscriptionAsHolder {
    pub open spec fn wf(&self) -> bool {
        &&& self.owner.wf()
        &&& self.mint.wf()
        &&& self.token_account.wf()
        &&& self.inscription.wf()
    }
}

/// The authority handle the legacy program derives for a token's content
/// record: derived from the token's identity under the legacy namespace
/// tag. A content record that stores this handle as its authority is
/// thereby writable by whoever the substrate shows holding the token.
pub open spec fn legacy_handle(legacy_program: Seq<u8>, mint: Seq<u8>) -> Seq<u8> {
    handle_of(legacy_program, legacy_tag(), seq![mint])
}

/// Whether the supplied token account proves that `owner` holds `mint`.
pub open spec fn holder_ok(ctx: WriteToLegacyInscriptionAsHolder) -> bool {
    &&& ctx.token_account.mint@ == ctx.mint@
    &&& ctx.token_account.owner@ == ctx.owner@
    &&& ctx.token_account.amount >= 1
}

/// What a holder-write decides: the holder must prove possession of the
/// token, and the write itself must pass the content record's own
/// authority and range checks under the legacy-derived handle.
pub open spec fn legacy_write_result(
    ctx: WriteToLegacyInscriptionAsHolder,
    input_data: Seq<u8>,
    start_pos: u32,
    legacy_program: Seq<u8>,
) -> Result<(), EditionsError> {
    if !holder_ok(ctx) {
        Err(EditionsError::Unauthorized)
    } else {
        write_result(
            ctx.inscription,
            legacy_handle(legacy_program, ctx.mint@),
            start_pos,
            input_data,
        )
    }
}

/// Write into a token's content record as the token's holder. The caller
/// proves possession through the token account; the delegated authority
/// over the record is then derived from the token's identity, never from
/// a stored delegation. On any failure the record is unchanged.
pub fn handler(
    ctx: &mut WriteToLegacyInscriptionAsHolder,
    input: &WriteToLegacyInscriptionInput,
    legacy_program: &Address,
) -> (r: Result<(), EditionsError>)
    requires
        old(ctx).wf(),
        legacy_program.wf(),
    ensures
        final(ctx).wf(),
        r == legacy_write_result(*old(ctx), input.data@, input.start_pos, legacy_program@),
        r is Err ==> *final(ctx) == *old(ctx),
        r is Ok ==> final(ctx).inscription.data@ == old(ctx).inscription.data@.subrange(
            0,
            input.start_pos as int,
        ) + input.data@ + old(ctx).inscription.data@.subrange(
            input.start_pos + input.data@.len(),
            old(ctx).inscription.data@.len() as int,
        ),
        r is Ok ==> final(ctx).inscription.address@ == old(ctx).inscription.address@,
        r is Ok ==> final(ctx).inscription.authority@ == old(ctx).inscription.authority@,
        r is Ok ==> final(ctx).owner@ == old(ctx).owner@ && final(ctx).mint@ == old(ctx).mint@,
{
    if !addr_eq(&ctx.token_account.mint, &ctx.mint) {
        return Err(EditionsError::Unauthorized);
    }
    if !addr_eq(&ctx.token_account.owner, &ctx.owner) {
        return Err(EditionsError::Unauthorized);
    }
    if ctx.token_account.amount < 1 {
        return Err(EditionsError::Unauthorized);
    }
    let mut seeds: Vec<Vec<u8>> = Vec::new();
    seeds.push(crate::address::dup_bytes(&ctx.mint.bytes));
    let authority = match crate::address::derive(legacy_program, &legacy_tag_bytes(), &seeds) {
        Ok(a) => a,
        Err(_) => {
            proof {
                assert(crate::address::seeds_view(seeds@)[0].len() == 32);
            }
            return vstd::pervasive::unreached();
        },
    };
    proof {
        assert(crate::address::seeds_view(seeds@) =~= seq![ctx.mint@]);
    }
    write_to_inscription(&mut ctx.inscription, &authority, input.start_pos, &input.data)
}

} // verus!
