use vstd::prelude::*;
use crate::address::{Address, addr_eq, sentinel_bytes};
use crate::errors::EditionsError;

verus! {

/// An append-only content record with an authority field: whoever holds
/// (or can derive) the authority identity may write into its allocated
/// bytes or make it permanently immutable.
pub struct Inscription {
    /// The record's own identity.
    pub address: Address,
    /// Who may mutate the record; the sentinel identity means nobody.
    pub authority: Address,
    /// The record's allocated content bytes.
    pub data: Vec<u8>,
}

impl Inscription {
    pub open spec fn wf(&self) -> bool {
        &&& self.address.wf()
        &&& self.authority.wf()
    }
}

/// The global summary record: how many content records have been made
/// immutable, and which record was touched last, by whom and when.
pub struct InscriptionSummary {
    pub inscription_count_immutables: u64,
    pub last_inscription: Address,
    pub last_inscriber: Address,
    pub last_inscription_create_time: i64,
}

impl InscriptionSummary {
    pub open spec fn wf(&self) -> bool {
        &&& self.last_inscription.wf()
        &&& self.last_inscriber.wf()
    }
}

/// What an accepted state change reports back: the record's identity and
/// its authority after the change.
pub struct InscriptionEventUpdate {
    pub id: Address,
    pub authority: Address,
}

/// The state one make-immutable call touches.
pub struct MakeInscriptionImmutable {
    pub payer: Address,
    /// The signing identity claiming authority over the record.
    pub authority: Address,
    pub inscription_summary: InscriptionSummary,
    pub inscription: Inscription,
}

impl MakeInscriptionImmutable {
    pub open spec fn wf(&self) -> bool {
        &&& self.payer.wf()
        &&& self.authority.wf()
        &&& self.inscription_summary.wf()
        &&& self.inscription.wf()
    }
}

/// What making a record immutable decides: the caller must be the
/// record's current authority. Once the authority is the sentinel, no
/// caller can be: the transition is terminal, a second call always fails.
pub open spec fn immutable_result(ctx: MakeInscriptionImmutable) -> Result<(), EditionsError> {
    if ctx.inscription.authority@ != ctx.authority@ {
        Err(EditionsError::Unauthorized)
    } else {
        Ok(())
    }
}

/// Make a content record permanently immutable: set its authority to the
/// terminal sentinel and count the transition in the global summary. On
/// failure nothing changes.
pub fn handler(ctx: &mut MakeInscriptionImmutable, now: i64) -> (r: Result<
    InscriptionEventUpdate,
    EditionsError,
>)
    requires
        old(ctx).wf(),
        // A signer is a controllable identity; the sentinel is not one.
        old(ctx).authority@ != sentinel_bytes(),
        old(ctx).inscription_summary.inscription_count_immutables < u64::MAX,
    ensures
        final(ctx).wf(),
        r is Err ==> *final(ctx) == *old(ctx) && r == Err::<InscriptionEventUpdate, EditionsError>(
            EditionsError::Unauthorized,
        ),
        r is Ok <==> immutable_result(*old(ctx)) is Ok,
        r is Ok ==> final(ctx).inscription.authority@ == sentinel_bytes(),
        r is Ok ==> final(ctx).inscription.address@ == old(ctx).inscription.address@,
        r is Ok ==> final(ctx).inscription.data@ == old(ctx).inscription.data@,
        r is Ok ==> final(ctx).inscription_summary.inscription_count_immutables == old(
            ctx,
        ).inscription_summary.inscription_count_immutables + 1,
        r is Ok ==> final(ctx).inscription_summary.last_inscription@ == old(
            ctx,
        ).inscription.address@,
        r is Ok ==> final(ctx).inscription_summary.last_inscriber@ == old(ctx).payer@,
        r is Ok ==> final(ctx).inscription_summary.last_inscription_create_time == now,
        r is Ok ==> final(ctx).payer@ == old(ctx).payer@,
        r is Ok ==> final(ctx).authority@ == old(ctx).authority@,
        r matches Ok(ev) ==> ev.id@ == old(ctx).inscription.address@ && ev.authority@
            == sentinel_bytes(),
{
    if !addr_eq(&ctx.inscription.authority, &ctx.authority) {
        return Err(EditionsError::Unauthorized);
    }
    // Setting the authority to the sentinel prevents any further change.
    ctx.inscription.authority = Address::sentinel();
    ctx.inscription_summary.inscription_count_immutables =
        ctx.inscription_summary.inscription_count_immutables + 1;
    ctx.inscription_summary.last_inscription_create_time = now;
    ctx.inscription_summary.last_inscription = ctx.inscription.address.dup();
    ctx.inscription_summary.last_inscriber = ctx.payer.dup();
    Ok(
        InscriptionEventUpdate {
            id: ctx.inscription.address.dup(),
            authority: Address::sentinel(),
        },
    )
}

/// Law: immutability is terminal. Once a record's authority is the
/// sentinel, every caller with a controllable (non-sentinel) identity is
/// rejected with `Unauthorized`: a second make-immutable call can never
/// silently succeed.
pub proof fn lemma_immutable_terminal(ctx: MakeInscriptionImmutable)
    requires
        ctx.inscription.authority@ == sentinel_bytes(),
        ctx.authority@ != sentinel_bytes(),
    ensures
        immutable_result(ctx) == Err::<(), EditionsError>(EditionsError::Unauthorized),
{
}

/// What a write into a content record decides: the caller's proof must
/// match the record's current authority, and the byte range must lie
/// within the record's allocated capacity.
pub open spec fn write_result(
    inscription: Inscription,
    authority_proof: Seq<u8>,
    start_pos: u32,
    data: Seq<u8>,
) -> Result<(), EditionsError> {
    if authority_proof != inscription.authority@ {
        Err(EditionsError::Unauthorized)
    } else if start_pos + data.len() > inscription.data@.len() {
        Err(EditionsError::RangeOutOfBounds)
    } else {
        Ok(())
    }
}

/// Overwrite part of a content record's allocated bytes, starting at
/// `start_pos`, with `data`. Requires an authority proof matching the
/// record's stored authority; fails — changing nothing — when the proof
/// does not match or the range reaches beyond the allocation.
pub fn write_to_inscription(
    inscription: &mut Inscription,
    authority_proof: &Address,
    start_pos: u32,
    data: &Vec<u8>,
) -> (r: Result<(), EditionsError>)
    requires
        old(inscription).wf(),
    ensures
        final(inscription).wf(),
        r == write_result(*old(inscription), authority_proof@, start_pos, data@),
        r is Err ==> *final(inscription) == *old(inscription),
        r is Ok ==> final(inscription).data@ == old(inscription).data@.subrange(
            0,
            start_pos as int,
        ) + data@ + old(inscription).data@.subrange(
            start_pos + data@.len(),
            old(inscription).data@.len() as int,
        ),
        r is Ok ==> final(inscription).address@ == old(inscription).address@,
        r is Ok ==> final(inscription).authority@ == old(inscription).authority@,
{
    if !addr_eq(authority_proof, &inscription.authority) {
        return Err(EditionsError::Unauthorized);
    }
    let start: usize = start_pos as usize;
    if start > inscription.data.len() || data.len() > inscription.data.len() - start {
        return Err(EditionsError::RangeOutOfBounds);
    }
    let ghost pre = inscription.data@;
    let mut k: usize = 0;
    while k < data.len()
        invariant
            k <= data@.len(),
            start + data@.len() <= pre.len(),
            start + data@.len() <= usize::MAX,
            inscription.data@.len() == pre.len(),
            forall|j: int| 0 <= j < start ==> inscription.data@[j] == pre[j],
            forall|j: int| start <= j < start + k ==> inscription.data@[j] == data@[j - start],
            forall|j: int| start + data@.len() <= j < pre.len() ==> inscription.data@[j] == pre[j],
            inscription.address@ == old(inscription).address@,
            inscription.authority@ == old(inscription).authority@,
        decreases data@.len() - k,
    {
        inscription.data[start + k] = data[k];
        k = k + 1;
    }
    proof {
        assert(inscription.data@ =~= pre.subrange(0, start as int) + data@ + pre.subrange(
            start + data@.len(),
            pre.len() as int,
        ));
    }
    Ok(())
}

} // verus!
