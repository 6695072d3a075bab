use vstd::prelude::*;
use crate::errors::EditionsError;

verus! {

/// The derivation primitive accepts at most this many bytes per seed.
pub const MAX_SEED_LEN: usize = 32;

/// The derivation primitive accepts at most this many seeds in one tuple,
/// one of which it reserves for its own bump byte and one of which this
/// crate reserves for the namespace tag.
pub const MAX_EXTRA_SEEDS: usize = 14;

/// A 32-byte record address or identity: every persistent record, signer
/// and derived authority handle is one of these.
#[derive(Debug, Clone, PartialEq, Eq)]
pub struct Address {
    pub bytes: Vec<u8>,
}

impl View for Address {
    type V = Seq<u8>;

    open spec fn view(&self) -> Seq<u8> {
        self.bytes@
    }
}

/// The terminal sentinel identity: all zero bytes. It is the base system's
/// own identity, controllable by nobody, and marks relinquished authority.
pub open spec fn sentinel_bytes() -> Seq<u8> {
    Seq::new(32, |i: int| 0u8)
}

impl Address {
    /// A well-formed address holds exactly 32 bytes.
    pub open spec fn wf(&self) -> bool {
        self.bytes@.len() == 32
    }

    /// The terminal sentinel address (all zero bytes).
    pub fn sentinel() -> (r: Address)
        ensures
            r@ == sentinel_bytes(),
            r.wf(),
    {
        let mut v: Vec<u8> = Vec::new();
        let mut i: usize = 0;
        while i < 32
            invariant
                i <= 32,
                v@.len() == i,
                forall|j: int| 0 <= j < i ==> v@[j] == 0u8,
            decreases 32 - i,
        {
            v.push(0u8);
            i = i + 1;
        }
        proof {
            assert(v@ =~= sentinel_bytes());
        }
        Address { bytes: v }
    }

    /// An exact copy of this address.
    pub fn dup(&self) -> (r: Address)
        ensures
            r@ == self@,
    {
        Address { bytes: dup_bytes(&self.bytes) }
    }
}

/// An exact copy of a byte vector.
pub fn dup_bytes(v: &Vec<u8>) -> (r: Vec<u8>)
    ensures
        r@ == v@,
{
    let mut out: Vec<u8> = Vec::new();
    let mut i: usize = 0;
    while i < v.len()
        invariant
            i <= v@.len(),
            out@ == v@.subrange(0, i as int),
        decreases v@.len() - i,
    {
        out.push(v[i]);
        proof {
            assert(out@ =~= v@.subrange(0, i + 1 as int));
        }
        i = i + 1;
    }
    proof {
        assert(out@ =~= v@);
    }
    out
}

/// Whether two byte vectors hold the same bytes.
pub fn bytes_eq(a: &Vec<u8>, b: &Vec<u8>) -> (r: bool)
    ensures
        r == (a@ == b@),
{
    if a.len() != b.len() {
        return false;
    }
    let mut i: usize = 0;
    while i < a.len()
        invariant
            a@.len() == b@.len(),
            i <= a@.len(),
            forall|j: int| 0 <= j < i ==> a@[j] == b@[j],
        decreases a@.len() - i,
    {
        if a[i] != b[i] {
            return false;
        }
        i = i + 1;
    }
    proof {
        assert(a@ =~= b@);
    }
    true
}

/// Whether two addresses are the same identity.
pub fn addr_eq(a: &Address, b: &Address) -> (r: bool)
    ensures
        r == (a@ == b@),
{
    bytes_eq(&a.bytes, &b.bytes)
}

/// The byte sequences held by a tuple of seed vectors, in order.
pub open spec fn seeds_view(seeds: Seq<Vec<u8>>) -> Seq<Seq<u8>> {
    Seq::new(seeds.len(), |i: int| seeds[i]@)
}

/// The address that the substrate's derivation primitive returns for a
/// program identity and a seed tuple. Deterministic: the same inputs give
/// the same address in every process and on every machine.
pub uninterp spec fn derive_of(program: Seq<u8>, seeds: Seq<Seq<u8>>) -> Seq<u8>;

/// Relies on solana_pubkey::Pubkey::find_program_address (a re-export of
/// solana_address::Address::find_program_address): for a program id and a
/// seed tuple within the primitive's bounds it deterministically returns a
/// 32-byte derived address with no corresponding private key. With the
/// bounds below it panics only in the statistically improbable event that
/// no bump byte yields an off-curve address.
#[verifier::external_body]
fn find_derived(program: &Address, seeds: &Vec<Vec<u8>>) -> (r: Address)
    requires
        program@.len() == 32,
        seeds@.len() <= 15,
        forall|i: int| 0 <= i < seeds@.len() ==> (#[trigger] seeds@[i])@.len() <= 32,
    ensures
        r@ == derive_of(program@, seeds_view(seeds@)),
        r@.len() == 32,
{
    let program_id = solana_pubkey::Pubkey::try_from(program.bytes.as_slice()).unwrap();
    let seed_refs: Vec<&[u8]> = seeds.iter().map(|s| s.as_slice()).collect();
    let (derived, _bump) = solana_pubkey::Pubkey::find_program_address(&seed_refs, &program_id);
    Address { bytes: derived.to_bytes().to_vec() }
}

/// Whether a namespace tag and extra seeds fit the derivation primitive's
/// length bounds.
pub open spec fn seeds_ok(namespace: Seq<u8>, seeds: Seq<Seq<u8>>) -> bool {
    &&& namespace.len() <= MAX_SEED_LEN
    &&& seeds.len() <= MAX_EXTRA_SEEDS
    &&& forall|i: int| 0 <= i < seeds.len() ==> (#[trigger] seeds[i]).len() <= MAX_SEED_LEN
}

/// The full seed tuple of a derivation: the namespace tag first, then the
/// extra seeds, in order.
pub open spec fn full_seeds(namespace: Seq<u8>, seeds: Seq<Seq<u8>>) -> Seq<Seq<u8>> {
    seq![namespace] + seeds
}

/// The authority handle derived from a program, a namespace tag and extra
/// seeds.
pub open spec fn handle_of(program: Seq<u8>, namespace: Seq<u8>, seeds: Seq<Seq<u8>>) -> Seq<u8> {
    derive_of(program, full_seeds(namespace, seeds))
}

/// What `verify` decides: a handle passes exactly when the seeds are within
/// bounds and the handle equals the derived one.
pub open spec fn verifies(
    handle: Seq<u8>,
    program: Seq<u8>,
    namespace: Seq<u8>,
    seeds: Seq<Seq<u8>>,
) -> bool {
    seeds_ok(namespace, seeds) && handle == handle_of(program, namespace, seeds)
}

/// Derive the authority handle owned by `program` for a namespace tag plus
/// extra seeds. Fails with `SeedTooLong` exactly when the seed material
/// exceeds the primitive's bounds.
pub fn derive(program: &Address, namespace: &Vec<u8>, seeds: &Vec<Vec<u8>>) -> (r: Result<
    Address,
    EditionsError,
>)
    requires
        program.wf(),
    ensures
        seeds_ok(namespace@, seeds_view(seeds@)) ==> (r matches Ok(h) && h@ == handle_of(
            program@,
            namespace@,
            seeds_view(seeds@),
        ) && h.wf()),
        !seeds_ok(namespace@, seeds_view(seeds@)) ==> r == Err::<Address, EditionsError>(
            EditionsError::SeedTooLong,
        ),
{
    if namespace.len() > MAX_SEED_LEN {
        return Err(EditionsError::SeedTooLong);
    }
    if seeds.len() > MAX_EXTRA_SEEDS {
        return Err(EditionsError::SeedTooLong);
    }
    let mut full: Vec<Vec<u8>> = Vec::new();
    full.push(dup_bytes(namespace));
    let mut i: usize = 0;
    while i < seeds.len()
        invariant
            i <= seeds@.len(),
            full@.len() == i + 1,
            full@[0]@ == namespace@,
            forall|j: int| 1 <= j <= i ==> (#[trigger] full@[j])@ == seeds@[j - 1]@,
            forall|j: int| 0 <= j < i ==> (#[trigger] seeds@[j])@.len() <= MAX_SEED_LEN,
            seeds@.len() <= MAX_EXTRA_SEEDS,
            namespace@.len() <= MAX_SEED_LEN,
        decreases seeds@.len() - i,
    {
        if seeds[i].len() > MAX_SEED_LEN {
            proof {
                assert(seeds_view(seeds@)[i as int].len() > MAX_SEED_LEN);
            }
            return Err(EditionsError::SeedTooLong);
        }
        full.push(dup_bytes(&seeds[i]));
        i = i + 1;
    }
    proof {
        assert(seeds_view(full@) =~= full_seeds(namespace@, seeds_view(seeds@)));
    }
    Ok(find_derived(program, &full))
}

/// Verify that a claimed handle was derived from (namespace, seeds) under
/// `program`: recompute the derivation and compare.
pub fn verify(handle: &Address, program: &Address, namespace: &Vec<u8>, seeds: &Vec<Vec<u8>>) -> (r:
    bool)
    requires
        program.wf(),
    ensures
        r == verifies(handle@, program@, namespace@, seeds_view(seeds@)),
{
    match derive(program, namespace, seeds) {
        Ok(h) => addr_eq(handle, &h),
        Err(_) => false,
    }
}

/// Law: a handle freshly derived from (namespace, seeds) always verifies
/// against the same (namespace, seeds), and any other handle — in
/// particular any mutated one — never does.
pub proof fn lemma_verify_of_derived(
    program: Seq<u8>,
    namespace: Seq<u8>,
    seeds: Seq<Seq<u8>>,
    other: Seq<u8>,
)
    requires
        seeds_ok(namespace, seeds),
    ensures
        verifies(handle_of(program, namespace, seeds), program, namespace, seeds),
        other != handle_of(program, namespace, seeds) ==> !verifies(
            other,
            program,
            namespace,
            seeds,
        ),
{
}

} // verus!
