use vstd::prelude::*;
use crate::address::{Address, addr_eq};
use crate::errors::EditionsError;

verus! {

/// The issuance ledger of a deployment: one entry per token identity ever
/// issued, deduplicated. An entry, once present, is never removed.
pub struct Hashlist {
    pub issued: Vec<Address>,
}

impl View for Hashlist {
    type V = Seq<Seq<u8>>;

    open spec fn view(&self) -> Seq<Seq<u8>> {
        Seq::new(self.issued@.len(), |i: int| self.issued@[i]@)
    }
}

impl Hashlist {
    /// The ledger's invariant: no token identity appears twice.
    pub open spec fn wf(&self) -> bool {
        forall|i: int, j: int| 0 <= i < j < self@.len() ==> self@[i] != self@[j]
    }

    /// An empty ledger.
    pub fn new() -> (r: Hashlist)
        ensures
            r@ == Seq::<Seq<u8>>::empty(),
            r.wf(),
    {
        let r = Hashlist { issued: Vec::new() };
        proof {
            assert(r@ =~= Seq::<Seq<u8>>::empty());
        }
        r
    }

    /// Whether a token identity has already been issued.
    pub fn contains(&self, id: &Address) -> (r: bool)
        ensures
            r == self@.contains(id@),
    {
        let mut i: usize = 0;
        while i < self.issued.len()
            invariant
                i <= self.issued@.len(),
                forall|j: int| 0 <= j < i ==> self@[j] != id@,
            decreases self.issued@.len() - i,
        {
            if addr_eq(&self.issued[i], id) {
                proof {
                    assert(self@[i as int] == id@);
                }
                return true;
            }
            i = i + 1;
        }
        proof {
            assert(forall|j: int| 0 <= j < self@.len() ==> self@[j] != id@);
        }
        false
    }

    /// Record a freshly issued token identity. Fails with `DuplicateToken`,
    /// and leaves the ledger untouched, exactly when the identity is
    /// already present; this defends against identity reuse.
    pub fn insert(&mut self, id: Address) -> (r: Result<(), EditionsError>)
        requires
            old(self).wf(),
        ensures
            old(self)@.contains(id@) ==> r == Err::<(), EditionsError>(EditionsError::DuplicateToken)
                && *final(self) == *old(self),
            !old(self)@.contains(id@) ==> r == Ok::<(), EditionsError>(()) && final(self)@ == old(
                self,
            )@.push(id@),
            final(self).wf(),
    {
        if self.contains(&id) {
            return Err(EditionsError::DuplicateToken);
        }
        let ghost pre = self@;
        self.issued.push(id);
        proof {
            assert(self@ =~= pre.push(id@));
            assert forall|i: int, j: int| 0 <= i < j < self@.len() implies self@[i] != self@[j] by {
                if j == self@.len() - 1 {
                    assert(!pre.contains(self@[j]));
                    assert(pre[i] == self@[i]);
                }
            }
        }
        Ok(())
    }
}

} // verus!
