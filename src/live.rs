use vstd::prelude::*;

use crate::error::GlError;

verus! {

/// The identifiers of one kind of native resource that live handles hold.
/// Each is nonzero and held by one handle only.
#[derive(Debug)]
pub struct LiveSet {
    ids: Vec<u32>,
}

impl View for LiveSet {
    type V = Set<u32>;

    closed spec fn view(&self) -> Set<u32> {
        self.ids@.to_set()
    }
}

impl LiveSet {
    #[verifier::type_invariant]
    spec fn well_formed(&self) -> bool {
        &&& self.ids@.no_duplicates()
        &&& !self.ids@.contains(0u32)
    }

    /// The number of live identifiers.
    pub closed spec fn count(&self) -> nat {
        self.ids@.len()
    }

    /// An empty set.
    pub fn new() -> (r: LiveSet)
        ensures
            r@ == Set::<u32>::empty(),
            r.count() == 0,
            r@.finite(),
    {
        let r = LiveSet { ids: Vec::new() };
        assert(r@ =~= Set::<u32>::empty());
        r
    }

    /// Whether `id` is held by a live handle.
    pub fn contains(&self, id: u32) -> (r: bool)
        ensures
            r == self@.contains(id),
    {
        let mut i: usize = 0;
        while i < self.ids.len()
            invariant
                i <= self.ids@.len(),
                forall|j: int| 0 <= j < i ==> self.ids@[j] != id,
            decreases self.ids@.len() - i,
        {
            if self.ids[i] == id {
                assert(self.ids@.contains(id));
                return true;
            }
            i = i + 1;
        }
        assert(!self.ids@.contains(id));
        false
    }

    /// The number of live identifiers.
    pub fn len(&self) -> (r: usize)
        ensures
            r == self.count(),
    {
        self.ids.len()
    }

    /// Records that a new handle holds `id`. Fails with `NativeApi`, changing
    /// nothing, when `id` is zero or already held.
    pub fn claim(&mut self, id: u32) -> (r: Result<(), GlError>)
        ensures
            r is Err <==> (id == 0 || old(self)@.contains(id)),
            r matches Err(e) ==> e == GlError::NativeApi,
            r is Err ==> final(self)@ == old(self)@ && final(self).count() == old(self).count(),
            r is Ok ==> final(self)@ == old(self)@.insert(id) && final(self).count() == old(self).count()
                + 1,
            final(self)@.finite(),
            final(self).count() == final(self)@.len(),
            !final(self)@.contains(0u32),
    {
        proof {
            use_type_invariant(&*self);
            self.ids@.unique_seq_to_set();
        }
        if id == 0 || self.contains(id) {
            return Err(GlError::NativeApi);
        }
        proof {
            use_type_invariant(&*self);
        }
        let ghost before = self.ids@;
        let mut ids: Vec<u32> = Vec::new();
        std::mem::swap(&mut ids, &mut self.ids);
        ids.push(id);
        proof {
            assert(ids@ == before.push(id));
            assert(ids@.no_duplicates()) by {
                assert forall|a: int, b: int|
                    0 <= a < ids@.len() && 0 <= b < ids@.len() && a != b implies ids@[a]
                    != ids@[b] by {
                    if a < before.len() && b < before.len() {
                    } else if a == before.len() {
                        assert(before.contains(before[b]));
                    } else {
                        assert(before.contains(before[a]));
                    }
                }
            }
            assert(!ids@.contains(0u32)) by {
                if ids@.contains(0u32) {
                    let k = choose|k: int| 0 <= k < ids@.len() && ids@[k] == 0u32;
                    if k < before.len() {
                        assert(before.contains(0u32));
                    }
                }
            }
            assert(ids@.to_set() =~= before.to_set().insert(id)) by {
                assert forall|x: u32| ids@.contains(x) <==> (before.contains(x) || x == id) by {
                    if ids@.contains(x) {
                        let k = choose|k: int| 0 <= k < ids@.len() && ids@[k] == x;
                        if k < before.len() {
                            assert(before[k] == x);
                        }
                    }
                    if before.contains(x) {
                        let k = choose|k: int| 0 <= k < before.len() && before[k] == x;
                        assert(ids@[k] == x);
                    }
                    if x == id {
                        assert(ids@[before.len() as int] == x);
                    }
                }
            }
            ids@.unique_seq_to_set();
        }
        self.ids = ids;
        Ok(())
    }

    /// Records that the handle holding `id` is gone, and says whether it was
    /// live. Exactly that one identifier leaves the set.
    pub fn release(&mut self, id: u32) -> (r: bool)
        ensures
            r == old(self)@.contains(id),
            final(self)@ == old(self)@.remove(id),
            r ==> final(self).count() + 1 == old(self).count(),
            !r ==> final(self).count() == old(self).count(),
            final(self)@.finite(),
            final(self).count() == final(self)@.len(),
            !final(self)@.contains(0u32),
    {
        proof {
            use_type_invariant(&*self);
        }
        let ghost start = self.ids@;
        let mut i: usize = 0;
        while i < self.ids.len()
            invariant
                self.ids@ == start,
                start.no_duplicates(),
                !start.contains(0u32),
                old(self).ids@ == start,
                i <= self.ids@.len(),
                forall|j: int| 0 <= j < i ==> self.ids@[j] != id,
            decreases self.ids@.len() - i,
        {
            if self.ids[i] == id {
                let ghost before = self.ids@;
                let mut ids: Vec<u32> = Vec::new();
                std::mem::swap(&mut ids, &mut self.ids);
                ids.remove(i);
                proof {
                    assert(ids@ == before.remove(i as int));
                    let after = ids@;
                    assert(before[i as int] == id);
                    assert forall|k: int| 0 <= k < after.len() implies after[k] == (if k < i {
                        before[k]
                    } else {
                        before[k + 1]
                    }) by {}
                    assert(after.no_duplicates()) by {
                        assert forall|a: int, b: int|
                            0 <= a < after.len() && 0 <= b < after.len() && a != b implies after[a]
                            != after[b] by {
                            let a2 = if a < i { a } else { a + 1 };
                            let b2 = if b < i { b } else { b + 1 };
                            assert(before[a2] != before[b2]);
                        }
                    }
                    assert(after.to_set() =~= before.to_set().remove(id)) by {
                        assert forall|x: u32| after.contains(x) <==> (before.contains(x) && x != id) by {
                            if after.contains(x) {
                                let k = choose|k: int| 0 <= k < after.len() && after[k] == x;
                                let k2 = if k < i { k } else { k + 1 };
                                assert(before[k2] == x);
                                assert(k2 != i);
                            }
                            if before.contains(x) && x != id {
                                let k = choose|k: int| 0 <= k < before.len() && before[k] == x;
                                assert(k != i);
                                let k2 = if k < i { k } else { k - 1 };
                                assert(after[k2] == x);
                            }
                        }
                    }
                    assert(!after.contains(0u32)) by {
                        if after.contains(0u32) {
                            let k = choose|k: int| 0 <= k < after.len() && after[k] == 0u32;
                            let k2 = if k < i { k } else { k + 1 };
                            assert(before[k2] == 0u32);
                        }
                    }
                    after.unique_seq_to_set();
                }
                self.ids = ids;
                return true;
            }
            i = i + 1;
        }
        assert(!self.ids@.contains(id));
        assert(self.ids@.to_set() =~= self.ids@.to_set().remove(id));
        proof {
            self.ids@.unique_seq_to_set();
        }
        false
    }
}

/// Claiming an identifier and then releasing it leaves the live set as it
/// was: a handle's release undoes exactly its own claim.
pub proof fn lemma_claim_then_release(live: Set<u32>, id: u32)
    requires
        !live.contains(id),
    ensures
        live.insert(id).remove(id) == live,
        live.insert(id).contains(id),
{
    assert(live.insert(id).remove(id) =~= live);
}

} // verus!
