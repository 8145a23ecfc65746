//! Coarse-grained invalidation: a set of opaque region identifiers marked
//! dirty during one update cycle and drained exactly once per cycle.

use crate::base::ModelWithRegion;
use vstd::prelude::*;

verus! {

/// The set of region identifiers marked dirty since the last drain.
///
/// A region identifier is an opaque `u64` chosen by the application. Marking
/// is idempotent within a cycle; draining empties the set and yields each
/// marked region exactly once.
pub struct DirtyRegions {
    items: Vec<u64>,
}

impl View for DirtyRegions {
    type V = Set<u64>;

    closed spec fn view(&self) -> Set<u64> {
        self.items@.to_set()
    }
}

impl DirtyRegions {
    /// The backing list never repeats a region, so a drain emits each marked
    /// region exactly once.
    #[verifier::type_invariant]
    spec fn wf(self) -> bool {
        self.items@.no_duplicates()
    }

    /// An empty set of dirty regions.
    pub fn new() -> (r: Self)
        ensures
            r@ == Set::<u64>::empty(),
    {
        let r = DirtyRegions { items: Vec::new() };
        proof {
            assert(r@ =~= Set::<u64>::empty());
        }
        r
    }

    /// Whether the region is currently marked.
    pub fn is_dirty(&self, region: u64) -> (r: bool)
        ensures
            r == self@.contains(region),
    {
        let mut i: usize = 0;
        while i < self.items.len()
            invariant
                0 <= i <= self.items@.len(),
                forall|j: int| 0 <= j < i ==> self.items@[j] != region,
            decreases self.items@.len() - i,
        {
            if self.items[i] == region {
                assert(self.items@.contains(region));
                return true;
            }
            i = i + 1;
        }
        assert(!self.items@.contains(region));
        false
    }

    /// Marks a region dirty; marking an already dirty region changes nothing.
    pub fn mark_with(&mut self, region: u64)
        ensures
            final(self)@ == old(self)@.insert(region),
    {
        proof {
            use_type_invariant(&*self);
        }
        if !self.is_dirty(region) {
            let mut taken: Vec<u64> = Vec::new();
            core::mem::swap(&mut self.items, &mut taken);
            taken.push(region);
            core::mem::swap(&mut self.items, &mut taken);
        }
        proof {
            broadcast use vstd::seq_lib::lemma_seq_contains_after_push;

            assert(self@ =~= old(self)@.insert(region));
        }
    }

    /// Marks the region a model declares for itself.
    pub fn mark<MM: ModelWithRegion>(&mut self)
        ensures
            final(self)@ == old(self)@.insert(MM::region_spec()),
    {
        let region = MM::region();
        self.mark_with(region);
    }

    /// Whether no region is marked.
    pub fn is_empty(&self) -> (r: bool)
        ensures
            r == (self@ == Set::<u64>::empty()),
    {
        proof {
            if self.items@.len() > 0 {
                assert(self@.contains(self.items@[0]));
            }
            assert(self.items@.len() == 0 ==> self@ =~= Set::<u64>::empty());
        }
        self.items.len() == 0
    }

    /// Empties the set and returns every marked region, each exactly once.
    pub fn drain(&mut self) -> (r: Vec<u64>)
        ensures
            r@.no_duplicates(),
            r@.to_set() == old(self)@,
            final(self)@ == Set::<u64>::empty(),
    {
        proof {
            use_type_invariant(&*self);
        }
        let mut taken: Vec<u64> = Vec::new();
        core::mem::swap(&mut self.items, &mut taken);
        proof {
            assert(self@ =~= Set::<u64>::empty());
        }
        taken
    }
}

} // verus!
