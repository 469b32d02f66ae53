//! The gig registry: durable ownership of the records and the monotonic
//! identifier allocator.

use vstd::prelude::*;

use crate::gig::Gig;
use crate::gig::GigError;
use crate::gig::GigView;

verus! {

/// Every record stands at a legal stage.
pub open spec fn wf_state(s: Seq<GigView>) -> bool {
    forall|i: int| 0 <= i < s.len() ==> 1 <= (#[trigger] s[i]).stage <= 6
}

/// The registry. Identifiers are assigned sequentially from 0 and never
/// reused; records are never destroyed, only progressed, so the record with
/// identifier `i` is the `i`-th ever allocated and the abstract state is the
/// sequence of all records in allocation order.
pub struct NearGigs {
    gigs: Vec<Gig>,
    gig_count: u64,
}

impl View for NearGigs {
    type V = Seq<GigView>;

    closed spec fn view(&self) -> Seq<GigView> {
        self.gigs@.map_values(|g: Gig| g@)
    }
}

impl NearGigs {
    /// Internal consistency: the allocator counter equals the number of
    /// records ever allocated, and every record is at a legal stage.
    pub closed spec fn inv(&self) -> bool {
        &&& self.gig_count as int == self.gigs@.len()
        &&& wf_state(self@)
    }

    /// Everything a consistent registry holds is at a legal stage.
    pub proof fn lemma_inv_wf_state(&self)
        requires
            self.inv(),
        ensures
            wf_state(self@),
    {
    }

    /// An empty registry: no records, allocator at zero.
    pub fn new() -> (r: Self)
        ensures
            r.inv(),
            r@ == Seq::<GigView>::empty(),
    {
        let r = NearGigs { gigs: Vec::new(), gig_count: 0 };
        proof {
            assert(r@ =~= Seq::<GigView>::empty());
        }
        r
    }

    /// Assigns the next sequential identifier, stores the record under it,
    /// advances the allocator, and returns the identifier.
    pub(crate) fn allocate_and_store(&mut self, gig: Gig) -> (gig_id: u64)
        requires
            old(self).inv(),
            old(self)@.len() < u64::MAX,
            1 <= gig@.stage <= 6,
        ensures
            final(self).inv(),
            gig_id as int == old(self)@.len(),
            final(self)@ == old(self)@.push(gig@),
    {
        let gig_id = self.gig_count;
        let ghost gv = gig@;
        self.gigs.push(gig);
        self.gig_count = self.gig_count + 1;
        proof {
            assert(self@ =~= old(self)@.push(gv));
        }
        gig_id
    }

    /// Returns the record with the given identifier, or `NotFound` if no such
    /// identifier was ever allocated.
    pub(crate) fn load(&self, gig_id: u64) -> (r: Result<Gig, GigError>)
        ensures
            match r {
                Ok(g) => (gig_id as int) < self@.len() && g@ == self@[gig_id as int],
                Err(e) => (gig_id as int) >= self@.len() && e == GigError::NotFound,
            },
    {
        if gig_id < (self.gigs.len() as u64) {
            let i = gig_id as usize;
            Ok(self.gigs[i].clone())
        } else {
            Err(GigError::NotFound)
        }
    }

    /// Overwrites the record at an already-allocated identifier.
    pub(crate) fn store(&mut self, gig_id: u64, gig: Gig)
        requires
            old(self).inv(),
            (gig_id as int) < old(self)@.len(),
            1 <= gig@.stage <= 6,
        ensures
            final(self).inv(),
            final(self)@ == old(self)@.update(gig_id as int, gig@),
    {
        let n: usize = self.gigs.len();
        proof {
            assert(old(self)@.len() == old(self).gigs@.len());
            assert((gig_id as int) < (n as int));
        }
        let i: usize = gig_id as usize;
        let ghost gv = gig@;
        self.gigs.set(i, gig);
        proof {
            assert(self@ =~= old(self)@.update(gig_id as int, gv));
        }
    }

    /// Retrieves a gig's public state. A pure read with no authorization
    /// gate: any party may observe any gig.
    pub fn get_gig(&self, gig_id: u64) -> (r: Option<Gig>)
        ensures
            match r {
                Some(g) => (gig_id as int) < self@.len() && g@ == self@[gig_id as int],
                None => (gig_id as int) >= self@.len(),
            },
    {
        match self.load(gig_id) {
            Ok(g) => Some(g),
            Err(_) => None,
        }
    }
}

} // verus!
