//! Move-only capability tokens for physical peripherals.
//!
//! At most one live handle exists per physical resource at any time.
//! A handle is neither `Clone` nor `Copy`, so constructing a driver from raw
//! handles transfers ownership irreversibly, and two drivers can never be
//! built from the same handle. The registry enforces the same exclusivity at
//! runtime for the initial hand-out of resources.

use vstd::prelude::*;

verus! {

/// Exclusive capability over one physical resource (a pin, a timer channel,
/// a DMA channel, or a UART instance).
pub struct PeripheralHandle {
    res_id: u16,
}

impl PeripheralHandle {
    /// The identifier of the physical resource this handle stands for.
    pub closed spec fn id(&self) -> u16 {
        self.res_id
    }

    /// Reads the resource identifier.
    pub fn resource_id(&self) -> (r: u16)
        ensures
            r == self.id(),
    {
        self.res_id
    }
}

/// Whether a claim for `id` is granted when `claimed` lists the resources
/// already handed out.
pub open spec fn grants(claimed: Seq<u16>, id: u16) -> bool {
    !claimed.contains(id)
}

/// The record of handed-out resources after a granted claim for `id`.
pub open spec fn after_claim(claimed: Seq<u16>, id: u16) -> Seq<u16> {
    claimed.push(id)
}

/// Hands out peripheral handles, at most once per physical resource.
///
/// All resource allocation happens before the control tasks start, so a
/// single registry owned by the startup code is enough: it partitions the
/// board statically, and no locking is ever needed afterwards.
pub struct HandleRegistry {
    claimed: Vec<u16>,
}

impl HandleRegistry {
    /// The identifiers of the resources already handed out, in claim order.
    pub closed spec fn claimed_ids(&self) -> Seq<u16> {
        self.claimed@
    }

    /// Whether the resource `id` has already been handed out.
    pub open spec fn is_claimed(&self, id: u16) -> bool {
        self.claimed_ids().contains(id)
    }

    /// A registry for a board on which nothing has been handed out yet.
    pub fn new() -> (r: HandleRegistry)
        ensures
            r.claimed_ids() == Seq::<u16>::empty(),
    {
        HandleRegistry { claimed: Vec::new() }
    }

    /// Claims the resource `id`: hands out its unique handle, or refuses if
    /// the resource was already claimed.
    pub fn claim(&mut self, id: u16) -> (r: Option<PeripheralHandle>)
        ensures
            r is Some <==> grants(old(self).claimed_ids(), id),
            r matches Some(h) ==> h.id() == id,
            r is Some ==> final(self).claimed_ids() == after_claim(old(self).claimed_ids(), id),
            r is None ==> final(self).claimed_ids() == old(self).claimed_ids(),
            forall|x: u16|
                #![trigger final(self).claimed_ids().contains(x)]
                #![trigger old(self).claimed_ids().contains(x)]
                (final(self).is_claimed(x) <==> (old(self).is_claimed(x) || (r is Some && x
                    == id))),
    {
        let mut i: usize = 0;
        while i < self.claimed.len()
            invariant
                i <= self.claimed.len(),
                self.claimed@ == old(self).claimed@,
                forall|j: int| 0 <= j < i ==> self.claimed@[j] != id,
            decreases self.claimed.len() - i,
        {
            if self.claimed[i] == id {
                proof {
                    assert(self.claimed@.contains(id)) by {
                        assert(self.claimed@[i as int] == id);
                    }
                }
                return None;
            }
            i += 1;
        }
        proof {
            broadcast use vstd::seq_lib::lemma_seq_contains_after_push;
        }
        self.claimed.push(id);
        Some(PeripheralHandle { res_id: id })
    }
}

/// Resource exclusivity at the ownership-transfer boundary: once a claim for
/// a resource has been granted, a second claim for the same resource is
/// always refused.
pub proof fn lemma_claim_exclusive(claimed: Seq<u16>, id: u16)
    requires
        grants(claimed, id),
    ensures
        !grants(after_claim(claimed, id), id),
{
    assert(after_claim(claimed, id)[claimed.len() as int] == id);
}

} // verus!
