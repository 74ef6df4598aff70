//! The ownership-transfer protocol for the scene store.
//!
//! The module cannot hold a genuine reference into host memory, so the
//! host lends the store by moving it between two locations: its own
//! location and a well-known slot the import bridge reads.  `None`
//! stands for the placeholder that occupies a location while the live
//! store is elsewhere.  A well-formed pair of locations holds exactly
//! one live store at any time; `lend` and `reclaim` move it across, and
//! both refuse (instead of corrupting the pair) when called out of
//! order.

use vstd::prelude::*;

use crate::store::SceneStore;

verus! {

/// A broken contract between host and module.  The host treats every
/// variant as fatal; the verified core reports it instead of panicking
/// and the embedding process aborts.
#[derive(Clone, Copy, PartialEq, Eq, Debug, Structural)]
pub enum ProtocolViolation {
    /// A second `lend` while one is outstanding.
    DoubleLend,
    /// `reclaim` with no lend in progress.
    ReclaimWithoutLend,
    /// An import call outside a lend/reclaim bracket.
    ImportOutsideLend,
    /// `play_audio` or `drop_asset` on a key that is not live.
    UnknownAssetKey,
    /// A transform operation on an entity that is missing or has no
    /// transform.
    MissingEntityTransform,
    /// `key_pressed` with the sentinel or an out-of-range discriminant.
    InvalidKeyCode,
    /// The entity-id counter is exhausted.
    EntityIdsExhausted,
    /// The asset-key counter is exhausted.
    AssetKeysExhausted,
}

/// The two locations of the lend/reclaim protocol.  `None` is the
/// placeholder.
pub struct LendSlot {
    /// The host's own location for the scene store.
    pub host_store: Option<SceneStore>,
    /// The well-known slot the import bridge operates on.
    pub lent_store: Option<SceneStore>,
}

impl LendSlot {
    /// A lend is in progress: the live store sits in the slot.
    pub open spec fn lent(self) -> bool {
        self.lent_store is Some
    }

    /// How many live stores the two locations hold together.
    pub open spec fn live_count(self) -> int {
        (if self.host_store is Some {
            1int
        } else {
            0int
        }) + (if self.lent_store is Some {
            1int
        } else {
            0int
        })
    }

    /// The live store, wherever it currently sits.
    pub open spec fn store(self) -> SceneStore {
        if self.lent_store is Some {
            self.lent_store->0
        } else {
            self.host_store->0
        }
    }

    /// Exactly one live store between the two locations, and that store
    /// well formed.
    pub open spec fn wf(self) -> bool {
        self.live_count() == 1 && self.store().wf()
    }

    /// What a successful `lend` does: the live store moves from the
    /// host's location into the slot; the placeholder is left behind.
    pub open spec fn lend_step(pre: LendSlot, post: LendSlot) -> bool {
        post.lent_store == pre.host_store && post.host_store is None
    }

    /// What a successful `reclaim` does: the live store moves back out
    /// of the slot; the placeholder returns to the slot.
    pub open spec fn reclaim_step(pre: LendSlot, post: LendSlot) -> bool {
        post.host_store == pre.lent_store && post.lent_store is None
    }

    /// Wraps a store into a fresh pair of locations with no lend in
    /// progress.
    pub fn new(store: SceneStore) -> (r: LendSlot)
        ensures
            r.host_store == Some(store),
            !r.lent(),
            r.store() == store,
            store.wf() ==> r.wf(),
    {
        LendSlot { host_store: Some(store), lent_store: None }
    }

    /// Hands the scene store to the slot for the duration of one export
    /// call.  A second lend while one is outstanding is a protocol
    /// violation and leaves both locations untouched.
    pub fn lend(&mut self) -> (r: Result<(), ProtocolViolation>)
        requires
            old(self).wf(),
        ensures
            final(self).wf(),
            final(self).store() == old(self).store(),
            old(self).lent() ==> r == Err::<(), ProtocolViolation>(ProtocolViolation::DoubleLend)
                && *final(self) == *old(self),
            !old(self).lent() ==> r == Ok::<(), ProtocolViolation>(())
                && LendSlot::lend_step(*old(self), *final(self)) && final(self).lent(),
    {
        if self.lent_store.is_some() {
            return Err(ProtocolViolation::DoubleLend);
        }
        let store = self.host_store.take();
        self.lent_store = store;
        Ok(())
    }

    /// Takes the scene store back out of the slot.  Reclaiming with no
    /// lend in progress is a protocol violation and leaves both
    /// locations untouched.
    pub fn reclaim(&mut self) -> (r: Result<(), ProtocolViolation>)
        requires
            old(self).wf(),
        ensures
            final(self).wf(),
            final(self).store() == old(self).store(),
            !old(self).lent() ==> r == Err::<(), ProtocolViolation>(
                ProtocolViolation::ReclaimWithoutLend,
            ) && *final(self) == *old(self),
            old(self).lent() ==> r == Ok::<(), ProtocolViolation>(())
                && LendSlot::reclaim_step(*old(self), *final(self)) && !final(self).lent(),
    {
        if self.lent_store.is_none() {
            return Err(ProtocolViolation::ReclaimWithoutLend);
        }
        let store = self.lent_store.take();
        self.host_store = store;
        Ok(())
    }
}

/// Lend/reclaim balance: the slot holds the placeholder before the
/// lend and after the matching reclaim, and exactly one live store at
/// all times in between.  `s0` is the state before the lend, `s1` the
/// state right after it, `mid` any well-formed lent state the import
/// calls inside the bracket produced (every import's contract
/// preserves `wf` and `lent`), and `s2` the state after the reclaim.
/// That a second lend inside the bracket must fail is the `DoubleLend`
/// clause of `lend`'s contract, which applies to `s1` and to `mid`
/// because they are lent.
pub proof fn lemma_lend_reclaim_balance(s0: LendSlot, s1: LendSlot, mid: LendSlot, s2: LendSlot)
    requires
        s0.wf(),
        !s0.lent(),
        LendSlot::lend_step(s0, s1),
        mid.wf(),
        mid.lent(),
        LendSlot::reclaim_step(mid, s2),
    ensures
        s1.lent(),
        s1.live_count() == 1,
        s1.store() == s0.store(),
        mid.live_count() == 1,
        !s2.lent(),
        s2.live_count() == 1,
        s2.store() == mid.store(),
        mid == s1 ==> s2 == s0,
{
}

} // verus!
