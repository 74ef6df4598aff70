//! The scene store: the host-owned mutable aggregate holding every
//! simulation entity the host tracks, together with the input state the
//! engine feeds in each frame.
//!
//! The store is the value that the lend/reclaim protocol hands to the
//! module for the duration of one export call.  Entity handles are
//! allocated from a counter that never steps back, so a handle is never
//! reused, not even across a full clear.

use vstd::prelude::*;

use crate::abi::{Entity, PointLight, RawAssetKey, RawEntity, Rgba, Shape, StableTransform};

verus! {

/// What kind of object an entity record stands for.
#[derive(Clone, Copy, PartialEq, Eq, Debug, Structural)]
pub enum EntityKind {
    /// An entity with no attachments.
    Empty,
    /// A mesh of the given shape with a flat color.
    ColorMesh(Shape, Rgba),
    /// A mesh of the given shape with a texture attached.
    ImageMesh(Shape),
    /// A point light.
    Light(PointLight),
    /// A camera.
    Camera,
    /// A one-shot audio playback of the asset under the given key.
    AudioPlayer(RawAssetKey),
}

/// One object in the scene store.
#[derive(Clone, Copy, PartialEq, Eq, Debug, Structural)]
pub struct EntityRecord {
    /// The entity's handle, unique within the store's whole history.
    pub id: RawEntity,
    /// What the entity stands for.
    pub kind: EntityKind,
    /// The entity's positional state, if it has any.
    pub transform: Option<StableTransform>,
    /// Whether a full scene clear despawns this entity.  One-shot audio
    /// entities are not registered; everything else is.
    pub registered: bool,
}

/// The host-owned scene aggregate.
pub struct SceneStore {
    /// The live entity records, with pairwise distinct ids.
    pub entities: Vec<EntityRecord>,
    /// The next entity id to hand out; all live ids lie below it.
    pub next_entity: RawEntity,
    /// Key codes the engine currently reports as held down.
    pub pressed: Vec<u32>,
}

impl SceneStore {
    /// No two records share an id.
    pub open spec fn ids_distinct(self) -> bool {
        forall|i: int, j: int|
            0 <= i < j < self.entities@.len() ==> self.entities@[i].id != self.entities@[j].id
    }

    /// Every id was handed out by the counter.
    pub open spec fn ids_bounded(self) -> bool {
        forall|i: int| 0 <= i < self.entities@.len() ==> self.entities@[i].id < self.next_entity
    }

    /// Well-formedness: established by `new`, preserved by every
    /// operation.
    pub open spec fn wf(self) -> bool {
        self.ids_distinct() && self.ids_bounded()
    }

    /// Whether some record carries the given id.
    pub open spec fn contains_id(self, id: RawEntity) -> bool {
        exists|i: int| 0 <= i < self.entities@.len() && self.entities@[i].id == id
    }

    /// Index of the record carrying the given id (unique when the ids
    /// are distinct).
    pub open spec fn index_of(self, id: RawEntity) -> int {
        choose|i: int| 0 <= i < self.entities@.len() && self.entities@[i].id == id
    }

    /// The record carrying the given id.
    pub open spec fn record_of(self, id: RawEntity) -> EntityRecord {
        self.entities@[self.index_of(id)]
    }

    /// The transform of the entity with the given id, if the entity is
    /// live and has one.
    pub open spec fn transform_of(self, id: RawEntity) -> Option<StableTransform> {
        if self.contains_id(id) {
            self.record_of(id).transform
        } else {
            None
        }
    }

    /// The ids of the registered entities: what a full clear despawns.
    pub open spec fn registered_ids(self) -> Set<RawEntity> {
        Set::new(|id: RawEntity| self.contains_id(id) && self.record_of(id).registered)
    }

    /// With distinct ids, the record at position `i` is the one that
    /// `record_of` returns for its id.
    pub proof fn lemma_record_at(self, i: int)
        requires
            self.ids_distinct(),
            0 <= i < self.entities@.len(),
        ensures
            self.contains_id(self.entities@[i].id),
            self.index_of(self.entities@[i].id) == i,
            self.record_of(self.entities@[i].id) == self.entities@[i],
    {
        let id = self.entities@[i].id;
        assert(self.contains_id(id));
        let j = self.index_of(id);
        assert(0 <= j < self.entities@.len() && self.entities@[j].id == id);
        if i < j {
            assert(self.entities@[i].id != self.entities@[j].id);
        } else if j < i {
            assert(self.entities@[j].id != self.entities@[i].id);
        }
    }

    /// An empty store whose counter starts at zero.
    pub fn new() -> (r: SceneStore)
        ensures
            r.wf(),
            r.entities@.len() == 0,
            r.next_entity == 0,
            r.pressed@.len() == 0,
            forall|id: RawEntity| !r.contains_id(id),
    {
        SceneStore { entities: Vec::new(), next_entity: 0, pressed: Vec::new() }
    }

    /// Position of the record carrying `id`, if any.
    pub fn find(&self, id: RawEntity) -> (r: Option<usize>)
        requires
            self.wf(),
        ensures
            match r {
                Some(i) => i < self.entities@.len() && self.entities@[i as int].id == id
                    && self.contains_id(id) && self.index_of(id) == i as int,
                None => !self.contains_id(id),
            },
    {
        let n = self.entities.len();
        let mut i: usize = 0;
        while i < n
            invariant
                n == self.entities@.len(),
                i <= n,
                self.wf(),
                forall|j: int| 0 <= j < i ==> self.entities@[j].id != id,
            decreases n - i,
        {
            if self.entities[i].id == id {
                proof {
                    self.lemma_record_at(i as int);
                }
                return Some(i);
            }
            i = i + 1;
        }
        None
    }

    /// Creates a new entity and returns its fresh handle.
    pub fn spawn(
        &mut self,
        kind: EntityKind,
        transform: Option<StableTransform>,
        registered: bool,
    ) -> (r: Entity)
        requires
            old(self).wf(),
            old(self).next_entity < RawEntity::MAX,
        ensures
            final(self).wf(),
            r.0 == old(self).next_entity,
            !old(self).contains_id(r.0),
            final(self).next_entity == old(self).next_entity + 1,
            final(self).entities@ == old(self).entities@.push(
                EntityRecord { id: r.0, kind: kind, transform: transform, registered: registered },
            ),
            final(self).pressed == old(self).pressed,
            final(self).contains_id(r.0),
            final(self).record_of(r.0) == (EntityRecord {
                id: r.0,
                kind: kind,
                transform: transform,
                registered: registered,
            }),
            forall|id: RawEntity|
                id != r.0 ==> final(self).contains_id(id) == old(self).contains_id(id),
            forall|id: RawEntity|
                id != r.0 && old(self).contains_id(id) ==> final(self).record_of(id) == old(
                    self,
                ).record_of(id),
    {
        let id = self.next_entity;
        proof {
            if self.contains_id(id) {
                let i = self.index_of(id);
                assert(self.entities@[i].id < self.next_entity);
            }
        }
        let record = EntityRecord { id: id, kind: kind, transform: transform, registered: registered };
        self.entities.push(record);
        self.next_entity = self.next_entity + 1;
        proof {
            let post = *self;
            let pre_len = post.entities@.len() - 1;
            assert forall|i: int, j: int|
                0 <= i < j < post.entities@.len() implies post.entities@[i].id
                != post.entities@[j].id by {
                if j < pre_len + 1 && i < pre_len && j < pre_len {
                } else if j == pre_len {
                    assert(post.entities@[j].id == id);
                }
            }
            post.lemma_record_at(pre_len);
            assert forall|other: RawEntity|
                other != id && post.contains_id(other) implies old(self).contains_id(other)
                && post.record_of(other) == old(self).record_of(other) by {
                let i = post.index_of(other);
                assert(post.entities@[i].id == other);
                assert(i < pre_len);
                assert(old(self).entities@[i].id == other);
                old(self).lemma_record_at(i);
                post.lemma_record_at(i);
            }
            assert forall|other: RawEntity|
                other != id && old(self).contains_id(other) implies post.contains_id(other) by {
                let i = old(self).index_of(other);
                assert(post.entities@[i].id == other);
            }
        }
        Entity(id)
    }

    /// Removes the entity with the given id; does nothing when no such
    /// entity is live.
    pub fn despawn(&mut self, id: RawEntity)
        requires
            old(self).wf(),
        ensures
            final(self).wf(),
            !final(self).contains_id(id),
            final(self).next_entity == old(self).next_entity,
            final(self).pressed == old(self).pressed,
            forall|other: RawEntity|
                other != id ==> final(self).contains_id(other) == old(self).contains_id(other),
            forall|other: RawEntity|
                other != id && old(self).contains_id(other) ==> final(self).record_of(other)
                    == old(self).record_of(other),
    {
        let found = self.find(id);
        match found {
            None => {},
            Some(i) => {
                let ghost pre = *self;
                self.entities.swap_remove(i);
                proof {
                    let post = *self;
                    let n = pre.entities@.len();
                    // swap_remove moves the last record into place i and
                    // drops the last slot.
                    assert(post.entities@ == pre.entities@.update(
                        i as int,
                        pre.entities@[n - 1],
                    ).drop_last());
                    assert forall|a: int, b: int|
                        0 <= a < b < post.entities@.len() implies post.entities@[a].id
                        != post.entities@[b].id by {
                        let pa = if a == i as int { n - 1 } else { a };
                        let pb = if b == i as int { n - 1 } else { b };
                        assert(post.entities@[a] == pre.entities@[pa]);
                        assert(post.entities@[b] == pre.entities@[pb]);
                    }
                    if post.contains_id(id) {
                        let k = post.index_of(id);
                        let pk = if k == i as int { n - 1 } else { k };
                        assert(pre.entities@[pk].id == id);
                        if pk != i as int {
                            assert(pre.entities@[i as int].id == id);
                        }
                    }
                    assert forall|other: RawEntity|
                        other != id && post.contains_id(other) implies pre.contains_id(other)
                        && post.record_of(other) == pre.record_of(other) by {
                        let k = post.index_of(other);
                        let pk = if k == i as int { n - 1 } else { k };
                        assert(post.entities@[k] == pre.entities@[pk]);
                        pre.lemma_record_at(pk);
                        post.lemma_record_at(k);
                    }
                    assert forall|other: RawEntity|
                        other != id && pre.contains_id(other) implies post.contains_id(other) by {
                        let pk = pre.index_of(other);
                        if pk == i as int {
                            assert(false);
                        } else if pk == n - 1 {
                            if (i as int) < n - 1 {
                                assert(post.entities@[i as int] == pre.entities@[pk]);
                            }
                        } else {
                            assert(post.entities@[pk] == pre.entities@[pk]);
                        }
                    }
                }
            },
        }
    }

    /// Reads the transform of the entity with the given id.
    pub fn get_transform(&self, id: RawEntity) -> (r: Option<StableTransform>)
        requires
            self.wf(),
        ensures
            r == self.transform_of(id),
    {
        let found = self.find(id);
        match found {
            None => None,
            Some(i) => self.entities[i].transform,
        }
    }

    /// Replaces the transform of the entity with the given id, which
    /// must be live and already have one.
    pub fn set_transform(&mut self, id: RawEntity, t: StableTransform)
        requires
            old(self).wf(),
            old(self).transform_of(id) is Some,
        ensures
            final(self).wf(),
            final(self).next_entity == old(self).next_entity,
            final(self).pressed == old(self).pressed,
            final(self).entities@ == old(self).entities@.update(
                old(self).index_of(id),
                EntityRecord { transform: Some(t), ..old(self).record_of(id) },
            ),
            forall|other: RawEntity|
                final(self).contains_id(other) == old(self).contains_id(other),
            final(self).record_of(id) == (EntityRecord { transform: Some(t), ..old(self).record_of(id) }),
            forall|other: RawEntity|
                other != id && old(self).contains_id(other) ==> final(self).record_of(other)
                    == old(self).record_of(other),
    {
        let found = self.find(id);
        match found {
            None => {
                proof {
                    assert(false);
                }
            },
            Some(i) => {
                let ghost pre = *self;
                let old_record = self.entities[i];
                let new_record = EntityRecord { transform: Some(t), ..old_record };
                self.entities.set(i, new_record);
                proof {
                    let post = *self;
                    let n = pre.entities@.len();
                    assert forall|a: int, b: int|
                        0 <= a < b < post.entities@.len() implies post.entities@[a].id
                        != post.entities@[b].id by {
                        assert(post.entities@[a].id == pre.entities@[a].id);
                        assert(post.entities@[b].id == pre.entities@[b].id);
                    }
                    assert forall|other: RawEntity|
                        post.contains_id(other) == pre.contains_id(other) by {
                        if post.contains_id(other) {
                            let k = post.index_of(other);
                            assert(pre.entities@[k].id == other);
                        }
                        if pre.contains_id(other) {
                            let k = pre.index_of(other);
                            assert(post.entities@[k].id == other);
                        }
                    }
                    post.lemma_record_at(i as int);
                    assert forall|other: RawEntity|
                        other != id && pre.contains_id(other) implies post.record_of(other)
                        == pre.record_of(other) by {
                        let k = pre.index_of(other);
                        pre.lemma_record_at(k);
                        assert(post.entities@[k] == pre.entities@[k]);
                        post.lemma_record_at(k);
                    }
                }
            },
        }
    }

    /// Removes every registered entity; unregistered entities and the id
    /// counter stay, so cleared ids are never handed out again.
    pub fn clear_registered(&mut self)
        requires
            old(self).wf(),
        ensures
            final(self).wf(),
            final(self).next_entity == old(self).next_entity,
            final(self).pressed == old(self).pressed,
            forall|id: RawEntity|
                final(self).contains_id(id) == (old(self).contains_id(id) && !old(
                    self,
                ).record_of(id).registered),
            forall|id: RawEntity|
                final(self).contains_id(id) ==> final(self).record_of(id) == old(self).record_of(
                    id,
                ),
            final(self).registered_ids() =~= Set::<RawEntity>::empty(),
    {
        let ghost pre = *self;
        let n = self.entities.len();
        let mut kept: Vec<EntityRecord> = Vec::new();
        let mut i: usize = 0;
        while i < n
            invariant
                n == pre.entities@.len(),
                i <= n,
                pre.wf(),
                self.entities@ == pre.entities@,
                kept@ == pre.entities@.subrange(0, i as int).filter(|r: EntityRecord| !r.registered),
            decreases n - i,
        {
            let record = self.entities[i];
            proof {
                assert(pre.entities@.subrange(0, i + 1 as int).drop_last() == pre.entities@.subrange(
                    0,
                    i as int,
                ));
                reveal(Seq::filter);
            }
            if !record.registered {
                kept.push(record);
            }
            i = i + 1;
        }
        proof {
            assert(pre.entities@.subrange(0, n as int) == pre.entities@);
        }
        self.entities = kept;
        proof {
            self.lemma_clear_registered_post(pre);
        }
    }

    /// Helper for `clear_registered`: relates the filtered sequence back to
    /// the original records.
    proof fn lemma_clear_registered_post(self, pre: SceneStore)
        requires
            pre.wf(),
            self.entities@ == pre.entities@.filter(|r: EntityRecord| !r.registered),
            self.next_entity == pre.next_entity,
        ensures
            self.wf(),
            forall|id: RawEntity|
                self.contains_id(id) == (pre.contains_id(id) && !pre.record_of(id).registered),
            forall|id: RawEntity|
                self.contains_id(id) ==> self.record_of(id) == pre.record_of(id),
            self.registered_ids() =~= Set::<RawEntity>::empty(),
    {
        let pred = |r: EntityRecord| !r.registered;
        let kept_seq = pre.entities@.filter(pred);
        assert forall|a: int, b: int|
            0 <= a < b < kept_seq.len() implies kept_seq[a].id != kept_seq[b].id by {
            seq_filter_distinct_ids(pre.entities@, pred, a, b);
        }
        assert forall|i: int|
            0 <= i < kept_seq.len() implies kept_seq[i].id < pre.next_entity by {
            seq_filter_element_from(pre.entities@, pred, i);
            let p = choose|p: int|
                0 <= p < pre.entities@.len() && pre.entities@[p] == kept_seq[i];
            assert(pre.entities@[p].id < pre.next_entity);
        }
        assert(self.wf());
        assert forall|id: RawEntity|
            self.contains_id(id) implies pre.contains_id(id) && !pre.record_of(id).registered
            && self.record_of(id) == pre.record_of(id) by {
            let k = self.index_of(id);
            seq_filter_element_from(pre.entities@, pred, k);
            let p = choose|p: int|
                0 <= p < pre.entities@.len() && pre.entities@[p] == kept_seq[k];
            pre.lemma_record_at(p);
            self.lemma_record_at(k);
        }
        assert forall|id: RawEntity|
            pre.contains_id(id) && !pre.record_of(id).registered implies self.contains_id(id) by {
            let p = pre.index_of(id);
            seq_filter_keeps_element(pre.entities@, pred, p);
            let k = choose|k: int| 0 <= k < kept_seq.len() && kept_seq[k] == pre.entities@[p];
            assert(self.entities@[k].id == id);
        }
    }

    /// Replaces the engine-fed input state.
    pub fn set_pressed(&mut self, pressed: Vec<u32>)
        ensures
            final(self).pressed == pressed,
            final(self).entities == old(self).entities,
            final(self).next_entity == old(self).next_entity,
            old(self).wf() ==> final(self).wf(),
    {
        self.pressed = pressed;
    }

    /// Whether the engine currently reports the given key code as held
    /// down.
    pub fn key_down(&self, code: u32) -> (r: bool)
        ensures
            r == self.pressed@.contains(code),
    {
        let n = self.pressed.len();
        let mut i: usize = 0;
        while i < n
            invariant
                n == self.pressed@.len(),
                i <= n,
                forall|j: int| 0 <= j < i ==> self.pressed@[j] != code,
            decreases n - i,
        {
            if self.pressed[i] == code {
                return true;
            }
            i = i + 1;
        }
        false
    }

    /// How many entities are live.
    pub fn num_entities(&self) -> (r: usize)
        ensures
            r == self.entities@.len(),
    {
        self.entities.len()
    }

    /// Transform round-trip: writing back the very transform an entity
    /// already has (as `set_transform` does when handed the snapshot
    /// `get_transform` returned) leaves the store bit-for-bit
    /// unchanged.
    pub proof fn lemma_set_transform_round_trip(pre: SceneStore, post: SceneStore, id: RawEntity)
        requires
            pre.wf(),
            pre.transform_of(id) is Some,
            post.entities@ == pre.entities@.update(
                pre.index_of(id),
                EntityRecord { transform: Some(pre.transform_of(id)->0), ..pre.record_of(id) },
            ),
            post.next_entity == pre.next_entity,
            post.pressed == pre.pressed,
        ensures
            post.entities@ == pre.entities@,
    {
        let i = pre.index_of(id);
        assert(pre.contains_id(id));
        assert(0 <= i < pre.entities@.len() && pre.entities@[i].id == id);
        let rec = pre.entities@[i];
        assert(EntityRecord { transform: Some(pre.transform_of(id)->0), ..pre.record_of(id) }
            == rec);
        assert(post.entities@ =~= pre.entities@);
    }
}

/// A member of a filtered sequence comes from the original sequence and
/// satisfies the predicate.
proof fn seq_filter_element_from(s: Seq<EntityRecord>, pred: spec_fn(EntityRecord) -> bool, k: int)
    requires
        0 <= k < s.filter(pred).len(),
    ensures
        pred(s.filter(pred)[k]),
        exists|p: int| 0 <= p < s.len() && s[p] == s.filter(pred)[k],
    decreases s.len(),
{
    reveal(Seq::filter);
    if s.len() > 0 {
        let last = s.last();
        let prefix = s.drop_last();
        if pred(last) {
            if k < s.filter(pred).len() - 1 {
                seq_filter_element_from(prefix, pred, k);
                let p = choose|p: int| 0 <= p < prefix.len() && prefix[p] == prefix.filter(pred)[k];
                assert(s[p] == s.filter(pred)[k]);
            } else {
                assert(s[s.len() - 1] == s.filter(pred)[k]);
            }
        } else {
            seq_filter_element_from(prefix, pred, k);
            let p = choose|p: int| 0 <= p < prefix.len() && prefix[p] == prefix.filter(pred)[k];
            assert(s[p] == s.filter(pred)[k]);
        }
    }
}

/// An element that satisfies the predicate survives filtering.
proof fn seq_filter_keeps_element(s: Seq<EntityRecord>, pred: spec_fn(EntityRecord) -> bool, p: int)
    requires
        0 <= p < s.len(),
        pred(s[p]),
    ensures
        exists|k: int| 0 <= k < s.filter(pred).len() && s.filter(pred)[k] == s[p],
    decreases s.len(),
{
    reveal(Seq::filter);
    if s.len() > 0 {
        let prefix = s.drop_last();
        if p == s.len() - 1 {
            assert(s.filter(pred)[s.filter(pred).len() - 1] == s[p]);
        } else {
            seq_filter_keeps_element(prefix, pred, p);
            let k = choose|k: int|
                0 <= k < prefix.filter(pred).len() && prefix.filter(pred)[k] == prefix[p];
            assert(s.filter(pred)[k] == s[p]);
        }
    }
}

/// Filtering a sequence of records with pairwise distinct ids keeps the
/// ids pairwise distinct.
proof fn seq_filter_distinct_ids(
    s: Seq<EntityRecord>,
    pred: spec_fn(EntityRecord) -> bool,
    a: int,
    b: int,
)
    requires
        forall|i: int, j: int| 0 <= i < j < s.len() ==> s[i].id != s[j].id,
        0 <= a < b < s.filter(pred).len(),
    ensures
        s.filter(pred)[a].id != s.filter(pred)[b].id,
    decreases s.len(),
{
    reveal(Seq::filter);
    if s.len() > 0 {
        let last = s.last();
        let prefix = s.drop_last();
        let f = s.filter(pred);
        if pred(last) {
            if b < f.len() - 1 {
                seq_filter_distinct_ids(prefix, pred, a, b);
            } else {
                // f[b] is the last element of s; f[a] comes from the prefix
                seq_filter_element_from(prefix, pred, a);
                let p = choose|p: int| 0 <= p < prefix.len() && prefix[p] == prefix.filter(pred)[a];
                assert(s[p].id != s[s.len() - 1].id);
            }
        } else {
            seq_filter_distinct_ids(prefix, pred, a, b);
        }
    }
}

} // verus!
