//! The import bridge: the complete surface the module calls back into
//! the host through while an export call runs.
//!
//! Every import operates on whatever scene store currently occupies the
//! lend slot, so each one first checks that a lend is in progress;
//! calling an import outside a lend/reclaim bracket is a protocol
//! violation.  The holding slot is an explicit context argument rather
//! than ambient state, so each contract pins the whole effect down.

use vstd::prelude::*;
use vstd::string::StringExecFns;

use crate::abi::{
    key_code_valid, AudioAsset, Entity, PointLight, RawAssetKey, RawEntity, Rgba, Shape,
    StableTransform,
};
use crate::lend::{LendSlot, ProtocolViolation};
use crate::registry::AssetRegistry;
use crate::store::{EntityKind, EntityRecord, SceneStore};

verus! {

/// The host context every import implementation receives: the lend
/// slot pair and the asset registry.
pub struct Host {
    /// The two locations of the lend/reclaim protocol.
    pub slot: LendSlot,
    /// The asset-handle registry.
    pub registry: AssetRegistry,
}

impl Host {
    /// Both parts well formed.
    pub open spec fn wf(self) -> bool {
        self.slot.wf() && self.registry.wf()
    }

    /// A lend is in progress.
    pub open spec fn lent(self) -> bool {
        self.slot.lent()
    }

    /// The live scene store, wherever it currently sits.
    pub open spec fn store(self) -> SceneStore {
        self.slot.store()
    }

    /// A fresh host around the given store, with an empty registry and
    /// no lend in progress.
    pub fn new(store: SceneStore) -> (r: Host)
        ensures
            r.store() == store,
            !r.lent(),
            r.registry.entries@.len() == 0,
            r.registry.next_key == 0,
            store.wf() ==> r.wf(),
    {
        Host { slot: LendSlot::new(store), registry: AssetRegistry::new() }
    }

    /// Hands the scene store to the lend slot; see `LendSlot::lend`.
    pub fn lend(&mut self) -> (r: Result<(), ProtocolViolation>)
        requires
            old(self).wf(),
        ensures
            final(self).wf(),
            final(self).store() == old(self).store(),
            final(self).registry == old(self).registry,
            old(self).lent() ==> r == Err::<(), ProtocolViolation>(ProtocolViolation::DoubleLend)
                && *final(self) == *old(self),
            !old(self).lent() ==> r == Ok::<(), ProtocolViolation>(()) && final(self).lent()
                && LendSlot::lend_step(old(self).slot, final(self).slot),
    {
        self.slot.lend()
    }

    /// Read access to the live scene store, wherever it currently
    /// sits.
    pub fn store_ref(&self) -> (r: &SceneStore)
        requires
            self.wf(),
        ensures
            *r == self.store(),
    {
        match &self.slot.lent_store {
            Some(s) => s,
            None => match &self.slot.host_store {
                Some(s) => s,
                None => vstd::pervasive::unreached(),
            },
        }
    }

    /// Takes the scene store back; see `LendSlot::reclaim`.
    pub fn reclaim(&mut self) -> (r: Result<(), ProtocolViolation>)
        requires
            old(self).wf(),
        ensures
            final(self).wf(),
            final(self).store() == old(self).store(),
            final(self).registry == old(self).registry,
            !old(self).lent() ==> r == Err::<(), ProtocolViolation>(
                ProtocolViolation::ReclaimWithoutLend,
            ) && *final(self) == *old(self),
            old(self).lent() ==> r == Ok::<(), ProtocolViolation>(()) && !final(self).lent()
                && LendSlot::reclaim_step(old(self).slot, final(self).slot),
    {
        self.slot.reclaim()
    }
}

/// The effect every spawning import has on the host: one new record
/// appended to the lent store under a fresh id, everything else
/// untouched.
pub open spec fn spawn_effect(
    pre: Host,
    post: Host,
    id: RawEntity,
    kind: EntityKind,
    transform: Option<StableTransform>,
    registered: bool,
) -> bool {
    &&& id == pre.store().next_entity
    &&& !pre.store().contains_id(id)
    &&& post.store().contains_id(id)
    &&& post.store().record_of(id) == (EntityRecord {
        id: id,
        kind: kind,
        transform: transform,
        registered: registered,
    })
    &&& post.store().entities@ == pre.store().entities@.push(
        EntityRecord { id: id, kind: kind, transform: transform, registered: registered },
    )
    &&& post.store().next_entity == pre.store().next_entity + 1
    &&& post.store().pressed == pre.store().pressed
    &&& forall|other: RawEntity|
        other != id ==> post.store().contains_id(other) == pre.store().contains_id(other)
    &&& forall|other: RawEntity|
        other != id && pre.store().contains_id(other) ==> post.store().record_of(other)
            == pre.store().record_of(other)
    &&& post.registry == pre.registry
    &&& post.lent() && pre.lent()
}

/// Shared body of the spawning imports: checks the lend bracket and the
/// id budget, then creates the record in the lent store.
fn spawn_import(
    host: &mut Host,
    kind: EntityKind,
    transform: Option<StableTransform>,
    registered: bool,
) -> (r: Result<Entity, ProtocolViolation>)
    requires
        old(host).wf(),
    ensures
        final(host).wf(),
        final(host).lent() == old(host).lent(),
        !old(host).lent() ==> r == Err::<Entity, ProtocolViolation>(
            ProtocolViolation::ImportOutsideLend,
        ) && *final(host) == *old(host),
        old(host).lent() && old(host).store().next_entity == RawEntity::MAX ==> r == Err::<
            Entity,
            ProtocolViolation,
        >(ProtocolViolation::EntityIdsExhausted) && *final(host) == *old(host),
        old(host).lent() && old(host).store().next_entity < RawEntity::MAX ==> r is Ok
            && spawn_effect(*old(host), *final(host), r->Ok_0.0, kind, transform, registered),
{
    let taken = host.slot.lent_store.take();
    match taken {
        None => Err(ProtocolViolation::ImportOutsideLend),
        Some(mut store) => {
            if store.next_entity == RawEntity::MAX {
                host.slot.lent_store = Some(store);
                return Err(ProtocolViolation::EntityIdsExhausted);
            }
            let e = store.spawn(kind, transform, registered);
            host.slot.lent_store = Some(store);
            Ok(e)
        },
    }
}

/// Spawns an entity with no attachments.
pub fn spawn_empty(host: &mut Host) -> (r: Result<Entity, ProtocolViolation>)
    requires
        old(host).wf(),
    ensures
        final(host).wf(),
        final(host).lent() == old(host).lent(),
        !old(host).lent() ==> r == Err::<Entity, ProtocolViolation>(
            ProtocolViolation::ImportOutsideLend,
        ) && *final(host) == *old(host),
        old(host).lent() && old(host).store().next_entity == RawEntity::MAX ==> r == Err::<
            Entity,
            ProtocolViolation,
        >(ProtocolViolation::EntityIdsExhausted) && *final(host) == *old(host),
        old(host).lent() && old(host).store().next_entity < RawEntity::MAX ==> r is Ok
            && spawn_effect(*old(host), *final(host), r->Ok_0.0, EntityKind::Empty, None, true),
{
    spawn_import(host, EntityKind::Empty, None, true)
}

/// Spawns a mesh of the given shape with a flat color at the given
/// transform.
pub fn spawn_color_mesh(
    host: &mut Host,
    transform: StableTransform,
    shape: &Shape,
    color: Rgba,
) -> (r: Result<Entity, ProtocolViolation>)
    requires
        old(host).wf(),
    ensures
        final(host).wf(),
        final(host).lent() == old(host).lent(),
        !old(host).lent() ==> r == Err::<Entity, ProtocolViolation>(
            ProtocolViolation::ImportOutsideLend,
        ) && *final(host) == *old(host),
        old(host).lent() && old(host).store().next_entity == RawEntity::MAX ==> r == Err::<
            Entity,
            ProtocolViolation,
        >(ProtocolViolation::EntityIdsExhausted) && *final(host) == *old(host),
        old(host).lent() && old(host).store().next_entity < RawEntity::MAX ==> r is Ok
            && spawn_effect(
            *old(host),
            *final(host),
            r->Ok_0.0,
            EntityKind::ColorMesh(*shape, color),
            Some(transform),
            true,
        ),
{
    spawn_import(host, EntityKind::ColorMesh(*shape, color), Some(transform), true)
}

/// Spawns a mesh of the given shape that the renderer will texture with
/// an image supplied alongside.
pub fn spawn_image_mesh(host: &mut Host, transform: StableTransform, shape: Shape) -> (r: Result<
    Entity,
    ProtocolViolation,
>)
    requires
        old(host).wf(),
    ensures
        final(host).wf(),
        final(host).lent() == old(host).lent(),
        !old(host).lent() ==> r == Err::<Entity, ProtocolViolation>(
            ProtocolViolation::ImportOutsideLend,
        ) && *final(host) == *old(host),
        old(host).lent() && old(host).store().next_entity == RawEntity::MAX ==> r == Err::<
            Entity,
            ProtocolViolation,
        >(ProtocolViolation::EntityIdsExhausted) && *final(host) == *old(host),
        old(host).lent() && old(host).store().next_entity < RawEntity::MAX ==> r is Ok
            && spawn_effect(
            *old(host),
            *final(host),
            r->Ok_0.0,
            EntityKind::ImageMesh(shape),
            Some(transform),
            true,
        ),
{
    spawn_import(host, EntityKind::ImageMesh(shape), Some(transform), true)
}

/// Spawns a point light at the given transform.
pub fn spawn_point_light(host: &mut Host, transform: StableTransform, light: &PointLight) -> (r:
    Result<Entity, ProtocolViolation>)
    requires
        old(host).wf(),
    ensures
        final(host).wf(),
        final(host).lent() == old(host).lent(),
        !old(host).lent() ==> r == Err::<Entity, ProtocolViolation>(
            ProtocolViolation::ImportOutsideLend,
        ) && *final(host) == *old(host),
        old(host).lent() && old(host).store().next_entity == RawEntity::MAX ==> r == Err::<
            Entity,
            ProtocolViolation,
        >(ProtocolViolation::EntityIdsExhausted) && *final(host) == *old(host),
        old(host).lent() && old(host).store().next_entity < RawEntity::MAX ==> r is Ok
            && spawn_effect(
            *old(host),
            *final(host),
            r->Ok_0.0,
            EntityKind::Light(*light),
            Some(transform),
            true,
        ),
{
    spawn_import(host, EntityKind::Light(*light), Some(transform), true)
}

/// Spawns a camera at the given transform.
pub fn spawn_camera(host: &mut Host, transform: StableTransform) -> (r: Result<
    Entity,
    ProtocolViolation,
>)
    requires
        old(host).wf(),
    ensures
        final(host).wf(),
        final(host).lent() == old(host).lent(),
        !old(host).lent() ==> r == Err::<Entity, ProtocolViolation>(
            ProtocolViolation::ImportOutsideLend,
        ) && *final(host) == *old(host),
        old(host).lent() && old(host).store().next_entity == RawEntity::MAX ==> r == Err::<
            Entity,
            ProtocolViolation,
        >(ProtocolViolation::EntityIdsExhausted) && *final(host) == *old(host),
        old(host).lent() && old(host).store().next_entity < RawEntity::MAX ==> r is Ok
            && spawn_effect(
            *old(host),
            *final(host),
            r->Ok_0.0,
            EntityKind::Camera,
            Some(transform),
            true,
        ),
{
    spawn_import(host, EntityKind::Camera, Some(transform), true)
}

/// Destroys the entity.  Despawning an id that is not live is silently
/// ignored, as the engine only warns about it.
pub fn despawn(host: &mut Host, entity: Entity) -> (r: Result<(), ProtocolViolation>)
    requires
        old(host).wf(),
    ensures
        final(host).wf(),
        final(host).lent() == old(host).lent(),
        final(host).registry == old(host).registry,
        !old(host).lent() ==> r == Err::<(), ProtocolViolation>(
            ProtocolViolation::ImportOutsideLend,
        ) && *final(host) == *old(host),
        old(host).lent() ==> r == Ok::<(), ProtocolViolation>(())
            && !final(host).store().contains_id(entity.0)
            && final(host).store().next_entity == old(host).store().next_entity
            && final(host).store().pressed == old(host).store().pressed
            && (forall|other: RawEntity|
            other != entity.0 ==> final(host).store().contains_id(other) == old(host).store().contains_id(other))
            && (forall|other: RawEntity|
            other != entity.0 && old(host).store().contains_id(other) ==> final(host).store().record_of(other) == old(host).store().record_of(other)),
{
    let taken = host.slot.lent_store.take();
    match taken {
        None => Err(ProtocolViolation::ImportOutsideLend),
        Some(mut store) => {
            store.despawn(entity.0);
            host.slot.lent_store = Some(store);
            Ok(())
        },
    }
}

/// First half of the mandatory paired transform protocol: returns a
/// snapshot of the entity's current transform without changing
/// anything.  The entity must be live and have a transform.
pub fn begin_mut_entity_transform(host: &Host, entity: Entity) -> (r: Result<
    StableTransform,
    ProtocolViolation,
>)
    requires
        host.wf(),
    ensures
        !host.lent() ==> r == Err::<StableTransform, ProtocolViolation>(
            ProtocolViolation::ImportOutsideLend,
        ),
        host.lent() && host.store().transform_of(entity.0) is None ==> r == Err::<
            StableTransform,
            ProtocolViolation,
        >(ProtocolViolation::MissingEntityTransform),
        host.lent() && host.store().transform_of(entity.0) is Some ==> r == Ok::<
            StableTransform,
            ProtocolViolation,
        >(host.store().transform_of(entity.0)->0),
{
    match &host.slot.lent_store {
        None => Err(ProtocolViolation::ImportOutsideLend),
        Some(store) => {
            match store.get_transform(entity.0) {
                None => Err(ProtocolViolation::MissingEntityTransform),
                Some(t) => Ok(t),
            }
        },
    }
}

/// Second half of the paired protocol: applies the snapshot verbatim.
/// Skipping this call discards any local mutation; there is no
/// implicit commit.
pub fn finish_mut_entity_transform(host: &mut Host, entity: Entity, mutated: &StableTransform) -> (r:
    Result<(), ProtocolViolation>)
    requires
        old(host).wf(),
    ensures
        final(host).wf(),
        final(host).lent() == old(host).lent(),
        final(host).registry == old(host).registry,
        !old(host).lent() ==> r == Err::<(), ProtocolViolation>(
            ProtocolViolation::ImportOutsideLend,
        ) && *final(host) == *old(host),
        old(host).lent() && old(host).store().transform_of(entity.0) is None ==> r == Err::<
            (),
            ProtocolViolation,
        >(ProtocolViolation::MissingEntityTransform) && *final(host) == *old(host),
        old(host).lent() && old(host).store().transform_of(entity.0) is Some ==> r == Ok::<
            (),
            ProtocolViolation,
        >(()) && final(host).store().entities@ == old(host).store().entities@.update(
            old(host).store().index_of(entity.0),
            EntityRecord {
                transform: Some(*mutated),
                ..old(host).store().record_of(entity.0)
            },
        ) && final(host).store().contains_id(entity.0)
            && final(host).store().record_of(entity.0) == (EntityRecord {
            transform: Some(*mutated),
            ..old(host).store().record_of(entity.0)
        }) && final(host).store().next_entity == old(host).store().next_entity
            && final(host).store().pressed == old(host).store().pressed
            && (forall|other: RawEntity|
            final(host).store().contains_id(other) == old(host).store().contains_id(other))
            && (forall|other: RawEntity|
            other != entity.0 && old(host).store().contains_id(other) ==> final(host).store().record_of(other) == old(host).store().record_of(other)),
{
    let taken = host.slot.lent_store.take();
    match taken {
        None => Err(ProtocolViolation::ImportOutsideLend),
        Some(mut store) => {
            let has = store.get_transform(entity.0);
            match has {
                None => {
                    host.slot.lent_store = Some(store);
                    Err(ProtocolViolation::MissingEntityTransform)
                },
                Some(_) => {
                    store.set_transform(entity.0, *mutated);
                    host.slot.lent_store = Some(store);
                    Ok(())
                },
            }
        },
    }
}

/// Whether the key behind the given discriminant is currently held
/// down.  The discriminant must lie in the closed key-code enumeration
/// and must not be the "unidentified" sentinel; anything else is a
/// protocol violation, not a silent `false`.  No side effects.
pub fn key_pressed(host: &Host, key_code: u32) -> (r: Result<bool, ProtocolViolation>)
    requires
        host.wf(),
    ensures
        !key_code_valid(key_code) ==> r == Err::<bool, ProtocolViolation>(
            ProtocolViolation::InvalidKeyCode,
        ),
        key_code_valid(key_code) && !host.lent() ==> r == Err::<bool, ProtocolViolation>(
            ProtocolViolation::ImportOutsideLend,
        ),
        key_code_valid(key_code) && host.lent() ==> r == Ok::<bool, ProtocolViolation>(
            host.store().pressed@.contains(key_code),
        ),
{
    if !crate::abi::key_code_in_range(key_code) {
        return Err(ProtocolViolation::InvalidKeyCode);
    }
    match &host.slot.lent_store {
        None => Err(ProtocolViolation::ImportOutsideLend),
        Some(store) => Ok(store.key_down(key_code)),
    }
}

/// Loads the audio resource at `path` and registers a strong reference
/// for it: the returned key is fresh — not live now and never handed
/// out before.
pub fn load_audio_asset(host: &mut Host, path: &str) -> (r: Result<AudioAsset, ProtocolViolation>)
    requires
        old(host).wf(),
    ensures
        final(host).wf(),
        final(host).lent() == old(host).lent(),
        final(host).store() == old(host).store(),
        !old(host).lent() ==> r == Err::<AudioAsset, ProtocolViolation>(
            ProtocolViolation::ImportOutsideLend,
        ) && *final(host) == *old(host),
        old(host).lent() && old(host).registry.next_key == RawAssetKey::MAX ==> r == Err::<
            AudioAsset,
            ProtocolViolation,
        >(ProtocolViolation::AssetKeysExhausted) && *final(host) == *old(host),
        old(host).lent() && old(host).registry.next_key < RawAssetKey::MAX ==> r is Ok && ({
            let key = r->Ok_0.0;
            &&& key == old(host).registry.next_key
            &&& !old(host).registry.live(key)
            &&& final(host).registry.live(key)
            &&& final(host).registry.path_of(key) == path@
            &&& final(host).registry.next_key == old(host).registry.next_key + 1
            &&& forall|other: RawAssetKey|
                other != key ==> final(host).registry.live(other) == old(host).registry.live(other)
            &&& forall|other: RawAssetKey|
                other != key && old(host).registry.live(other) ==> final(host).registry.path_of(
                    other,
                ) == old(host).registry.path_of(other)
        }),
{
    if host.slot.lent_store.is_none() {
        return Err(ProtocolViolation::ImportOutsideLend);
    }
    if host.registry.next_key == RawAssetKey::MAX {
        return Err(ProtocolViolation::AssetKeysExhausted);
    }
    let owned = String::from_str(path);
    let key = host.registry.register(owned);
    Ok(AudioAsset(key))
}

/// Instantiates a one-shot playback entity for the asset under the
/// given key.  The key must be live; the playback entity is not
/// registered, so a full scene clear leaves it to the engine.
pub fn play_audio(host: &mut Host, asset: AudioAsset) -> (r: Result<Entity, ProtocolViolation>)
    requires
        old(host).wf(),
    ensures
        final(host).wf(),
        final(host).lent() == old(host).lent(),
        final(host).registry == old(host).registry,
        !old(host).lent() ==> r == Err::<Entity, ProtocolViolation>(
            ProtocolViolation::ImportOutsideLend,
        ) && *final(host) == *old(host),
        old(host).lent() && !old(host).registry.live(asset.0) ==> r == Err::<
            Entity,
            ProtocolViolation,
        >(ProtocolViolation::UnknownAssetKey) && *final(host) == *old(host),
        old(host).lent() && old(host).registry.live(asset.0) && old(host).store().next_entity
            == RawEntity::MAX ==> r == Err::<Entity, ProtocolViolation>(
            ProtocolViolation::EntityIdsExhausted,
        ) && *final(host) == *old(host),
        old(host).lent() && old(host).registry.live(asset.0) && old(host).store().next_entity
            < RawEntity::MAX ==> r is Ok && spawn_effect(
            *old(host),
            *final(host),
            r->Ok_0.0,
            EntityKind::AudioPlayer(asset.0),
            None,
            false,
        ),
{
    if host.slot.lent_store.is_none() {
        return Err(ProtocolViolation::ImportOutsideLend);
    }
    let found = host.registry.find(asset.0);
    if found.is_none() {
        return Err(ProtocolViolation::UnknownAssetKey);
    }
    spawn_import(host, EntityKind::AudioPlayer(asset.0), None, false)
}

/// Removes and releases the registry entry under the given key.  A key
/// that is not live — a double drop in particular — is a protocol
/// violation.
pub fn drop_asset(host: &mut Host, index: RawAssetKey) -> (r: Result<(), ProtocolViolation>)
    requires
        old(host).wf(),
    ensures
        final(host).wf(),
        final(host).lent() == old(host).lent(),
        final(host).store() == old(host).store(),
        !old(host).lent() ==> r == Err::<(), ProtocolViolation>(
            ProtocolViolation::ImportOutsideLend,
        ) && *final(host) == *old(host),
        old(host).lent() && !old(host).registry.live(index) ==> r == Err::<(), ProtocolViolation>(
            ProtocolViolation::UnknownAssetKey,
        ) && *final(host) == *old(host),
        old(host).lent() && old(host).registry.live(index) ==> r == Ok::<(), ProtocolViolation>(())
            && !final(host).registry.live(index) && final(host).registry.next_key == old(host).registry.next_key,
        forall|other: RawAssetKey|
            other != index ==> final(host).registry.live(other) == old(host).registry.live(other),
        forall|other: RawAssetKey|
            other != index && old(host).registry.live(other) ==> final(host).registry.path_of(
                other,
            ) == old(host).registry.path_of(other),
{
    if host.slot.lent_store.is_none() {
        return Err(ProtocolViolation::ImportOutsideLend);
    }
    host.registry.release(index)
}

/// Overwrites an entity's transform through the mandatory paired
/// protocol on the caller's behalf: read the snapshot, then write the
/// replacement back verbatim.
pub fn mut_entity_transform(host: &mut Host, e: Entity, t: StableTransform) -> (r: Result<
    (),
    ProtocolViolation,
>)
    requires
        old(host).wf(),
        old(host).lent(),
    ensures
        final(host).wf(),
        final(host).lent(),
        final(host).registry == old(host).registry,
        r is Err ==> r->Err_0 == ProtocolViolation::MissingEntityTransform && *final(host) == *old(
            host,
        ),
        r is Ok <==> old(host).store().transform_of(e.0) is Some,
        r is Ok ==> final(host).store().transform_of(e.0) == Some(t),
{
    match begin_mut_entity_transform(host, e) {
        Ok(_) => {},
        Err(v) => {
            return Err(v);
        },
    }
    let r = finish_mut_entity_transform(host, e, &t);
    proof {
        if r is Ok {
            assert(final(host).store().contains_id(e.0));
        }
    }
    r
}

/// Transform round-trip: `finish_mut_entity_transform(e,
/// begin_mut_entity_transform(e))` is a no-op.  `begin` returns the
/// entity's current transform and changes nothing; the premises below
/// are exactly `finish`'s effect when handed that snapshot back, and
/// under them the lent store is bit-for-bit unchanged.
pub proof fn lemma_transform_round_trip(pre: Host, post: Host, e: Entity)
    requires
        pre.wf(),
        pre.lent(),
        pre.store().transform_of(e.0) is Some,
        post.store().entities@ == pre.store().entities@.update(
            pre.store().index_of(e.0),
            EntityRecord {
                transform: Some(pre.store().transform_of(e.0)->0),
                ..pre.store().record_of(e.0)
            },
        ),
        post.store().next_entity == pre.store().next_entity,
        post.store().pressed == pre.store().pressed,
    ensures
        post.store().entities@ == pre.store().entities@,
{
    SceneStore::lemma_set_transform_round_trip(pre.store(), post.store(), e.0);
}

/// Full scene clear: despawns every registered entity and wipes the
/// asset registry, regardless of whether the module issued matching
/// drops.  Runs at the host's own location, so no lend may be in
/// progress.
pub fn clear_world(host: &mut Host)
    requires
        old(host).wf(),
        !old(host).lent(),
    ensures
        final(host).wf(),
        !final(host).lent(),
        final(host).store().registered_ids() =~= Set::<RawEntity>::empty(),
        final(host).registry.entries@.len() == 0,
        forall|key: RawAssetKey| !final(host).registry.live(key),
        final(host).registry.next_key == old(host).registry.next_key,
        final(host).store().next_entity == old(host).store().next_entity,
        final(host).store().pressed == old(host).store().pressed,
        forall|id: RawEntity|
            final(host).store().contains_id(id) == (old(host).store().contains_id(id) && !old(host).store().record_of(id).registered),
        forall|id: RawEntity|
            final(host).store().contains_id(id) ==> final(host).store().record_of(id) == old(host).store().record_of(id),
{
    let taken = host.slot.host_store.take();
    match taken {
        None => {
            proof {
                assert(false);
            }
        },
        Some(mut store) => {
            store.clear_registered();
            host.slot.host_store = Some(store);
        },
    }
    host.registry.wipe();
}

} // verus!
