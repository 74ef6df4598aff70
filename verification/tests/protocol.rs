//! The ownership-transfer protocol and the import bridge, exercised
//! end to end with concrete stores.

use fk::abi::{
    Entity, Rgba, Shape, StableTransform, Vec3Bits, KEY_CODE_ARROW_UP, KEY_CODE_MAX,
    KEY_CODE_UNIDENTIFIED,
};
use fk::imports::{
    begin_mut_entity_transform, clear_world, despawn, drop_asset, finish_mut_entity_transform,
    key_pressed, load_audio_asset, mut_entity_transform, play_audio, spawn_color_mesh,
    spawn_empty, Host,
};
use fk::store::EntityKind;
use fk::lend::ProtocolViolation;
use fk::store::SceneStore;

fn fresh_host() -> Host {
    Host::new(SceneStore::new())
}

#[test]
fn lend_reclaim_balance() {
    let mut host = fresh_host();
    assert!(host.slot.lent_store.is_none());
    assert_eq!(host.lend(), Ok(()));
    assert!(host.slot.lent_store.is_some());
    assert!(host.slot.host_store.is_none());
    assert_eq!(host.reclaim(), Ok(()));
    assert!(host.slot.lent_store.is_none());
    assert!(host.slot.host_store.is_some());
}

#[test]
fn second_lend_is_refused() {
    let mut host = fresh_host();
    assert_eq!(host.lend(), Ok(()));
    assert_eq!(host.lend(), Err(ProtocolViolation::DoubleLend));
    assert_eq!(host.reclaim(), Ok(()));
    assert_eq!(host.reclaim(), Err(ProtocolViolation::ReclaimWithoutLend));
}

#[test]
fn import_outside_lend_is_refused() {
    let mut host = fresh_host();
    assert_eq!(spawn_empty(&mut host), Err(ProtocolViolation::ImportOutsideLend));
    assert_eq!(
        drop_asset(&mut host, 0),
        Err(ProtocolViolation::ImportOutsideLend)
    );
    assert_eq!(
        key_pressed(&host, KEY_CODE_ARROW_UP),
        Err(ProtocolViolation::ImportOutsideLend)
    );
}

#[test]
fn spawned_entities_get_fresh_ids() {
    let mut host = fresh_host();
    host.lend().unwrap();
    let a = spawn_empty(&mut host).unwrap();
    let b = spawn_empty(&mut host).unwrap();
    assert_ne!(a, b);
    assert_eq!(a, Entity(0));
    assert_eq!(b, Entity(1));
    host.reclaim().unwrap();
}

#[test]
fn despawn_removes_and_tolerates_missing() {
    let mut host = fresh_host();
    host.lend().unwrap();
    let a = spawn_empty(&mut host).unwrap();
    assert_eq!(host.store_ref().num_entities(), 1);
    assert_eq!(despawn(&mut host, a), Ok(()));
    assert_eq!(host.store_ref().num_entities(), 0);
    // a second despawn of the same id is a silent no-op
    assert_eq!(despawn(&mut host, a), Ok(()));
    host.reclaim().unwrap();
}

fn sample_transform() -> StableTransform {
    StableTransform {
        translation: Vec3Bits { x: 0x4000_0000, y: 0, z: 0xC000_0000 },
        rotation: fk::abi::QuatBits { x: 1, y: 2, z: 3, w: 4 },
        scale: Vec3Bits { x: 5, y: 6, z: 7 },
    }
}

#[test]
fn transform_round_trip_is_bit_for_bit() {
    let mut host = fresh_host();
    host.lend().unwrap();
    let t = sample_transform();
    let shape = Shape::Plane(1, 2);
    let e = spawn_color_mesh(&mut host, t, &shape, Rgba(1, 2, 3, 4)).unwrap();
    let snapshot = begin_mut_entity_transform(&host, e).unwrap();
    assert_eq!(snapshot, t);
    finish_mut_entity_transform(&mut host, e, &snapshot).unwrap();
    let again = begin_mut_entity_transform(&host, e).unwrap();
    assert_eq!(again, t);
    host.reclaim().unwrap();
}

#[test]
fn finish_applies_snapshot_verbatim() {
    let mut host = fresh_host();
    host.lend().unwrap();
    let e = spawn_color_mesh(
        &mut host,
        StableTransform::identity(),
        &Shape::Cuboid(Vec3Bits { x: 0, y: 0, z: 0 }),
        Rgba(0, 0, 0, 0),
    )
    .unwrap();
    let mutated = sample_transform();
    finish_mut_entity_transform(&mut host, e, &mutated).unwrap();
    assert_eq!(begin_mut_entity_transform(&host, e).unwrap(), mutated);
    host.reclaim().unwrap();
}

#[test]
fn transform_of_unknown_entity_is_fatal() {
    let mut host = fresh_host();
    host.lend().unwrap();
    assert_eq!(
        begin_mut_entity_transform(&host, Entity(99)),
        Err(ProtocolViolation::MissingEntityTransform)
    );
    let e = spawn_empty(&mut host).unwrap();
    // live, but without a transform
    assert_eq!(
        finish_mut_entity_transform(&mut host, e, &StableTransform::identity()),
        Err(ProtocolViolation::MissingEntityTransform)
    );
    host.reclaim().unwrap();
}

#[test]
fn asset_keys_are_never_reused() {
    let mut host = fresh_host();
    host.lend().unwrap();
    let a = load_audio_asset(&mut host, "sounds/a.wav").unwrap();
    let b = load_audio_asset(&mut host, "sounds/b.wav").unwrap();
    assert_ne!(a.0, b.0);
    assert_eq!(drop_asset(&mut host, a.0), Ok(()));
    let c = load_audio_asset(&mut host, "sounds/c.wav").unwrap();
    assert_ne!(c.0, a.0);
    assert_ne!(c.0, b.0);
    host.reclaim().unwrap();
}

#[test]
fn double_drop_is_fatal() {
    let mut host = fresh_host();
    host.lend().unwrap();
    let a = load_audio_asset(&mut host, "sounds/a.wav").unwrap();
    assert_eq!(drop_asset(&mut host, a.0), Ok(()));
    assert_eq!(drop_asset(&mut host, a.0), Err(ProtocolViolation::UnknownAssetKey));
    host.reclaim().unwrap();
}

#[test]
fn play_audio_needs_a_live_key() {
    let mut host = fresh_host();
    host.lend().unwrap();
    assert_eq!(
        play_audio(&mut host, fk::abi::AudioAsset(7)),
        Err(ProtocolViolation::UnknownAssetKey)
    );
    let a = load_audio_asset(&mut host, "sounds/a.wav").unwrap();
    let e = play_audio(&mut host, a).unwrap();
    assert_eq!(e, Entity(0));
    host.reclaim().unwrap();
}

#[test]
fn keys_issued_before_a_clear_stay_invalid() {
    let mut host = fresh_host();
    host.lend().unwrap();
    let a = load_audio_asset(&mut host, "sounds/a.wav").unwrap();
    host.reclaim().unwrap();
    clear_world(&mut host);
    host.lend().unwrap();
    assert_eq!(play_audio(&mut host, a), Err(ProtocolViolation::UnknownAssetKey));
    assert_eq!(drop_asset(&mut host, a.0), Err(ProtocolViolation::UnknownAssetKey));
    let b = load_audio_asset(&mut host, "sounds/b.wav").unwrap();
    assert_ne!(b.0, a.0);
    host.reclaim().unwrap();
}

#[test]
fn clear_world_despawns_registered_but_not_audio_entities() {
    let mut host = fresh_host();
    host.lend().unwrap();
    spawn_empty(&mut host).unwrap();
    let a = load_audio_asset(&mut host, "sounds/a.wav").unwrap();
    play_audio(&mut host, a).unwrap();
    host.reclaim().unwrap();
    assert_eq!(host.store_ref().num_entities(), 2);
    clear_world(&mut host);
    // the one-shot audio entity is not registered and survives the clear
    assert_eq!(host.store_ref().num_entities(), 1);
    assert_eq!(host.registry.num_live(), 0);
}

#[test]
fn key_pressed_validates_the_discriminant() {
    let mut store = SceneStore::new();
    store.set_pressed(vec![KEY_CODE_ARROW_UP]);
    let mut host = Host::new(store);
    host.lend().unwrap();
    assert_eq!(
        key_pressed(&host, KEY_CODE_UNIDENTIFIED),
        Err(ProtocolViolation::InvalidKeyCode)
    );
    assert_eq!(
        key_pressed(&host, KEY_CODE_MAX + 1),
        Err(ProtocolViolation::InvalidKeyCode)
    );
    assert_eq!(key_pressed(&host, KEY_CODE_MAX), Ok(false));
    assert_eq!(key_pressed(&host, KEY_CODE_ARROW_UP), Ok(true));
    // and reading a key has no side effects
    assert_eq!(host.store_ref().num_entities(), 0);
    assert_eq!(host.registry.num_live(), 0);
    host.reclaim().unwrap();
}

#[test]
fn exhausted_entity_counter_is_reported() {
    let store = SceneStore { entities: vec![], next_entity: u64::MAX, pressed: vec![] };
    let mut host = Host::new(store);
    host.lend().unwrap();
    assert_eq!(spawn_empty(&mut host), Err(ProtocolViolation::EntityIdsExhausted));
    host.reclaim().unwrap();
}

#[test]
fn exhausted_asset_counter_is_reported() {
    let mut host = fresh_host();
    host.registry.next_key = u64::MAX;
    host.lend().unwrap();
    assert_eq!(
        load_audio_asset(&mut host, "sounds/a.wav"),
        Err(ProtocolViolation::AssetKeysExhausted)
    );
    host.reclaim().unwrap();
}

#[test]
fn spawned_records_carry_their_descriptors() {
    let mut host = fresh_host();
    host.lend().unwrap();
    let t = StableTransform::from_xyz(1, 2, 3);
    let shape = Shape::Cuboid(Vec3Bits { x: 9, y: 9, z: 9 });
    let color = Rgba(10, 20, 30, 40);
    let e = spawn_color_mesh(&mut host, t, &shape, color).unwrap();
    host.reclaim().unwrap();
    let store = host.store_ref();
    assert_eq!(store.entities.len(), 1);
    let record = store.entities[0];
    assert_eq!(record.id, e.0);
    assert_eq!(record.kind, EntityKind::ColorMesh(shape, color));
    assert_eq!(record.transform, Some(t));
    assert!(record.registered);
}

#[test]
fn mut_entity_transform_overwrites_in_one_call() {
    let mut host = fresh_host();
    host.lend().unwrap();
    let e = spawn_color_mesh(
        &mut host,
        StableTransform::identity(),
        &Shape::Plane(0, 0),
        Rgba(0, 0, 0, 0),
    )
    .unwrap();
    let t = sample_transform();
    assert_eq!(mut_entity_transform(&mut host, e, t), Ok(()));
    assert_eq!(begin_mut_entity_transform(&host, e).unwrap(), t);
    assert_eq!(
        mut_entity_transform(&mut host, Entity(77), t),
        Err(ProtocolViolation::MissingEntityTransform)
    );
    host.reclaim().unwrap();
}
