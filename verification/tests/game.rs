//! The demo game, the half-unit bit patterns, the grid texture, and
//! the per-frame driver.

use fk::abi::{Entity, KEY_CODE_ARROW_DOWN, KEY_CODE_ARROW_LEFT, KEY_CODE_ARROW_UP};
use fk::bits::half_to_bits;
use fk::def;
use fk::frame::run_frame;
use fk::game::{
    control_snake, deoccupy_cell, is_it_safe_to_there, place_at, setup, spawn_snake, update,
    Direction, DoWhat, Food, OccupiedCell, OccupiedCells, Pos, Snake, State, Who, FIXED_UPDATE_MS,
};
use fk::abi::{PointLight, Rgba, Shape, StableTransform, Vec3Bits};
use fk::imports::{load_audio_asset, spawn_color_mesh, spawn_point_light, Host};
use fk::loader::ModuleState;
use fk::reload::LiveReloadMessage;
use fk::store::SceneStore;
use fk::texture::grid_texture;
use fk::CELLS;

#[test]
fn half_unit_bit_patterns_are_exact() {
    assert_eq!(half_to_bits(0), 0x0000_0000);
    assert_eq!(half_to_bits(1), 0x3F00_0000); // 0.5
    assert_eq!(half_to_bits(2), 0x3F80_0000); // 1.0
    assert_eq!(half_to_bits(3), 0x3FC0_0000); // 1.5
    assert_eq!(half_to_bits(-3), 0xBFC0_0000); // -1.5
    assert_eq!(half_to_bits(6), 0x4040_0000); // 3.0
    assert_eq!(half_to_bits(10), 0x40A0_0000); // 5.0
    assert_eq!(half_to_bits(11), 0x40B0_0000); // 5.5
    assert_eq!(half_to_bits(22), 0x4130_0000); // 11.0
    assert_eq!(half_to_bits(-22), 0xC130_0000); // -11.0
    assert_eq!(half_to_bits(44), 0x41B0_0000); // 22.0
    assert_eq!(half_to_bits(66), 0x4204_0000); // 33.0
}

#[test]
fn half_unit_bit_patterns_match_ieee754() {
    for n in -2000i32..2000i32 {
        let expected = ((n as f32) / 2.0).to_bits();
        assert_eq!(half_to_bits(n), expected);
    }
    assert_eq!(half_to_bits(0x00ff_ffff), (8388607.5f32).to_bits());
    assert_eq!(half_to_bits(-0x00ff_ffff), (-8388607.5f32).to_bits());
}

#[test]
fn cell_placement_is_the_expected_point() {
    let t = place_at(Pos { x: 0, y: 0 });
    // (-1.5, 0.0, 1.5), identity rotation, unit scale
    assert_eq!(t.translation.x, 0xBFC0_0000);
    assert_eq!(t.translation.y, 0x0000_0000);
    assert_eq!(t.translation.z, 0x3FC0_0000);
    assert_eq!(t.rotation.w, 0x3F80_0000);
    assert_eq!(t.scale.x, 0x3F80_0000);
    let t2 = place_at(Pos { x: 4, y: 2 });
    assert_eq!(t2.translation.x, (-3.5f32).to_bits());
    assert_eq!(t2.translation.z, (5.5f32).to_bits());
}

#[test]
fn grid_texture_is_a_white_ring() {
    let data = grid_texture();
    assert_eq!(data.len(), 22 * 22 * 4);
    let texel = |x: usize, y: usize| -> [u8; 4] {
        let base = (y * 22 + x) * 4;
        [data[base], data[base + 1], data[base + 2], data[base + 3]]
    };
    assert_eq!(texel(0, 0), [255, 255, 255, 255]);
    assert_eq!(texel(21, 0), [255, 255, 255, 255]);
    assert_eq!(texel(0, 21), [255, 255, 255, 255]);
    assert_eq!(texel(21, 21), [255, 255, 255, 255]);
    assert_eq!(texel(10, 0), [255, 255, 255, 255]);
    assert_eq!(texel(0, 10), [255, 255, 255, 255]);
    assert_eq!(texel(21, 10), [255, 255, 255, 255]);
    assert_eq!(texel(10, 21), [255, 255, 255, 255]);
    assert_eq!(texel(1, 1), [0, 0, 0, 0]);
    assert_eq!(texel(10, 10), [0, 0, 0, 0]);
    assert_eq!(texel(20, 20), [0, 0, 0, 0]);
}

#[test]
fn safety_check_covers_bounds_and_claims() {
    let occ = vec![
        OccupiedCell { pos: Pos { x: 3, y: 4 }, by_whom: Who::Snake },
        OccupiedCell { pos: Pos { x: 5, y: 6 }, by_whom: Who::Food },
    ];
    // off the grid
    assert!(!is_it_safe_to_there(DoWhat::Move, Pos { x: -1, y: 0 }, &occ));
    assert!(!is_it_safe_to_there(DoWhat::Move, Pos { x: 0, y: CELLS as i32 }, &occ));
    // free cell
    assert!(is_it_safe_to_there(DoWhat::Move, Pos { x: 0, y: 0 }, &occ));
    assert!(is_it_safe_to_there(DoWhat::Spawn, Pos { x: 0, y: 0 }, &occ));
    // a snake blocks both moving and spawning
    assert!(!is_it_safe_to_there(DoWhat::Move, Pos { x: 3, y: 4 }, &occ));
    assert!(!is_it_safe_to_there(DoWhat::Spawn, Pos { x: 3, y: 4 }, &occ));
    // food can be moved onto but not spawned onto
    assert!(is_it_safe_to_there(DoWhat::Move, Pos { x: 5, y: 6 }, &occ));
    assert!(!is_it_safe_to_there(DoWhat::Spawn, Pos { x: 5, y: 6 }, &occ));
}

#[test]
fn deoccupy_removes_the_first_claim_only() {
    let mut occ = vec![
        OccupiedCell { pos: Pos { x: 1, y: 1 }, by_whom: Who::Snake },
        OccupiedCell { pos: Pos { x: 2, y: 2 }, by_whom: Who::Food },
    ];
    assert!(deoccupy_cell(&mut occ, Pos { x: 1, y: 1 }));
    assert_eq!(occ.len(), 1);
    assert_eq!(occ[0].pos, Pos { x: 2, y: 2 });
    assert!(!deoccupy_cell(&mut occ, Pos { x: 1, y: 1 }));
    assert_eq!(occ.len(), 1);
}

fn lent_host_with_keys(pressed: Vec<u32>) -> Host {
    let mut store = SceneStore::new();
    store.set_pressed(pressed);
    let mut host = Host::new(store);
    host.lend().unwrap();
    host
}

fn one_snake() -> Vec<Snake> {
    vec![Snake {
        entity: Entity(100),
        parts: vec![],
        direction: Direction::Right,
        next_direction: Direction::Right,
    }]
}

#[test]
fn steering_ignores_reversals() {
    let host = lent_host_with_keys(vec![KEY_CODE_ARROW_UP]);
    let mut snakes = one_snake();
    control_snake(&mut snakes, &host);
    assert_eq!(snakes[0].next_direction, Direction::Up);

    // heading up, the down arrow must not reverse the snake
    let host2 = lent_host_with_keys(vec![KEY_CODE_ARROW_DOWN]);
    let mut snakes2 = vec![Snake {
        entity: Entity(100),
        parts: vec![],
        direction: Direction::Up,
        next_direction: Direction::Up,
    }];
    control_snake(&mut snakes2, &host2);
    assert_eq!(snakes2[0].next_direction, Direction::Up);

    let host3 = lent_host_with_keys(vec![]);
    let mut snakes3 = one_snake();
    control_snake(&mut snakes3, &host3);
    assert_eq!(snakes3[0].next_direction, Direction::Right);
}

#[test]
fn steering_priority_follows_the_check_order() {
    // up and left held together: left is checked later, but a snake
    // heading right cannot turn left, so up wins
    let host = lent_host_with_keys(vec![KEY_CODE_ARROW_UP, KEY_CODE_ARROW_LEFT]);
    let mut snakes = one_snake();
    control_snake(&mut snakes, &host);
    assert_eq!(snakes[0].next_direction, Direction::Up);

    // heading up, both turns are legal and the later check wins
    let host2 = lent_host_with_keys(vec![KEY_CODE_ARROW_UP, KEY_CODE_ARROW_LEFT]);
    let mut snakes2 = vec![Snake {
        entity: Entity(100),
        parts: vec![],
        direction: Direction::Up,
        next_direction: Direction::Up,
    }];
    control_snake(&mut snakes2, &host2);
    assert_eq!(snakes2[0].next_direction, Direction::Left);
}

#[test]
fn setup_builds_the_expected_scene() {
    let mut host = Host::new(SceneStore::new());
    host.lend().unwrap();
    let state = setup(&mut host).unwrap();
    assert_eq!(state.snakes.len(), 1);
    assert_eq!(state.snakes[0].parts.len(), 3);
    assert_eq!(state.snakes[0].parts[0].pos, Pos { x: 2, y: 0 });
    assert_eq!(state.food.len(), 1);
    assert!(state.food[0].pos.x >= 0 && state.food[0].pos.x < CELLS as i32);
    assert!(state.food[0].pos.y >= 0 && state.food[0].pos.y < CELLS as i32);
    assert_eq!(state.since_last_fixed_update_ms, 0);
    // grid, camera, light, snake marker, 3 segments, food body, food light
    assert_eq!(host.store_ref().num_entities(), 9);
    assert_eq!(host.registry.num_live(), 1);
    host.reclaim().unwrap();
}

#[test]
fn food_placement_is_not_stuck_in_one_corner() {
    // with a free board the random draw decides the cell; a draw that
    // ignored its bound would fall back to the same first free cell
    // every time
    let mut host = Host::new(SceneStore::new());
    host.lend().unwrap();
    let mut positions: Vec<Pos> = Vec::new();
    for _ in 0..100 {
        let state = setup(&mut host).unwrap();
        let p = state.food[0].pos;
        assert!(p.x >= 0 && p.x < CELLS as i32 && p.y >= 0 && p.y < CELLS as i32);
        positions.push(p);
    }
    assert!(positions.iter().any(|p| *p != positions[0]));
    host.reclaim().unwrap();
}

#[test]
fn update_waits_for_the_fixed_step() {
    let mut host = Host::new(SceneStore::new());
    host.lend().unwrap();
    let mut state = setup(&mut host).unwrap();
    let head_before = state.snakes[0].parts[0].pos;
    assert_eq!(update(&mut state, &mut host, 100), Ok(false));
    assert_eq!(state.since_last_fixed_update_ms, 100);
    assert_eq!(state.snakes[0].parts[0].pos, head_before);
    assert_eq!(update(&mut state, &mut host, 150), Ok(false));
    assert_eq!(state.since_last_fixed_update_ms, 250);
    assert_eq!(update(&mut state, &mut host, 60), Ok(true));
    assert_eq!(state.since_last_fixed_update_ms, 0);
    host.reclaim().unwrap();
}

#[test]
fn snake_advances_on_a_fixed_step() {
    let mut host = Host::new(SceneStore::new());
    host.lend().unwrap();
    let mut state = setup(&mut host).unwrap();
    assert_eq!(state.snakes[0].parts[0].pos, Pos { x: 2, y: 0 });
    assert_eq!(update(&mut state, &mut host, FIXED_UPDATE_MS), Ok(true));
    assert_eq!(state.snakes[0].parts[0].pos, Pos { x: 3, y: 0 });
    assert!(state.snakes[0].parts.len() >= 3);
    host.reclaim().unwrap();
}

#[test]
fn snake_dies_at_the_wall() {
    let mut host = Host::new(SceneStore::new());
    host.lend().unwrap();
    let mut state = setup(&mut host).unwrap();
    // head starts at x = 2 heading right: the wall is 18 steps away
    for _ in 0..17 {
        assert_eq!(update(&mut state, &mut host, FIXED_UPDATE_MS), Ok(true));
    }
    assert_eq!(state.snakes.len(), 1);
    assert_eq!(state.snakes[0].parts[0].pos, Pos { x: 19, y: 0 });
    assert_eq!(update(&mut state, &mut host, FIXED_UPDATE_MS), Ok(true));
    assert_eq!(state.snakes.len(), 0);
    host.reclaim().unwrap();
}

#[test]
fn default_values_come_out_zeroed() {
    let n: u64 = def();
    assert_eq!(n, 0);
    let v: Vec<u8> = def();
    assert!(v.is_empty());
    let o: Option<u32> = def();
    assert_eq!(o, None);
}

#[test]
fn frame_driver_runs_setup_then_updates() {
    let mut host = Host::new(SceneStore::new());
    let mut module = ModuleState::Unloaded;
    let mut game: Option<State> = None;

    // nothing loaded, nothing pending: the frame is a no-op
    assert_eq!(run_frame(&mut host, &mut module, &mut game, &vec![], 16), Ok(()));
    assert!(game.is_none());
    assert_eq!(host.store_ref().num_entities(), 0);

    // a successful rebuild loads the module; setup runs on that frame
    let msgs = vec![LiveReloadMessage::Success];
    assert_eq!(run_frame(&mut host, &mut module, &mut game, &msgs, 16), Ok(()));
    assert_eq!(module, ModuleState::Loaded { setup_called: true });
    assert!(game.is_some());
    assert_eq!(host.store_ref().num_entities(), 9);
    assert!(host.slot.lent_store.is_none());

    // further frames only update
    assert_eq!(run_frame(&mut host, &mut module, &mut game, &vec![], 16), Ok(()));
    assert_eq!(host.store_ref().num_entities(), 9);

    // a failed rebuild unloads and idles
    let fail = vec![LiveReloadMessage::BuildFailure];
    assert_eq!(run_frame(&mut host, &mut module, &mut game, &fail, 16), Ok(()));
    assert_eq!(module, ModuleState::Unloaded);
    assert!(game.is_none());

    // a later success resets the scene and runs setup again
    let msgs2 = vec![LiveReloadMessage::Success];
    assert_eq!(run_frame(&mut host, &mut module, &mut game, &msgs2, 16), Ok(()));
    assert_eq!(host.store_ref().num_entities(), 9);
    assert_eq!(host.registry.num_live(), 1);
}

#[test]
fn spawn_snake_lays_out_the_top_row() {
    let mut host = Host::new(SceneStore::new());
    host.lend().unwrap();
    let mut snakes: Vec<Snake> = Vec::new();
    let mut occupied: OccupiedCells = Vec::new();
    spawn_snake(&mut snakes, &mut occupied, 4, &mut host).unwrap();
    assert_eq!(snakes.len(), 1);
    let s = &snakes[0];
    assert_eq!(s.parts.len(), 4);
    assert_eq!(s.parts[0].pos, Pos { x: 3, y: 0 });
    assert_eq!(s.parts[3].pos, Pos { x: 0, y: 0 });
    assert!(s.parts.iter().all(|p| p.direction == Direction::Right));
    assert_eq!(occupied.len(), 4);
    assert!(occupied.iter().all(|c| c.pos.y == 0 && c.by_whom == Who::Snake));
    // the marker and one mesh per segment
    assert_eq!(host.store_ref().num_entities(), 5);
    host.reclaim().unwrap();
}

#[test]
fn eating_food_grows_the_snake_and_respawns_food() {
    let mut host = Host::new(SceneStore::new());
    host.lend().unwrap();

    let mut snakes: Vec<Snake> = Vec::new();
    let mut occupied: OccupiedCells = Vec::new();
    spawn_snake(&mut snakes, &mut occupied, 3, &mut host).unwrap();

    // put one piece of food right in front of the head, by hand
    let food_pos = Pos { x: 3, y: 0 };
    let body = spawn_color_mesh(
        &mut host,
        StableTransform::identity(),
        &Shape::Cuboid(Vec3Bits { x: 0, y: 0, z: 0 }),
        Rgba(255, 0, 0, 255),
    )
    .unwrap();
    let light = spawn_point_light(
        &mut host,
        StableTransform::identity(),
        &PointLight {
            intensity: 0,
            range: 0,
            shadows_enabled: false,
            shadow_depth_bias: 0,
            color: Rgba(255, 0, 0, 255),
        },
    )
    .unwrap();
    occupied.push(OccupiedCell { pos: food_pos, by_whom: Who::Food });
    let food_sound = load_audio_asset(&mut host, "sounds/smb_coin.wav").unwrap();

    let mut state = State {
        occupied_cells: occupied,
        snakes,
        food: vec![Food { entity: body, pos: food_pos, light }],
        food_sound,
        since_last_fixed_update_ms: 0,
    };
    // marker + 3 segments + food body + food light
    assert_eq!(host.store_ref().num_entities(), 6);

    assert_eq!(update(&mut state, &mut host, FIXED_UPDATE_MS), Ok(true));

    // the head reached the food; the snake grew one segment at the
    // cell the tail vacated, and a fresh piece of food exists
    let s = &state.snakes[0];
    assert_eq!(s.parts.len(), 4);
    assert_eq!(s.parts[0].pos, Pos { x: 3, y: 0 });
    assert_eq!(s.parts[3].pos, Pos { x: 0, y: 0 });
    assert_eq!(state.food.len(), 1);
    assert_ne!(state.food[0].entity, body);
    // two despawns, one audio playback, a fresh food pair, one new segment
    assert_eq!(host.store_ref().num_entities(), 8);
    assert_eq!(host.registry.num_live(), 1);
    host.reclaim().unwrap();
}
