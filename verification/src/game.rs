//! The demo game: a snake-and-food simulation that plays the role of
//! the loadable module.  It drives the host exclusively through the
//! import bridge, inside the lend/reclaim bracket the frame driver
//! opens around each export call.
//!
//! The game state is explicit — the frame driver owns it and hands it
//! to `setup` and `update` — and every position is an integer cell
//! coordinate; transforms handed to the host are derived from cells
//! through exact half-unit bit patterns.

use vstd::prelude::*;

use rand::Rng;

use crate::abi::{
    key_code_valid, AudioAsset, Entity, PointLight, QuatBits, Rgba, Shape, StableTransform, Vec3Bits, BITS_HALF,
    BITS_ONE, BITS_ZERO, KEY_CODE_ARROW_DOWN, KEY_CODE_ARROW_LEFT, KEY_CODE_ARROW_RIGHT,
    KEY_CODE_ARROW_UP,
};
use crate::bits::{bits_of_half, half_to_bits};
use crate::imports::{
    despawn, key_pressed, load_audio_asset, mut_entity_transform, play_audio, spawn_camera,
    spawn_color_mesh, spawn_empty, spawn_image_mesh, spawn_point_light, Host,
};
use crate::lend::ProtocolViolation;
use crate::CELLS;

verus! {

/// A cell coordinate.  Positions are signed so that movement past the
/// wall can be computed and rejected without wrapping.
#[derive(Clone, Copy, PartialEq, Eq, Debug, Structural)]
pub struct Pos {
    pub x: i32,
    pub y: i32,
}

/// A movement direction on the grid.
#[derive(Clone, Copy, PartialEq, Eq, Debug, Structural)]
pub enum Direction {
    Up,
    Down,
    Left,
    Right,
}

/// Who occupies a cell.
#[derive(Clone, Copy, PartialEq, Eq, Debug, Structural)]
pub enum Who {
    Snake,
    Food,
}

/// What the safety check is asked about: spawning into a cell or
/// moving into it.
#[derive(Clone, Copy, PartialEq, Eq, Debug, Structural)]
pub enum DoWhat {
    Move,
    Spawn,
}

/// One occupied cell.
#[derive(Clone, Copy, PartialEq, Eq, Debug, Structural)]
pub struct OccupiedCell {
    pub pos: Pos,
    pub by_whom: Who,
}

/// All occupied cells, in the order they were claimed.
pub type OccupiedCells = Vec<OccupiedCell>;

/// One segment of a snake.
#[derive(Clone, Copy, PartialEq, Eq, Debug, Structural)]
pub struct SnakePart {
    pub entity: Entity,
    pub direction: Direction,
    pub pos: Pos,
}

/// A snake: a marker entity, its segments, and the steering state.
/// The pair of directions prevents the player from turning back onto
/// themselves with two quick turns between updates.
pub struct Snake {
    pub entity: Entity,
    pub parts: Vec<SnakePart>,
    pub direction: Direction,
    pub next_direction: Direction,
}

/// One piece of food and the light above it.
#[derive(Clone, Copy, PartialEq, Eq, Debug, Structural)]
pub struct Food {
    pub entity: Entity,
    pub pos: Pos,
    pub light: Entity,
}

/// The whole game state the frame driver owns between updates.
pub struct State {
    pub occupied_cells: OccupiedCells,
    pub snakes: Vec<Snake>,
    pub food: Vec<Food>,
    pub food_sound: AudioAsset,
    /// Milliseconds accumulated since the last fixed update.
    pub since_last_fixed_update_ms: u64,
}

/// Milliseconds between fixed updates.
pub const FIXED_UPDATE_MS: u64 = 300;

/// Cell coordinates the half-unit placement can express safely.
pub open spec fn pos_in_placeable_range(pos: Pos) -> bool {
    -0x0040_0000 <= pos.x <= 0x0040_0000 && -0x0040_0000 <= pos.y <= 0x0040_0000
}

/// The world transform of a cell: its center on the ground plane, with
/// identity rotation and unit scale.
pub open spec fn place_spec(pos: Pos) -> StableTransform {
    StableTransform {
        translation: Vec3Bits {
            x: bits_of_half(-2 * pos.y - 3),
            y: BITS_ZERO,
            z: bits_of_half(2 * pos.x + 3),
        },
        rotation: QuatBits { x: BITS_ZERO, y: BITS_ZERO, z: BITS_ZERO, w: BITS_ONE },
        scale: Vec3Bits { x: BITS_ONE, y: BITS_ONE, z: BITS_ONE },
    }
}

/// Computes the world transform of a cell.
pub fn place_at(pos: Pos) -> (r: StableTransform)
    requires
        pos_in_placeable_range(pos),
    ensures
        r == place_spec(pos),
{
    proof {
        assert(-0x0100_0000 < -2 * (pos.y as int) - 3 < 0x0100_0000);
        assert(-0x0100_0000 < 2 * (pos.x as int) + 3 < 0x0100_0000);
    }
    let tx = half_to_bits(-2 * pos.y - 3);
    let tz = half_to_bits(2 * pos.x + 3);
    StableTransform {
        translation: Vec3Bits { x: tx, y: BITS_ZERO, z: tz },
        rotation: QuatBits::identity(),
        scale: Vec3Bits::splat(BITS_ONE),
    }
}

/// The cell lies on the playable grid.
pub open spec fn pos_in_bounds(pos: Pos) -> bool {
    0 <= pos.x < CELLS && 0 <= pos.y < CELLS
}

/// The first claim on a cell, in claim order, if any.
pub open spec fn first_hit(occ: Seq<OccupiedCell>, pos: Pos) -> Option<Who>
    decreases occ.len(),
{
    if occ.len() == 0 {
        None
    } else if occ[0].pos == pos {
        Some(occ[0].by_whom)
    } else {
        first_hit(occ.drop_first(), pos)
    }
}

/// Whether moving into (or spawning into) the cell is safe: it must
/// lie on the grid, and its first claimant, if any, decides — spawning
/// onto anything is unsafe, moving is unsafe onto a snake but safe
/// onto food.
pub open spec fn safe_spec(what: DoWhat, pos: Pos, occ: Seq<OccupiedCell>) -> bool {
    pos_in_bounds(pos) && match first_hit(occ, pos) {
        None => true,
        Some(w) => match what {
            DoWhat::Spawn => false,
            DoWhat::Move => w is Food,
        },
    }
}

/// Skipping a prefix with no claim on `pos` does not change the first
/// claim.
proof fn lemma_first_hit_skip(occ: Seq<OccupiedCell>, pos: Pos, i: int)
    requires
        0 <= i <= occ.len(),
        forall|j: int| 0 <= j < i ==> occ[j].pos != pos,
    ensures
        first_hit(occ, pos) == first_hit(occ.skip(i), pos),
    decreases i,
{
    if i == 0 {
        assert(occ.skip(0) =~= occ);
    } else {
        lemma_first_hit_skip(occ, pos, i - 1);
        assert(occ.skip(i - 1).len() > 0);
        assert(occ.skip(i - 1)[0] == occ[i - 1]);
        assert(occ.skip(i - 1)[0].pos != pos);
        assert(occ.skip(i - 1).drop_first() =~= occ.skip(i));
        assert(first_hit(occ.skip(i - 1), pos) == first_hit(occ.skip(i - 1).drop_first(), pos));
    }
}

/// Decides whether the move or spawn into `pos` is safe.
pub fn is_it_safe_to_there(what: DoWhat, pos: Pos, occupied: &OccupiedCells) -> (r: bool)
    ensures
        r == safe_spec(what, pos, occupied@),
{
    let cells = CELLS as i32;
    let inside = pos.x >= 0 && pos.y >= 0 && pos.x < cells && pos.y < cells;
    if !inside {
        return false;
    }
    let n = occupied.len();
    let mut i: usize = 0;
    while i < n
        invariant
            n == occupied@.len(),
            i <= n,
            pos_in_bounds(pos),
            forall|j: int| 0 <= j < i ==> occupied@[j].pos != pos,
        decreases n - i,
    {
        let cell = &occupied[i];
        if cell.pos == pos {
            proof {
                lemma_first_hit_skip(occupied@, pos, i as int);
                assert(occupied@.skip(i as int).len() > 0);
                assert(occupied@.skip(i as int)[0] == occupied@[i as int]);
                assert(first_hit(occupied@.skip(i as int), pos) == Some(
                    occupied@[i as int].by_whom,
                ));
            }
            return match what {
                DoWhat::Spawn => false,
                DoWhat::Move => match cell.by_whom {
                    Who::Snake => false,
                    Who::Food => true,
                },
            };
        }
        i = i + 1;
    }
    proof {
        lemma_first_hit_skip(occupied@, pos, n as int);
        assert(occupied@.skip(n as int).len() == 0);
        assert(first_hit(occupied@.skip(n as int), pos) is None);
    }
    true
}

/// Some claim on the cell exists.
pub open spec fn occupies(occ: Seq<OccupiedCell>, pos: Pos) -> bool {
    exists|i: int| 0 <= i < occ.len() && occ[i].pos == pos
}

/// Index of the first claim on the cell.
pub open spec fn first_claim_index(occ: Seq<OccupiedCell>, pos: Pos) -> int
    decreases occ.len(),
{
    if occ.len() == 0 {
        0
    } else if occ[0].pos == pos {
        0
    } else {
        1 + first_claim_index(occ.drop_first(), pos)
    }
}

/// Releases the first claim on the cell, swapping the last claim into
/// its place.  Reports whether any claim existed; the embedding treats
/// a miss as a broken game invariant.
pub fn deoccupy_cell(occupied_cells: &mut OccupiedCells, removed: Pos) -> (found: bool)
    ensures
        found == occupies(old(occupied_cells)@, removed),
        !found ==> final(occupied_cells)@ == old(occupied_cells)@,
        found ==> final(occupied_cells)@ == old(occupied_cells)@.update(
            first_claim_index(old(occupied_cells)@, removed),
            old(occupied_cells)@.last(),
        ).drop_last(),
{
    let n = occupied_cells.len();
    let mut i: usize = 0;
    while i < n
        invariant
            n == occupied_cells@.len(),
            i <= n,
            occupied_cells@ == old(occupied_cells)@,
            forall|j: int| 0 <= j < i ==> occupied_cells@[j].pos != removed,
        decreases n - i,
    {
        if occupied_cells[i].pos == removed {
            proof {
                lemma_first_claim_at(occupied_cells@, removed, i as int);
            }
            occupied_cells.swap_remove(i);
            return true;
        }
        i = i + 1;
    }
    false
}

/// With no earlier claim, the first claim index is the matching one.
proof fn lemma_first_claim_at(occ: Seq<OccupiedCell>, pos: Pos, i: int)
    requires
        0 <= i < occ.len(),
        occ[i].pos == pos,
        forall|j: int| 0 <= j < i ==> occ[j].pos != pos,
    ensures
        first_claim_index(occ, pos) == i,
    decreases i,
{
    if i > 0 {
        assert(occ.drop_first() =~= occ.skip(1));
        lemma_first_claim_at(occ.drop_first(), pos, i - 1);
    }
}

/// The steering rule: each pressed arrow turns the snake unless it
/// would reverse the current direction; arrows later in the fixed
/// check order (up, down, right, left) win when several are held.
pub open spec fn steer(pressed: Seq<u32>, dir: Direction, nd0: Direction) -> Direction {
    let after_up = if pressed.contains(KEY_CODE_ARROW_UP) && dir != Direction::Down {
        Direction::Up
    } else {
        nd0
    };
    let after_down = if pressed.contains(KEY_CODE_ARROW_DOWN) && dir != Direction::Up {
        Direction::Down
    } else {
        after_up
    };
    let after_right = if pressed.contains(KEY_CODE_ARROW_RIGHT) && dir != Direction::Left {
        Direction::Right
    } else {
        after_down
    };
    if pressed.contains(KEY_CODE_ARROW_LEFT) && dir != Direction::Right {
        Direction::Left
    } else {
        after_right
    }
}

/// Reads one known-valid key through the import bridge; with a lend in
/// progress and a valid code the bridge cannot refuse.
fn arrow_pressed(host: &Host, code: u32) -> (r: bool)
    requires
        host.wf(),
        host.lent(),
        key_code_valid(code),
    ensures
        r == host.store().pressed@.contains(code),
{
    match key_pressed(host, code) {
        Ok(b) => b,
        Err(_) => {
            proof {
                assert(false);
            }
            false
        },
    }
}

/// A mutable handle to one snake of the flock.
fn snake_at_mut(snakes: &mut Vec<Snake>, i: usize) -> (s: &mut Snake)
    requires
        i < old(snakes).len(),
    ensures
        *s == old(snakes)@[i as int],
        final(snakes)@ == old(snakes)@.update(i as int, *final(s)),
{
    &mut snakes[i]
}

/// Applies the player's steering to the first snake.  Only its next
/// direction changes, and only as the steering rule says.
pub fn control_snake(snakes: &mut Vec<Snake>, host: &Host)
    requires
        host.wf(),
        host.lent(),
    ensures
        final(snakes)@.len() == old(snakes)@.len(),
        old(snakes)@.len() == 0 ==> final(snakes)@ == old(snakes)@,
        old(snakes)@.len() > 0 ==> final(snakes)@ == old(snakes)@.update(
            0,
            Snake {
                next_direction: steer(
                    host.store().pressed@,
                    old(snakes)@[0].direction,
                    old(snakes)@[0].next_direction,
                ),
                ..old(snakes)@[0]
            },
        ),
{
    if snakes.len() == 0 {
        return;
    }
    let up = arrow_pressed(host, KEY_CODE_ARROW_UP);
    let down = arrow_pressed(host, KEY_CODE_ARROW_DOWN);
    let right = arrow_pressed(host, KEY_CODE_ARROW_RIGHT);
    let left = arrow_pressed(host, KEY_CODE_ARROW_LEFT);
    let snake = snake_at_mut(snakes, 0);
    if up && snake.direction != Direction::Down {
        snake.next_direction = Direction::Up;
    }
    if down && snake.direction != Direction::Up {
        snake.next_direction = Direction::Down;
    }
    if right && snake.direction != Direction::Left {
        snake.next_direction = Direction::Right;
    }
    if left && snake.direction != Direction::Right {
        snake.next_direction = Direction::Left;
    }
}

/// Relies on rand's `Rng::random_range` over `0..n`: a draw from a
/// nonempty integer range lies in it.  Which value comes back is
/// chance; nothing more is promised.
#[verifier::external_body]
fn random_below(n: u32) -> (r: u32)
    requires
        n > 0,
    ensures
        r < n,
{
    rand::rng().random_range(0..n)
}

/// Spawns one green cuboid segment for the snake and claims its cell.
pub fn spawn_snake_part(
    occupied: &mut OccupiedCells,
    snake: &mut Snake,
    pos: Pos,
    direction: Direction,
    host: &mut Host,
) -> (r: Result<(), ProtocolViolation>)
    requires
        old(host).wf(),
        old(host).lent(),
        pos_in_placeable_range(pos),
    ensures
        final(host).wf(),
        final(host).lent(),
        final(host).registry == old(host).registry,
        r is Err ==> r->Err_0 == ProtocolViolation::EntityIdsExhausted && *final(snake) == *old(
            snake,
        ) && final(occupied)@ == old(occupied)@ && *final(host) == *old(host),
        r is Ok ==> ({
            let e = Entity(old(host).store().next_entity);
            &&& final(snake).parts@ == old(snake).parts@.push(
                SnakePart { entity: e, direction: direction, pos: pos },
            )
            &&& final(snake).entity == old(snake).entity
            &&& final(snake).direction == old(snake).direction
            &&& final(snake).next_direction == old(snake).next_direction
            &&& final(occupied)@ == old(occupied)@.push(
                OccupiedCell { pos: pos, by_whom: Who::Snake },
            )
            &&& final(host).store().next_entity == old(host).store().next_entity + 1
        }),
{
    let t = place_at(pos);
    let shape = Shape::Cuboid(Vec3Bits::splat(BITS_ONE));
    let entity = match spawn_color_mesh(host, t, &shape, Rgba(0, 255, 0, 255)) {
        Ok(e) => e,
        Err(v) => {
            return Err(v);
        },
    };
    snake.parts.push(SnakePart { entity: entity, direction: direction, pos: pos });
    occupied.push(OccupiedCell { pos: pos, by_whom: Who::Snake });
    Ok(())
}

/// Spawns a fresh snake of the given length in the top row, heading
/// right, and claims its cells.
pub fn spawn_snake(
    snakes: &mut Vec<Snake>,
    occupied: &mut OccupiedCells,
    len: u8,
    host: &mut Host,
) -> (r: Result<(), ProtocolViolation>)
    requires
        old(host).wf(),
        old(host).lent(),
        len >= 2,
    ensures
        final(host).wf(),
        final(host).lent(),
        final(host).registry == old(host).registry,
        r is Err ==> r->Err_0 == ProtocolViolation::EntityIdsExhausted && final(snakes)@ == old(
            snakes,
        )@,
        r is Ok ==> final(snakes)@.len() == old(snakes)@.len() + 1 && ({
            let s = final(snakes)@.last();
            &&& s.parts@.len() == len
            &&& s.direction == Direction::Right
            &&& s.next_direction == Direction::Right
        }) && final(occupied)@.len() == old(occupied)@.len() + len,
        r is Ok ==> (forall|k: int|
            0 <= k < old(occupied)@.len() ==> final(occupied)@[k] == old(occupied)@[k]) && (
        forall|k: int|
            old(occupied)@.len() <= k < final(occupied)@.len() ==> final(occupied)@[k].pos.y
                == 0),
{
    let marker = match spawn_empty(host) {
        Ok(e) => e,
        Err(v) => {
            return Err(v);
        },
    };
    let mut snake = Snake {
        entity: marker,
        parts: Vec::new(),
        direction: Direction::Right,
        next_direction: Direction::Right,
    };
    let head_pos = Pos { x: len as i32 - 1, y: 0 };
    match spawn_snake_part(occupied, &mut snake, head_pos, Direction::Right, host) {
        Ok(()) => {},
        Err(v) => {
            return Err(v);
        },
    }
    let mut idx: i32 = len as i32 - 2;
    while idx >= 0
        invariant
            host.wf(),
            host.lent(),
            host.registry == old(host).registry,
            -1 <= idx <= len - 2,
            snake.direction == Direction::Right,
            snake.next_direction == Direction::Right,
            snake.parts@.len() == len - 1 - idx,
            occupied@.len() == old(occupied)@.len() + len - 1 - idx,
            forall|k: int| 0 <= k < old(occupied)@.len() ==> occupied@[k] == old(occupied)@[k],
            forall|k: int|
                old(occupied)@.len() <= k < occupied@.len() ==> occupied@[k].pos.y == 0,
            snakes@ == old(snakes)@,
        decreases idx + 1,
    {
        let pos = Pos { x: idx, y: 0 };
        match spawn_snake_part(occupied, &mut snake, pos, Direction::Right, host) {
            Ok(()) => {},
            Err(v) => {
                return Err(v);
            },
        }
        idx = idx - 1;
    }
    snakes.push(snake);
    Ok(())
}

/// Bit pattern of the camera orientation's x component: the
/// orientation is the precomputed quaternion that looks from the
/// camera perch down at the grid center, with +X as the up reference.
pub const CAMERA_ROTATION_X: u32 = 0x3F00_2424;

/// Bit pattern of the camera orientation's y component.
pub const CAMERA_ROTATION_Y: u32 = 0x3F13_2F6F;

/// Bit pattern of the camera orientation's z component.
pub const CAMERA_ROTATION_Z: u32 = 0x3ED2_C176;

/// Bit pattern of the camera orientation's w component.
pub const CAMERA_ROTATION_W: u32 = 0xBEFF_B7A1;

/// Bit pattern of the main light's intensity, 10 000 000.
pub const LIGHT_INTENSITY_BITS: u32 = 0x4B18_9680;

/// Bit pattern of the main light's range, 100.
pub const LIGHT_RANGE_BITS: u32 = 0x42C8_0000;

/// Bit pattern of the main light's shadow depth bias, 0.2.
pub const LIGHT_DEPTH_BIAS_BITS: u32 = 0x3E4C_CCCD;

/// Bit pattern of the food light's intensity, 220 000.
pub const FOOD_LIGHT_INTENSITY_BITS: u32 = 0x4856_D800;

/// Builds the scene and the initial game state: the grid plane, the
/// camera, the main light, one snake of three segments, the food
/// sound, and the first piece of food.
pub fn setup(host: &mut Host) -> (r: Result<State, ProtocolViolation>)
    requires
        old(host).wf(),
        old(host).lent(),
    ensures
        final(host).wf(),
        final(host).lent(),
        r is Ok ==> ({
            let s = r->Ok_0;
            &&& s.snakes@.len() == 1
            &&& s.snakes@[0].parts@.len() == 3
            &&& s.food@.len() == 1
            &&& pos_in_bounds(s.food@[0].pos)
            &&& s.since_last_fixed_update_ms == 0
            &&& final(host).registry.live(s.food_sound.0)
        }),
        r is Err ==> r->Err_0 == ProtocolViolation::EntityIdsExhausted || r->Err_0
            == ProtocolViolation::AssetKeysExhausted,
{
    // the grid: a textured plane over the whole playfield
    let size_bits = half_to_bits(44);
    let grid_at = StableTransform {
        translation: Vec3Bits { x: half_to_bits(-22), y: BITS_ZERO, z: half_to_bits(22) },
        rotation: QuatBits::identity(),
        scale: Vec3Bits::splat(BITS_ONE),
    };
    match spawn_image_mesh(host, grid_at, Shape::Plane(size_bits, size_bits)) {
        Ok(_) => {},
        Err(v) => {
            return Err(v);
        },
    }
    let camera_at = StableTransform {
        translation: Vec3Bits {
            x: half_to_bits(-33),
            y: half_to_bits(66),
            z: half_to_bits(11),
        },
        rotation: QuatBits {
            x: CAMERA_ROTATION_X,
            y: CAMERA_ROTATION_Y,
            z: CAMERA_ROTATION_Z,
            w: CAMERA_ROTATION_W,
        },
        scale: Vec3Bits::splat(BITS_ONE),
    };
    match spawn_camera(host, camera_at) {
        Ok(_) => {},
        Err(v) => {
            return Err(v);
        },
    }
    let light_at = StableTransform {
        translation: Vec3Bits {
            x: half_to_bits(16),
            y: half_to_bits(32),
            z: half_to_bits(16),
        },
        rotation: QuatBits::identity(),
        scale: Vec3Bits::splat(BITS_ONE),
    };
    let light = PointLight {
        intensity: LIGHT_INTENSITY_BITS,
        range: LIGHT_RANGE_BITS,
        shadows_enabled: true,
        shadow_depth_bias: LIGHT_DEPTH_BIAS_BITS,
        color: Rgba(255, 255, 255, 255),
    };
    match spawn_point_light(host, light_at, &light) {
        Ok(_) => {},
        Err(v) => {
            return Err(v);
        },
    }
    let mut snakes: Vec<Snake> = Vec::new();
    let mut occupied_cells: OccupiedCells = Vec::new();
    let mut food: Vec<Food> = Vec::new();
    match spawn_snake(&mut snakes, &mut occupied_cells, 3, host) {
        Ok(()) => {},
        Err(v) => {
            return Err(v);
        },
    }
    let food_sound = match load_audio_asset(host, "sounds/smb_coin.wav") {
        Ok(a) => a,
        Err(v) => {
            return Err(v);
        },
    };
    proof {
        // the snake only claims the top row, so a cell further down is
        // certainly free
        let witness = Pos { x: 0, y: 5 };
        assert forall|j: int|
            0 <= j < occupied_cells@.len() implies occupied_cells@[j].pos != witness by {
            assert(occupied_cells@[j].pos.y == 0);
        }
        lemma_first_hit_skip(occupied_cells@, witness, occupied_cells@.len() as int);
        assert(occupied_cells@.skip(occupied_cells@.len() as int).len() == 0);
        assert(first_hit(occupied_cells@.skip(occupied_cells@.len() as int), witness) is None);
        assert(safe_spec(DoWhat::Spawn, witness, occupied_cells@));
    }
    match spawn_food(&mut food, &mut occupied_cells, host) {
        Ok(()) => {},
        Err(v) => {
            return Err(v);
        },
    }
    Ok(
        State {
            occupied_cells: occupied_cells,
            snakes: snakes,
            food: food,
            food_sound: food_sound,
            since_last_fixed_update_ms: 0,
        },
    )
}

/// Spawns one piece of food — a small red cuboid with a red light
/// above it — into a free cell: a randomly drawn one if some draw
/// lands free, else the first free cell in row order; with no free
/// cell at all, nothing is spawned.
pub fn spawn_food(food: &mut Vec<Food>, occupied: &mut OccupiedCells, host: &mut Host) -> (r:
    Result<(), ProtocolViolation>)
    requires
        old(host).wf(),
        old(host).lent(),
    ensures
        final(host).wf(),
        final(host).lent(),
        final(host).registry == old(host).registry,
        r is Err ==> r->Err_0 == ProtocolViolation::EntityIdsExhausted,
        r is Ok ==> final(food)@.len() == old(food)@.len() || ({
            &&& final(food)@.len() == old(food)@.len() + 1
            &&& final(food)@ == old(food)@.push(final(food)@.last())
            &&& pos_in_bounds(final(food)@.last().pos)
            &&& safe_spec(DoWhat::Spawn, final(food)@.last().pos, old(occupied)@)
        }),
        r is Ok && (exists|p: Pos| safe_spec(DoWhat::Spawn, p, old(occupied)@))
            ==> final(food)@.len() == old(food)@.len() + 1,
{
    let mut chosen: Option<Pos> = None;
    let mut attempts: u32 = 0;
    while attempts < 64 && chosen.is_none()
        invariant
            attempts <= 64,
            occupied@ == old(occupied)@,
            chosen matches Some(p) ==> safe_spec(DoWhat::Spawn, p, occupied@),
        decreases 64 - attempts,
    {
        let x = random_below(CELLS);
        let y = random_below(CELLS);
        let pos = Pos { x: x as i32, y: y as i32 };
        if is_it_safe_to_there(DoWhat::Spawn, pos, occupied) {
            chosen = Some(pos);
        }
        attempts = attempts + 1;
    }
    if chosen.is_none() {
        // deterministic fallback: the first free cell in row order
        let mut y: u32 = 0;
        while y < CELLS && chosen.is_none()
            invariant
                y <= CELLS,
                occupied@ == old(occupied)@,
                chosen matches Some(p) ==> safe_spec(DoWhat::Spawn, p, occupied@),
                chosen is None ==> forall|p: Pos|
                    pos_in_bounds(p) && p.y < y ==> !#[trigger] safe_spec(
                        DoWhat::Spawn,
                        p,
                        occupied@,
                    ),
            decreases CELLS - y,
        {
            let mut x: u32 = 0;
            while x < CELLS && chosen.is_none()
                invariant
                    x <= CELLS,
                    y < CELLS,
                    occupied@ == old(occupied)@,
                    chosen matches Some(p) ==> safe_spec(DoWhat::Spawn, p, occupied@),
                    chosen is None ==> forall|p: Pos|
                        pos_in_bounds(p) && p.y < y ==> !#[trigger] safe_spec(
                            DoWhat::Spawn,
                            p,
                            occupied@,
                        ),
                    chosen is None ==> forall|p: Pos|
                        pos_in_bounds(p) && p.y == y && p.x < x ==> !#[trigger] safe_spec(
                            DoWhat::Spawn,
                            p,
                            occupied@,
                        ),
                decreases CELLS - x,
            {
                let pos = Pos { x: x as i32, y: y as i32 };
                if is_it_safe_to_there(DoWhat::Spawn, pos, occupied) {
                    chosen = Some(pos);
                }
                x = x + 1;
            }
            y = y + 1;
        }
    }
    match chosen {
        None => {
            proof {
                assert forall|p: Pos| !#[trigger] safe_spec(DoWhat::Spawn, p, occupied@) by {
                    if safe_spec(DoWhat::Spawn, p, occupied@) {
                        assert(pos_in_bounds(p));
                    }
                }
            }
            Ok(())
        },
        Some(pos) => {
            occupied.push(OccupiedCell { pos: pos, by_whom: Who::Food });
            let body_at = place_at(pos).with_scale(Vec3Bits::splat(BITS_HALF));
            let shape = Shape::Cuboid(Vec3Bits::splat(BITS_ONE));
            let entity = match spawn_color_mesh(host, body_at, &shape, Rgba(255, 0, 0, 255)) {
                Ok(e) => e,
                Err(v) => {
                    return Err(v);
                },
            };
            let mut light_at = place_at(pos);
            light_at.translation.y = half_to_bits(6);
            let food_light = PointLight {
                intensity: FOOD_LIGHT_INTENSITY_BITS,
                range: half_to_bits(10),
                shadows_enabled: false,
                shadow_depth_bias: BITS_ZERO,
                color: Rgba(255, 0, 0, 255),
            };
            let light = match spawn_point_light(host, light_at, &food_light) {
                Ok(e) => e,
                Err(v) => {
                    return Err(v);
                },
            };
            food.push(Food { entity: entity, pos: pos, light: light });
            Ok(())
        },
    }
}

/// One step from a cell in a direction; `None` when the coordinate
/// would leave the representable range (such a step is off the grid in
/// any case).
fn step_pos(pos: Pos, dir: Direction) -> (r: Option<Pos>)
    ensures
        r matches Some(p) ==> pos_in_placeable_range(p) || !pos_in_bounds(p),
        pos_in_bounds(pos) ==> r is Some,
        r matches Some(p) ==> p == step_spec(pos, dir),
{
    let limit: i32 = 0x0040_0000;
    if pos.x < -limit || pos.x >= limit || pos.y < -limit || pos.y >= limit {
        return None;
    }
    Some(
        match dir {
            Direction::Up => Pos { x: pos.x, y: pos.y - 1 },
            Direction::Down => Pos { x: pos.x, y: pos.y + 1 },
            Direction::Left => Pos { x: pos.x - 1, y: pos.y },
            Direction::Right => Pos { x: pos.x + 1, y: pos.y },
        },
    )
}

/// The cell one step away in the given direction.
pub open spec fn step_spec(pos: Pos, dir: Direction) -> Pos {
    match dir {
        Direction::Up => Pos { x: pos.x, y: (pos.y - 1) as i32 },
        Direction::Down => Pos { x: pos.x, y: (pos.y + 1) as i32 },
        Direction::Left => Pos { x: (pos.x - 1) as i32, y: pos.y },
        Direction::Right => Pos { x: (pos.x + 1) as i32, y: pos.y },
    }
}

/// Moves one snake by one cell: the head in its steering direction,
/// each following segment along its own direction, turning where its
/// leader turned.  An unsafe destination kills the whole snake;
/// reports whether it survived.
fn move_one_snake(snake: &mut Snake, occ: &mut OccupiedCells, host: &mut Host) -> (r: Result<
    bool,
    ProtocolViolation,
>)
    requires
        old(host).wf(),
        old(host).lent(),
    ensures
        final(host).wf(),
        final(host).lent(),
        final(host).registry == old(host).registry,
        r is Ok ==> final(snake).parts@.len() == old(snake).parts@.len(),
        r is Err ==> r->Err_0 == ProtocolViolation::MissingEntityTransform,
{
    let nparts = snake.parts.len();
    if nparts == 0 {
        return Ok(true);
    }
    let nd = snake.next_direction;
    snake.direction = nd;
    let head = snake.parts[0];
    snake.parts.set(0, SnakePart { direction: nd, ..head });

    // plan every segment's destination before touching any of them
    let mut next_positions: Vec<(Entity, Option<Pos>, Option<Direction>)> = Vec::new();
    next_positions.push((head.entity, step_pos(head.pos, nd), None));
    let mut k: usize = 1;
    while k < nparts
        invariant
            nparts == snake.parts@.len(),
            snake.parts@.len() == old(snake).parts@.len(),
            1 <= k <= nparts,
        decreases nparts - k,
    {
        let prev = snake.parts[k - 1];
        let current = snake.parts[k];
        let turn: Option<Direction> = if current.direction == prev.direction {
            None
        } else {
            Some(prev.direction)
        };
        next_positions.push((current.entity, step_pos(current.pos, current.direction), turn));
        k = k + 1;
    }

    // apply them in order; the first unsafe destination kills the snake
    let nmoves = next_positions.len();
    let mut j: usize = 0;
    while j < nmoves
        invariant
            nmoves == next_positions@.len(),
            j <= nmoves,
            host.wf(),
            host.lent(),
            host.registry == old(host).registry,
            snake.parts@.len() == old(snake).parts@.len(),
        decreases nmoves - j,
    {
        let (entity, next_pos_opt, turn) = next_positions[j];
        let safe = match next_pos_opt {
            Some(p) => is_it_safe_to_there(DoWhat::Move, p, occ),
            None => false,
        };
        if !safe {
            match despawn(host, snake.entity) {
                Ok(()) => {},
                Err(v) => {
                    return Err(v);
                },
            }
            let mut d: usize = 0;
            let ndparts = snake.parts.len();
            while d < ndparts
                invariant
                    ndparts == snake.parts@.len(),
                    d <= ndparts,
                    host.wf(),
                    host.lent(),
                    host.registry == old(host).registry,
                    snake.parts@.len() == old(snake).parts@.len(),
                decreases ndparts - d,
            {
                let part = snake.parts[d];
                match despawn(host, part.entity) {
                    Ok(()) => {},
                    Err(v) => {
                        return Err(v);
                    },
                }
                d = d + 1;
            }
            return Ok(false);
        }
        let next_pos = match next_pos_opt {
            Some(p) => p,
            None => {
                proof {
                    assert(false);
                }
                Pos { x: 0, y: 0 }
            },
        };
        // locate the segment this destination belongs to
        let mut idx_found: Option<usize> = None;
        let nsearch = snake.parts.len();
        let mut q: usize = 0;
        while q < nsearch
            invariant
                nsearch == snake.parts@.len(),
                q <= nsearch,
                idx_found matches Some(ix) ==> ix < nsearch,
            decreases nsearch - q,
        {
            if snake.parts[q].entity == entity {
                idx_found = Some(q);
                q = nsearch;
            } else {
                q = q + 1;
            }
        }
        match idx_found {
            None => {},
            Some(ix) => {
                let part = snake.parts[ix];
                deoccupy_cell(occ, part.pos);
                occ.push(OccupiedCell { pos: next_pos, by_whom: Who::Snake });
                let new_dir = match turn {
                    Some(d) => d,
                    None => part.direction,
                };
                snake.parts.set(
                    ix,
                    SnakePart { entity: part.entity, direction: new_dir, pos: next_pos },
                );
                proof {
                    assert(pos_in_bounds(next_pos));
                }
                match mut_entity_transform(host, entity, place_at(next_pos)) {
                    Ok(()) => {},
                    Err(v) => {
                        return Err(v);
                    },
                }
            },
        }
        j = j + 1;
    }
    Ok(true)
}

/// Moves every snake by one cell, dropping the ones that died.
fn process_snake_movement(state: &mut State, host: &mut Host) -> (r: Result<(), ProtocolViolation>)
    requires
        old(host).wf(),
        old(host).lent(),
    ensures
        final(host).wf(),
        final(host).lent(),
        final(host).registry == old(host).registry,
        r is Ok ==> final(state).snakes@.len() <= old(state).snakes@.len(),
        r is Err ==> r->Err_0 == ProtocolViolation::MissingEntityTransform,
{
    let mut snakes: Vec<Snake> = Vec::new();
    core::mem::swap(&mut snakes, &mut state.snakes);
    let mut survivors: Vec<Snake> = Vec::new();
    loop
        invariant
            host.wf(),
            host.lent(),
            host.registry == old(host).registry,
            survivors@.len() + snakes@.len() <= old(state).snakes@.len(),
        ensures
            host.wf(),
            host.lent(),
            host.registry == old(host).registry,
            snakes@.len() == 0,
            survivors@.len() <= old(state).snakes@.len(),
        decreases snakes@.len(),
    {
        let next = snakes.pop();
        match next {
            None => {
                break ;
            },
            Some(mut snake) => {
                match move_one_snake(&mut snake, &mut state.occupied_cells, host) {
                    Ok(true) => {
                        survivors.push(snake);
                    },
                    Ok(false) => {},
                    Err(v) => {
                        survivors.push(snake);
                        survivors.append(&mut snakes);
                        core::mem::swap(&mut survivors, &mut state.snakes);
                        return Err(v);
                    },
                }
            },
        }
    }
    core::mem::swap(&mut survivors, &mut state.snakes);
    Ok(())
}

/// Feeds every snake whose head reached a piece of food: the food and
/// its light despawn, the sound plays, a fresh piece spawns, and the
/// snake grows one segment behind its tail.
fn process_snake_food(state: &mut State, host: &mut Host) -> (r: Result<(), ProtocolViolation>)
    requires
        old(host).wf(),
        old(host).lent(),
    ensures
        final(host).wf(),
        final(host).lent(),
        final(host).registry == old(host).registry,
        r is Err ==> r->Err_0 == ProtocolViolation::UnknownAssetKey || r->Err_0
            == ProtocolViolation::EntityIdsExhausted,
{
    let nsnakes = state.snakes.len();
    let mut s: usize = 0;
    while s < nsnakes
        invariant
            host.wf(),
            host.lent(),
            host.registry == old(host).registry,
            s <= nsnakes,
            nsnakes <= state.snakes@.len(),
        decreases nsnakes - s,
    {
        let head_pos_opt = {
            let sn = &state.snakes[s];
            if sn.parts.len() == 0 {
                None
            } else {
                Some(sn.parts[0].pos)
            }
        };
        match head_pos_opt {
            None => {},
            Some(head_pos) => {
                // the last matching piece wins, as the scan order has it
                let mut fidx: Option<usize> = None;
                let nfood = state.food.len();
                let mut fi: usize = 0;
                while fi < nfood
                    invariant
                        nfood == state.food@.len(),
                        fi <= nfood,
                        fidx matches Some(ix) ==> ix < nfood,
                    decreases nfood - fi,
                {
                    if state.food[fi].pos == head_pos {
                        fidx = Some(fi);
                    }
                    fi = fi + 1;
                }
                match fidx {
                    None => {},
                    Some(ix) => {
                        let f = state.food[ix];
                        match despawn(host, f.entity) {
                            Ok(()) => {},
                            Err(v) => {
                                return Err(v);
                            },
                        }
                        match despawn(host, f.light) {
                            Ok(()) => {},
                            Err(v) => {
                                return Err(v);
                            },
                        }
                        deoccupy_cell(&mut state.occupied_cells, f.pos);
                        state.food.swap_remove(ix);
                        match play_audio(host, state.food_sound) {
                            Ok(_) => {},
                            Err(v) => {
                                return Err(v);
                            },
                        }
                        match spawn_food(&mut state.food, &mut state.occupied_cells, host) {
                            Ok(()) => {},
                            Err(v) => {
                                return Err(v);
                            },
                        }
                        let tail_opt = {
                            let sn = &state.snakes[s];
                            if sn.parts.len() == 0 {
                                None
                            } else {
                                Some(sn.parts[sn.parts.len() - 1])
                            }
                        };
                        match tail_opt {
                            None => {},
                            Some(tail) => {
                                let back = match tail.direction {
                                    Direction::Up => Direction::Down,
                                    Direction::Down => Direction::Up,
                                    Direction::Left => Direction::Right,
                                    Direction::Right => Direction::Left,
                                };
                                match step_pos(tail.pos, back) {
                                    None => {},
                                    Some(new_pos) => {
                                        if pos_in_placeable(new_pos) {
                                            let sn = snake_at_mut(&mut state.snakes, s);
                                            match spawn_snake_part(
                                                &mut state.occupied_cells,
                                                sn,
                                                new_pos,
                                                tail.direction,
                                                host,
                                            ) {
                                                Ok(()) => {},
                                                Err(v) => {
                                                    return Err(v);
                                                },
                                            }
                                        }
                                    },
                                }
                            },
                        }
                    },
                }
            },
        }
        s = s + 1;
    }
    Ok(())
}

/// Runtime check of `pos_in_placeable_range`.
fn pos_in_placeable(pos: Pos) -> (r: bool)
    ensures
        r == pos_in_placeable_range(pos),
{
    -0x0040_0000 <= pos.x && pos.x <= 0x0040_0000 && -0x0040_0000 <= pos.y && pos.y
        <= 0x0040_0000
}

/// One fixed step of the simulation: movement, then feeding.
fn fixed_update(state: &mut State, host: &mut Host) -> (r: Result<(), ProtocolViolation>)
    requires
        old(host).wf(),
        old(host).lent(),
    ensures
        final(host).wf(),
        final(host).lent(),
        final(host).registry == old(host).registry,
        r is Err ==> r->Err_0 == ProtocolViolation::MissingEntityTransform || r->Err_0
            == ProtocolViolation::UnknownAssetKey || r->Err_0
            == ProtocolViolation::EntityIdsExhausted,
{
    match process_snake_movement(state, host) {
        Ok(()) => {},
        Err(v) => {
            return Err(v);
        },
    }
    process_snake_food(state, host)
}

/// One frame of the game: steering is read every frame; the simulation
/// itself advances only when the accumulated time reaches the fixed
/// step, and reports whether it did.
pub fn update(state: &mut State, host: &mut Host, elapsed_ms: u64) -> (r: Result<
    bool,
    ProtocolViolation,
>)
    requires
        old(host).wf(),
        old(host).lent(),
    ensures
        final(host).wf(),
        final(host).lent(),
        final(host).registry == old(host).registry,
        r is Err ==> r->Err_0 == ProtocolViolation::MissingEntityTransform || r->Err_0
            == ProtocolViolation::UnknownAssetKey || r->Err_0
            == ProtocolViolation::EntityIdsExhausted,
        old(state).since_last_fixed_update_ms + elapsed_ms < FIXED_UPDATE_MS ==> ({
            &&& r == Ok::<bool, ProtocolViolation>(false)
            &&& *final(host) == *old(host)
            &&& final(state).since_last_fixed_update_ms == old(state).since_last_fixed_update_ms
                + elapsed_ms
            &&& final(state).occupied_cells@ == old(state).occupied_cells@
            &&& final(state).food@ == old(state).food@
            &&& final(state).food_sound == old(state).food_sound
            &&& (old(state).snakes@.len() == 0 ==> final(state).snakes@ == old(state).snakes@)
            &&& (old(state).snakes@.len() > 0 ==> final(state).snakes@ == old(
                state,
            ).snakes@.update(
                0,
                Snake {
                    next_direction: steer(
                        old(host).store().pressed@,
                        old(state).snakes@[0].direction,
                        old(state).snakes@[0].next_direction,
                    ),
                    ..old(state).snakes@[0]
                },
            ))
        }),
        r == Ok::<bool, ProtocolViolation>(true) ==> final(state).since_last_fixed_update_ms == 0
            && old(state).since_last_fixed_update_ms + elapsed_ms >= FIXED_UPDATE_MS,
        r is Ok && old(state).since_last_fixed_update_ms + elapsed_ms >= FIXED_UPDATE_MS ==> r
            == Ok::<bool, ProtocolViolation>(true),
{
    control_snake(&mut state.snakes, host);
    let since = state.since_last_fixed_update_ms;
    let total: u64 = if elapsed_ms > u64::MAX - since {
        u64::MAX
    } else {
        since + elapsed_ms
    };
    if total < FIXED_UPDATE_MS {
        state.since_last_fixed_update_ms = total;
        return Ok(false);
    }
    state.since_last_fixed_update_ms = total;
    match fixed_update(state, host) {
        Ok(()) => {},
        Err(v) => {
            return Err(v);
        },
    }
    state.since_last_fixed_update_ms = 0;
    Ok(true)
}

} // verus!
