//! Positions, ground-plane distances and the attack-range rule.

use vstd::prelude::*;

verus! {

/// How many stored steps make one distance unit (or one stat point).
pub const UNIT: u32 = 1000;

/// Gap between two collider surfaces that still counts as touching: half a unit.
pub const COLLISION_BUFFER: u32 = 500;

/// A world position, each axis in thousandths of a unit. `y` points up.
#[derive(Clone, Copy, Debug, PartialEq, Eq, Structural)]
pub struct Position {
    pub x: i32,
    pub y: i32,
    pub z: i32,
}

/// Squared distance between `a` and `b` on the ground plane; height is ignored.
pub open spec fn planar_distance_sq(a: Position, b: Position) -> int {
    (a.x - b.x) * (a.x - b.x) + (a.z - b.z) * (a.z - b.z)
}

/// Whether `r` is the square root of `n`, rounded down: the non-negative
/// integer whose square is the largest one not above `n`.
pub open spec fn is_floor_sqrt(n: int, r: int) -> bool {
    0 <= r && r * r <= n < (r + 1) * (r + 1)
}

/// The square root of `n`, rounded down.
pub open spec fn floor_sqrt_of(n: int) -> int {
    choose|r: int| is_floor_sqrt(n, r)
}

/// The ground-plane distance between `a` and `b`, rounded down to a whole step.
pub open spec fn planar_length(a: Position, b: Position) -> int {
    floor_sqrt_of(planar_distance_sq(a, b))
}

/// The ground-plane distance between `a` and `b` in thousandths of a step,
/// rounded down: fine enough to tell a direction from.
pub open spec fn planar_length_fine(a: Position, b: Position) -> int {
    floor_sqrt_of(planar_distance_sq(a, b) * 1_000_000)
}

/// Centre-to-centre distance at which two capsules are as close as they get.
pub open spec fn collision_distance(radius_a: u32, radius_b: u32) -> int {
    radius_a + radius_b + COLLISION_BUFFER
}

/// Centre-to-centre distance up to which an attack connects.
pub open spec fn attack_reach(attacker_radius: u32, target_radius: u32, attack_range: u32) -> int {
    collision_distance(attacker_radius, target_radius) + attack_range
}

/// The range rule: the planar distance is at most the summed radii, the
/// collision buffer and the attack range.
pub open spec fn within_attack_range(
    attacker_pos: Position,
    attacker_radius: u32,
    target_pos: Position,
    target_radius: u32,
    attack_range: u32,
) -> bool {
    let reach = attack_reach(attacker_radius, target_radius, attack_range);
    planar_distance_sq(attacker_pos, target_pos) <= reach * reach
}

proof fn lemma_square_bounded(d: int, bound: int)
    requires
        0 <= d <= bound,
    ensures
        0 <= d * d <= bound * bound,
{
    assert(0 <= d * d <= bound * bound) by (nonlinear_arith)
        requires
            0 <= d <= bound,
    ;
}

/// Distance between two coordinates of one axis.
fn axis_distance(p: i32, q: i32) -> (d: u64)
    ensures
        d == if p >= q { p - q } else { q - p },
        d <= 0xFFFF_FFFF,
{
    if p >= q {
        (p as i64 - q as i64) as u64
    } else {
        (q as i64 - p as i64) as u64
    }
}

/// Squared ground-plane distance between `a` and `b`.
pub fn planar_distance_squared(a: Position, b: Position) -> (r: u128)
    ensures
        r == planar_distance_sq(a, b),
        r <= 2 * (0xFFFF_FFFF * 0xFFFF_FFFF),
{
    let dx: u64 = axis_distance(a.x, b.x);
    let dz: u64 = axis_distance(a.z, b.z);
    proof {
        lemma_square_bounded(dx as int, 0xFFFF_FFFF);
        lemma_square_bounded(dz as int, 0xFFFF_FFFF);
        assert(dx * dx == (a.x - b.x) * (a.x - b.x)) by (nonlinear_arith)
            requires
                dx == a.x - b.x || dx == b.x - a.x,
        ;
        assert(dz * dz == (a.z - b.z) * (a.z - b.z)) by (nonlinear_arith)
            requires
                dz == a.z - b.z || dz == b.z - a.z,
        ;
    }
    let sx: u128 = dx as u128 * dx as u128;
    let sz: u128 = dz as u128 * dz as u128;
    sx + sz
}

/// Largest `r` with `r * r <= n`.
pub fn floor_sqrt(n: u128) -> (r: u64)
    ensures
        is_floor_sqrt(n as int, r as int),
        r == floor_sqrt_of(n as int),
{
    let mut lo: u128 = 0;
    let mut hi: u128 = 0x1_0000_0000_0000_0000;
    while hi - lo > 1
        invariant
            lo < hi <= 0x1_0000_0000_0000_0000,
            lo * lo <= n < hi * hi,
        decreases hi - lo,
    {
        let mid: u128 = lo + (hi - lo) / 2;
        proof {
            lemma_square_bounded(mid as int, 0xFFFF_FFFF_FFFF_FFFF);
        }
        if mid * mid <= n {
            lo = mid;
        } else {
            hi = mid;
        }
    }
    proof {
        assert(is_floor_sqrt(n as int, lo as int));
        lemma_floor_sqrt_unique(n as int, lo as int, floor_sqrt_of(n as int));
    }
    lo as u64
}

/// Ground-plane distance between `a` and `b`, rounded down to a whole step.
pub fn planar_distance(a: Position, b: Position) -> (r: u64)
    ensures
        is_floor_sqrt(planar_distance_sq(a, b), r as int),
        r == planar_length(a, b),
{
    let d2: u128 = planar_distance_squared(a, b);
    floor_sqrt(d2)
}

/// Whether the attacker at `attacker_pos` reaches the target at `target_pos`.
pub fn in_attack_range(
    attacker_pos: Position,
    attacker_radius: u32,
    target_pos: Position,
    target_radius: u32,
    attack_range: u32,
) -> (r: bool)
    ensures
        r == within_attack_range(
            attacker_pos,
            attacker_radius,
            target_pos,
            target_radius,
            attack_range,
        ),
{
    let reach: u64 = attacker_radius as u64 + target_radius as u64 + COLLISION_BUFFER as u64
        + attack_range as u64;
    proof {
        lemma_square_bounded(reach as int, 0x4_0000_0000);
    }
    let reach_sq: u128 = reach as u128 * reach as u128;
    planar_distance_squared(attacker_pos, target_pos) <= reach_sq
}

/// Whether two bodies are still further apart than their colliders allow them to
/// come, so that moving closer is possible.
pub fn beyond_collision_distance(a: Position, radius_a: u32, b: Position, radius_b: u32) -> (r:
    bool)
    ensures
        r == (planar_distance_sq(a, b) >= collision_distance(radius_a, radius_b)
            * collision_distance(radius_a, radius_b)),
{
    let stop: u64 = radius_a as u64 + radius_b as u64 + COLLISION_BUFFER as u64;
    proof {
        lemma_square_bounded(stop as int, 0x4_0000_0000);
    }
    let stop_sq: u128 = stop as u128 * stop as u128;
    planar_distance_squared(a, b) >= stop_sq
}

/// Swapping the two radii never changes the verdict of the range rule.
pub proof fn lemma_range_symmetric_in_radii(
    attacker_pos: Position,
    attacker_radius: u32,
    target_pos: Position,
    target_radius: u32,
    attack_range: u32,
)
    ensures
        within_attack_range(attacker_pos, attacker_radius, target_pos, target_radius, attack_range)
            == within_attack_range(
            attacker_pos,
            target_radius,
            target_pos,
            attacker_radius,
            attack_range,
        ),
{
}

/// Swapping the two positions never changes the verdict of the range rule.
pub proof fn lemma_range_symmetric_in_positions(
    attacker_pos: Position,
    attacker_radius: u32,
    target_pos: Position,
    target_radius: u32,
    attack_range: u32,
)
    ensures
        within_attack_range(attacker_pos, attacker_radius, target_pos, target_radius, attack_range)
            == within_attack_range(
            target_pos,
            attacker_radius,
            attacker_pos,
            target_radius,
            attack_range,
        ),
{
    assert(planar_distance_sq(attacker_pos, target_pos) == planar_distance_sq(
        target_pos,
        attacker_pos,
    )) by (nonlinear_arith);
}

/// A longer attack range reaches every target that a shorter one reaches.
pub proof fn lemma_range_monotonic(
    attacker_pos: Position,
    attacker_radius: u32,
    target_pos: Position,
    target_radius: u32,
    shorter: u32,
    longer: u32,
)
    requires
        shorter <= longer,
        within_attack_range(attacker_pos, attacker_radius, target_pos, target_radius, shorter),
    ensures
        within_attack_range(attacker_pos, attacker_radius, target_pos, target_radius, longer),
{
    let near = attack_reach(attacker_radius, target_radius, shorter);
    let far = attack_reach(attacker_radius, target_radius, longer);
    assert(near * near <= far * far) by (nonlinear_arith)
        requires
            0 <= near <= far,
    ;
}

/// Whether `b` lies within `radius` of `a` on the ground plane.
pub open spec fn within_planar_radius(a: Position, b: Position, radius: u32) -> bool {
    planar_distance_sq(a, b) <= radius * radius
}

/// Whether `b` lies within `radius` of `a` on the ground plane.
pub fn is_within_planar_radius(a: Position, b: Position, radius: u32) -> (r: bool)
    ensures
        r == within_planar_radius(a, b, radius),
{
    proof {
        lemma_square_bounded(radius as int, 0xFFFF_FFFF);
    }
    let radius_sq: u128 = radius as u128 * radius as u128;
    planar_distance_squared(a, b) <= radius_sq
}

/// A velocity on the ground plane, in thousandths of a unit per second.
#[derive(Clone, Copy, Debug, PartialEq, Eq, Structural)]
pub struct PlanarVelocity {
    pub x: i64,
    pub z: i64,
}

impl PlanarVelocity {
    pub open spec fn zero() -> PlanarVelocity {
        PlanarVelocity { x: 0, z: 0 }
    }
}

/// One axis of a velocity of size `speed` along an offset, where
/// `fine_length` is the length of the whole offset in thousandths of a step:
/// the share of the speed that falls to this axis, rounded towards zero.
pub open spec fn axis_velocity(offset: int, fine_length: int, speed: u32) -> int {
    if offset >= 0 {
        (offset * 1000 * speed) / fine_length
    } else {
        -((-offset * 1000 * speed) / fine_length)
    }
}

/// The velocity of size `speed` that leads from `from` straight towards `to`
/// on the ground plane: the offset between them, scaled to the speed.
/// Nothing moves where the two are on the same spot.
pub open spec fn velocity_towards(from: Position, to: Position, speed: u32) -> PlanarVelocity {
    let fine_length = planar_length_fine(from, to);
    if fine_length <= 0 {
        PlanarVelocity::zero()
    } else {
        PlanarVelocity {
            x: axis_velocity(to.x - from.x, fine_length, speed) as i64,
            z: axis_velocity(to.z - from.z, fine_length, speed) as i64,
        }
    }
}

fn axis_share(p: i32, q: i32, fine_length: u64, speed: u32) -> (v: i64)
    requires
        fine_length > 0,
        (q - p) * (q - p) * 1_000_000 < (fine_length + 1) * (fine_length + 1),
    ensures
        v == axis_velocity(q - p, fine_length as int, speed),
        -(speed as int) <= v <= speed,
{
    let offset: u64 = axis_distance(p, q);
    let fine_offset: u64 = offset * 1000;
    proof {
        assert(offset * offset == (q - p) * (q - p)) by (nonlinear_arith)
            requires
                offset == q - p || offset == p - q,
        ;
        assert(fine_offset * fine_offset == offset * offset * 1_000_000) by (nonlinear_arith)
            requires
                fine_offset == offset * 1000,
        ;
        if fine_offset > fine_length {
            assert(fine_offset * fine_offset >= (fine_length + 1) * (fine_length + 1))
                by (nonlinear_arith)
                requires
                    fine_offset >= fine_length + 1,
                    fine_length >= 0,
            ;
        }
        assert(0 <= fine_offset * speed <= fine_length * speed) by (nonlinear_arith)
            requires
                0 <= fine_offset <= fine_length,
                0 <= speed,
        ;
        assert(fine_offset * speed <= 0xFFFF_FFFF * 1000 * 0xFFFF_FFFF) by (nonlinear_arith)
            requires
                0 <= fine_offset <= 0xFFFF_FFFF * 1000,
                0 <= speed <= 0xFFFF_FFFF,
        ;
        assert((fine_offset * speed) / (fine_length as int) <= speed) by (nonlinear_arith)
            requires
                0 <= fine_offset * speed <= fine_length * speed,
                fine_length > 0,
        ;
        assert((fine_offset * speed) / (fine_length as int) >= 0) by (nonlinear_arith)
            requires
                0 <= fine_offset * speed,
                fine_length > 0,
        ;
        assert(fine_offset * speed == offset * 1000 * speed) by (nonlinear_arith)
            requires
                fine_offset == offset * 1000,
        ;
        if q < p {
            assert(-(q - p) * 1000 * speed == offset * 1000 * speed) by (nonlinear_arith)
                requires
                    offset == p - q,
            ;
        } else {
            assert((q - p) * 1000 * speed == offset * 1000 * speed) by (nonlinear_arith)
                requires
                    offset == q - p,
            ;
        }
    }
    let share: u128 = (fine_offset as u128 * speed as u128) / fine_length as u128;
    if q >= p {
        share as i64
    } else {
        -(share as i64)
    }
}

/// The ground-plane distance between `a` and `b` in thousandths of a step,
/// rounded down.
pub fn fine_planar_distance(a: Position, b: Position) -> (r: u64)
    ensures
        r == planar_length_fine(a, b),
        is_floor_sqrt(planar_distance_sq(a, b) * 1_000_000, r as int),
        r > 0 <==> planar_distance_sq(a, b) > 0,
{
    let d2: u128 = planar_distance_squared(a, b);
    let r = floor_sqrt(d2 * 1_000_000);
    proof {
        if d2 == 0 && r > 0 {
            assert(r * r >= 1) by (nonlinear_arith)
                requires
                    r >= 1,
            ;
        }
        if d2 > 0 && r == 0 {
            assert((r + 1) * (r + 1) == 1) by (nonlinear_arith)
                requires
                    r == 0,
            ;
        }
    }
    r
}

/// The velocity of size `speed` that leads from `from` straight towards `to`
/// on the ground plane; zero where the two are on the same spot.
pub fn desired_velocity(from: Position, to: Position, speed: u32) -> (v: PlanarVelocity)
    ensures
        v == velocity_towards(from, to, speed),
        -(speed as int) <= v.x <= speed,
        -(speed as int) <= v.z <= speed,
{
    let fine_length: u64 = fine_planar_distance(from, to);
    if fine_length == 0 {
        return PlanarVelocity { x: 0, z: 0 };
    }
    proof {
        assert((to.x - from.x) * (to.x - from.x) >= 0) by (nonlinear_arith);
        assert((to.z - from.z) * (to.z - from.z) >= 0) by (nonlinear_arith);
        assert(planar_distance_sq(from, to) == (to.x - from.x) * (to.x - from.x) + (to.z - from.z)
            * (to.z - from.z)) by (nonlinear_arith);
        assert((to.x - from.x) * (to.x - from.x) * 1_000_000 <= planar_distance_sq(from, to)
            * 1_000_000) by (nonlinear_arith)
            requires
                (to.x - from.x) * (to.x - from.x) <= planar_distance_sq(from, to),
        ;
        assert((to.z - from.z) * (to.z - from.z) * 1_000_000 <= planar_distance_sq(from, to)
            * 1_000_000) by (nonlinear_arith)
            requires
                (to.z - from.z) * (to.z - from.z) <= planar_distance_sq(from, to),
        ;
    }
    let x: i64 = axis_share(from.x, to.x, fine_length, speed);
    let z: i64 = axis_share(from.z, to.z, fine_length, speed);
    PlanarVelocity { x, z }
}

/// A number has one rounded-down square root only.
pub proof fn lemma_floor_sqrt_unique(n: int, r1: int, r2: int)
    requires
        is_floor_sqrt(n, r1),
        is_floor_sqrt(n, r2),
    ensures
        r1 == r2,
{
    if r1 < r2 {
        assert((r1 + 1) * (r1 + 1) <= r2 * r2) by (nonlinear_arith)
            requires
                0 <= r1 + 1 <= r2,
        ;
    }
    if r2 < r1 {
        assert((r2 + 1) * (r2 + 1) <= r1 * r1) by (nonlinear_arith)
            requires
                0 <= r2 + 1 <= r1,
        ;
    }
}

} // verus!
