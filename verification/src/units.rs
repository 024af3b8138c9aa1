use vstd::prelude::*;

verus! {

/// Number of integer sub-units per world unit.  The game measures positions,
/// speeds and angles in fractional screen units; the simulation keeps every
/// quantity as a whole count of three-hundredths of a unit, which represents
/// every constant of the game exactly (the per-tick gravity increment, the
/// flap impulse, the parallax speeds and the rotation steps all come out as
/// whole sub-units).
pub const SUBUNITS: i64 = 300;

/// Every coordinate, speed and angle the simulation stores stays inside
/// `[-COORD_LIMIT, COORD_LIMIT]`.  The integration steps add through
/// `add_clamped` / `sub_clamped`, which pin the sum to this band, so no
/// stored quantity can ever overflow an `i64` however long the simulation
/// runs.  The band is astronomically wider than anything a game reaches, so
/// inside it the clamped operations are exact addition and subtraction.
pub const COORD_LIMIT: i64 = 0x10_0000_0000;

/// Bound on the fields of rectangles handed to the overlap test.  Collision
/// rectangles are built from at most a few stored coordinates and fixed
/// sprite sizes, so their fields stay well inside this looser band, and the
/// sums in the overlap test stay far from the `i64` range.
pub const RECT_BOUND: i64 = 8 * COORD_LIMIT;

/// A stored simulation quantity: inside the clamping band.
pub open spec fn in_range(v: i64) -> bool {
    -COORD_LIMIT <= v <= COORD_LIMIT
}

/// Mathematical clamp of a value to the storage band.
pub open spec fn clamped(v: int) -> int {
    if v > COORD_LIMIT {
        COORD_LIMIT as int
    } else if v < -COORD_LIMIT {
        -COORD_LIMIT as int
    } else {
        v
    }
}

/// Addition pinned to the storage band; exact whenever the true sum lies
/// inside it.
pub fn add_clamped(a: i64, b: i64) -> (r: i64)
    requires
        in_range(a),
        in_range(b),
    ensures
        r == clamped(a + b),
        in_range(r),
{
    let s: i64 = a + b;
    if s > COORD_LIMIT {
        COORD_LIMIT
    } else if s < -COORD_LIMIT {
        -COORD_LIMIT
    } else {
        s
    }
}

/// Subtraction pinned to the storage band; exact whenever the true
/// difference lies inside it.
pub fn sub_clamped(a: i64, b: i64) -> (r: i64)
    requires
        in_range(a),
        in_range(b),
    ensures
        r == clamped(a - b),
        in_range(r),
{
    let s: i64 = a - b;
    if s > COORD_LIMIT {
        COORD_LIMIT
    } else if s < -COORD_LIMIT {
        -COORD_LIMIT
    } else {
        s
    }
}

} // verus!
