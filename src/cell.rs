//! Integer cells of a grid: a continuous position rounded to the nearest unit
//! on each axis.
use vstd::prelude::*;
use crate::geometry::{Vec3i, UNIT, HALF_UNIT};

verus! {

/// The rounded-to-nearest-unit coordinate of a block's centre.
#[derive(Clone, Copy, Debug, PartialEq, Eq, Structural, Hash, Default)]
pub struct DiscreteVec3 {
    pub x: i32,
    pub y: i32,
    pub z: i32,
}

/// `n` fixed-point steps rounded to whole units, halves away from zero.
pub open spec fn round_units(n: int) -> int {
    if n >= 0 {
        (n + (HALF_UNIT as int)) / (UNIT as int)
    } else {
        -((-n + (HALF_UNIT as int)) / (UNIT as int))
    }
}

/// An integer held to the range of `i32`, as a saturating cast does.
pub open spec fn clamp_i32(n: int) -> int {
    if n > i32::MAX {
        i32::MAX as int
    } else if n < i32::MIN {
        i32::MIN as int
    } else {
        n
    }
}

pub open spec fn cell_coord(n: int) -> int {
    clamp_i32(round_units(n))
}

/// The cell of a fixed-point position.
pub open spec fn cell_of(p: (int, int, int)) -> DiscreteVec3 {
    DiscreteVec3 {
        x: cell_coord(p.0) as i32,
        y: cell_coord(p.1) as i32,
        z: cell_coord(p.2) as i32,
    }
}

/// Rounds one coordinate to whole units and saturates it to `i32`.
pub fn discretize(n: i64) -> (r: i32)
    ensures
        r == cell_coord(n as int),
{
    let m: u64 = if n >= 0 {
        n as u64
    } else {
        ((-(n + 1)) as u64) + 1
    };
    let q: u64 = m / (UNIT as u64) + if m % (UNIT as u64) >= (HALF_UNIT as u64) {
        1
    } else {
        0
    };
    proof {
        let ghost a: int = if n >= 0 { n as int } else { -(n as int) };
        assert(m == a);
        assert((a + (HALF_UNIT as int)) / (UNIT as int) == a / (UNIT as int) + if a % (UNIT as int) >= (HALF_UNIT as int) { 1int } else { 0int })
            by (nonlinear_arith)
            requires
                a >= 0,
        ;
    }
    if n >= 0 {
        if q > (i32::MAX as u64) {
            i32::MAX
        } else {
            q as i32
        }
    } else {
        if q > 2147483648u64 {
            i32::MIN
        } else {
            (-(q as i64)) as i32
        }
    }
}

impl DiscreteVec3 {
    pub fn new(x: i32, y: i32, z: i32) -> (r: DiscreteVec3)
        ensures
            r == (DiscreteVec3 { x, y, z }),
    {
        DiscreteVec3 { x, y, z }
    }

    /// The cell of a position: each coordinate rounded to the nearest unit.
    pub fn from_pos(p: &Vec3i) -> (r: DiscreteVec3)
        ensures
            r == cell_of(p@),
    {
        DiscreteVec3 { x: discretize(p.x), y: discretize(p.y), z: discretize(p.z) }
    }
}

/// Every position less than half a unit from a cell's centre on each axis
/// belongs to that cell.
pub proof fn lemma_round_near_center(n: int, c: int)
    requires
        -(HALF_UNIT as int) < n - (UNIT as int) * c < (HALF_UNIT as int),
    ensures
        round_units(n) == c,
{
    if n >= 0 {
        assert((n + (HALF_UNIT as int)) / (UNIT as int) == c) by (nonlinear_arith)
            requires
                -(HALF_UNIT as int) < n - (UNIT as int) * c < (HALF_UNIT as int),
                n >= 0,
        ;
    } else {
        assert((-n + (HALF_UNIT as int)) / (UNIT as int) == -c) by (nonlinear_arith)
            requires
                -(HALF_UNIT as int) < n - (UNIT as int) * c < (HALF_UNIT as int),
                n < 0,
        ;
    }
}

/// Discretisation is consistent: positions whose coordinates round to the same
/// whole units land in one cell, and every position within half a unit of a
/// cell's centre on each axis lands in that cell.
pub proof fn lemma_discretization_consistent(p: (int, int, int), q: (int, int, int), c: DiscreteVec3)
    ensures
        (round_units(p.0) == round_units(q.0) && round_units(p.1) == round_units(q.1)
            && round_units(p.2) == round_units(q.2)) ==> cell_of(p) == cell_of(q),
        (-(HALF_UNIT as int) < p.0 - (UNIT as int) * c.x < (HALF_UNIT as int) && -(HALF_UNIT as int) < p.1 - (UNIT as int) * c.y < (HALF_UNIT as int)
            && -(HALF_UNIT as int) < p.2 - (UNIT as int) * c.z < (HALF_UNIT as int)) ==> cell_of(p) == c,
{
    if -(HALF_UNIT as int) < p.0 - (UNIT as int) * c.x < (HALF_UNIT as int) && -(HALF_UNIT as int) < p.1 - (UNIT as int) * c.y < (HALF_UNIT as int)
        && -(HALF_UNIT as int) < p.2 - (UNIT as int) * c.z < (HALF_UNIT as int) {
        lemma_round_near_center(p.0, c.x as int);
        lemma_round_near_center(p.1, c.y as int);
        lemma_round_near_center(p.2, c.z as int);
    }
}

} // verus!
