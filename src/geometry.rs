//! Fixed-point positions, the six axis directions and the integer cell lattice.
//!
//! A length is counted in thousandths of a world unit, so a block of unit size
//! spans `UNIT` steps and a snap point sits `HALF_UNIT` steps from its centre.
use vstd::prelude::*;

verus! {

/// Steps of fixed-point length in one world unit.
pub const UNIT: i64 = 1000;

/// Half a world unit, in fixed-point steps.
pub const HALF_UNIT: i64 = 500;

/// Largest magnitude a coordinate may have for the building arithmetic
/// (about a billion world units), so that sums of a few such values fit in `i64`.
pub const COORD_LIMIT: i64 = 1_099_511_627_776;

/// A position or offset in fixed-point steps.
#[derive(Clone, Copy, Debug, PartialEq, Eq, Structural)]
pub struct Vec3i {
    pub x: i64,
    pub y: i64,
    pub z: i64,
}

impl View for Vec3i {
    type V = (int, int, int);

    open spec fn view(&self) -> (int, int, int) {
        (self.x as int, self.y as int, self.z as int)
    }
}

pub open spec fn coord_ok(c: int) -> bool {
    -COORD_LIMIT <= c <= COORD_LIMIT
}

pub open spec fn in_bounds(v: (int, int, int)) -> bool {
    coord_ok(v.0) && coord_ok(v.1) && coord_ok(v.2)
}

pub open spec fn add3(a: (int, int, int), b: (int, int, int)) -> (int, int, int) {
    (a.0 + b.0, a.1 + b.1, a.2 + b.2)
}

pub open spec fn sub3(a: (int, int, int), b: (int, int, int)) -> (int, int, int) {
    (a.0 - b.0, a.1 - b.1, a.2 - b.2)
}

pub open spec fn scale3(k: int, a: (int, int, int)) -> (int, int, int) {
    (k * a.0, k * a.1, k * a.2)
}

impl Vec3i {
    pub fn new(x: i64, y: i64, z: i64) -> (r: Vec3i)
        ensures
            r@ == (x as int, y as int, z as int),
    {
        Vec3i { x, y, z }
    }

    pub fn zero() -> (r: Vec3i)
        ensures
            r@ == (0int, 0int, 0int),
    {
        Vec3i { x: 0, y: 0, z: 0 }
    }

    pub fn is_in_bounds(&self) -> (r: bool)
        ensures
            r == in_bounds(self@),
    {
        -COORD_LIMIT <= self.x && self.x <= COORD_LIMIT && -COORD_LIMIT <= self.y && self.y
            <= COORD_LIMIT && -COORD_LIMIT <= self.z && self.z <= COORD_LIMIT
    }

    /// Component-wise sum.
    pub fn add(&self, o: &Vec3i) -> (r: Vec3i)
        requires
            in_bounds(self@),
            in_bounds(o@),
        ensures
            r@ == add3(self@, o@),
    {
        Vec3i { x: self.x + o.x, y: self.y + o.y, z: self.z + o.z }
    }

    /// Component-wise difference.
    pub fn sub(&self, o: &Vec3i) -> (r: Vec3i)
        requires
            in_bounds(self@),
            in_bounds(o@),
        ensures
            r@ == sub3(self@, o@),
    {
        Vec3i { x: self.x - o.x, y: self.y - o.y, z: self.z - o.z }
    }

    /// The vector scaled by a small integer factor.
    pub fn scale(&self, k: i64) -> (r: Vec3i)
        requires
            in_bounds(self@),
            -1024 <= k <= 1024,
        ensures
            r@ == scale3(k as int, self@),
    {
        proof {
            assert(-COORD_LIMIT * 1024 <= k * self.x <= COORD_LIMIT * 1024) by (nonlinear_arith)
                requires
                    -1024 <= k <= 1024,
                    -COORD_LIMIT <= self.x <= COORD_LIMIT,
            ;
            assert(-COORD_LIMIT * 1024 <= k * self.y <= COORD_LIMIT * 1024) by (nonlinear_arith)
                requires
                    -1024 <= k <= 1024,
                    -COORD_LIMIT <= self.y <= COORD_LIMIT,
            ;
            assert(-COORD_LIMIT * 1024 <= k * self.z <= COORD_LIMIT * 1024) by (nonlinear_arith)
                requires
                    -1024 <= k <= 1024,
                    -COORD_LIMIT <= self.z <= COORD_LIMIT,
            ;
        }
        Vec3i { x: k * self.x, y: k * self.y, z: k * self.z }
    }
}

/// One of the six axis directions.
#[derive(Clone, Copy, Debug, PartialEq, Eq, Structural)]
pub enum Dir {
    PosX,
    NegX,
    PosY,
    NegY,
    PosZ,
    NegZ,
}

/// The axis a direction lies on: 0 for x, 1 for y, 2 for z.
pub open spec fn dir_axis(d: Dir) -> int {
    match d {
        Dir::PosX | Dir::NegX => 0,
        Dir::PosY | Dir::NegY => 1,
        Dir::PosZ | Dir::NegZ => 2,
    }
}

pub open spec fn dir_positive(d: Dir) -> bool {
    match d {
        Dir::PosX | Dir::PosY | Dir::PosZ => true,
        _ => false,
    }
}

pub open spec fn dir_neg(d: Dir) -> Dir {
    match d {
        Dir::PosX => Dir::NegX,
        Dir::NegX => Dir::PosX,
        Dir::PosY => Dir::NegY,
        Dir::NegY => Dir::PosY,
        Dir::PosZ => Dir::NegZ,
        Dir::NegZ => Dir::PosZ,
    }
}

/// The signed share that `s` steps along `d` give to axis `a`.
pub open spec fn dir_share(d: Dir, a: int, s: int) -> int {
    if dir_axis(d) != a {
        0
    } else if dir_positive(d) {
        s
    } else {
        -s
    }
}

/// The vector `s` steps long along `d`.
pub open spec fn dir_scaled(d: Dir, s: int) -> (int, int, int) {
    (dir_share(d, 0, s), dir_share(d, 1, s), dir_share(d, 2, s))
}

impl Dir {
    pub fn neg(&self) -> (r: Dir)
        ensures
            r == dir_neg(*self),
    {
        match self {
            Dir::PosX => Dir::NegX,
            Dir::NegX => Dir::PosX,
            Dir::PosY => Dir::NegY,
            Dir::NegY => Dir::PosY,
            Dir::PosZ => Dir::NegZ,
            Dir::NegZ => Dir::PosZ,
        }
    }

    /// The vector `s` steps long along this direction.
    pub fn scaled(&self, s: i64) -> (r: Vec3i)
        requires
            coord_ok(s as int),
        ensures
            r@ == dir_scaled(*self, s as int),
            in_bounds(r@),
    {
        match self {
            Dir::PosX => Vec3i { x: s, y: 0, z: 0 },
            Dir::NegX => Vec3i { x: -s, y: 0, z: 0 },
            Dir::PosY => Vec3i { x: 0, y: s, z: 0 },
            Dir::NegY => Vec3i { x: 0, y: -s, z: 0 },
            Dir::PosZ => Vec3i { x: 0, y: 0, z: s },
            Dir::NegZ => Vec3i { x: 0, y: 0, z: -s },
        }
    }
}

pub open spec fn abs(a: int) -> int {
    if a < 0 {
        -a
    } else {
        a
    }
}

/// The axis direction closest to `v`: the axis of its largest component in
/// magnitude (x before y before z on ties), signed as that component; `+y` for
/// the zero vector.
pub open spec fn nearest_axis_spec(v: (int, int, int)) -> Dir {
    if v.0 == 0 && v.1 == 0 && v.2 == 0 {
        Dir::PosY
    } else if abs(v.0) >= abs(v.1) && abs(v.0) >= abs(v.2) {
        if v.0 >= 0 {
            Dir::PosX
        } else {
            Dir::NegX
        }
    } else if abs(v.1) >= abs(v.2) {
        if v.1 >= 0 {
            Dir::PosY
        } else {
            Dir::NegY
        }
    } else if v.2 >= 0 {
        Dir::PosZ
    } else {
        Dir::NegZ
    }
}

/// Takes a surface normal to the axis direction closest to it; the block kit
/// only places along the axes.
pub fn nearest_axis(v: &Vec3i) -> (r: Dir)
    requires
        in_bounds(v@),
    ensures
        r == nearest_axis_spec(v@),
{
    let ax: i64 = if v.x < 0 { -v.x } else { v.x };
    let ay: i64 = if v.y < 0 { -v.y } else { v.y };
    let az: i64 = if v.z < 0 { -v.z } else { v.z };
    if v.x == 0 && v.y == 0 && v.z == 0 {
        Dir::PosY
    } else if ax >= ay && ax >= az {
        if v.x >= 0 { Dir::PosX } else { Dir::NegX }
    } else if ay >= az {
        if v.y >= 0 { Dir::PosY } else { Dir::NegY }
    } else if v.z >= 0 {
        Dir::PosZ
    } else {
        Dir::NegZ
    }
}

/// Length of a vector that lies on one axis (at most one component non-zero).
pub open spec fn on_axis(v: (int, int, int)) -> bool {
    (v.0 == 0 && v.1 == 0) || (v.0 == 0 && v.2 == 0) || (v.1 == 0 && v.2 == 0)
}

pub open spec fn axis_length(v: (int, int, int)) -> int {
    abs(v.0) + abs(v.1) + abs(v.2)
}

/// The length of a vector that lies on one axis.
pub fn axis_length_of(v: &Vec3i) -> (r: i64)
    requires
        in_bounds(v@),
        on_axis(v@),
    ensures
        r == axis_length(v@),
        coord_ok(r as int),
{
    let ax: i64 = if v.x < 0 { -v.x } else { v.x };
    let ay: i64 = if v.y < 0 { -v.y } else { v.y };
    let az: i64 = if v.z < 0 { -v.z } else { v.z };
    ax + ay + az
}

} // verus!
