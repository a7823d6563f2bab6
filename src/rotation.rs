//! Rotations that take the axes onto the axes: the orientations a block of the
//! orthogonal kit can have.
use vstd::prelude::*;
use crate::geometry::{
    Dir, Vec3i, dir_axis, dir_neg, dir_share, in_bounds, coord_ok,
};

verus! {

/// A rotation given by where it takes the unit vectors along `+x`, `+y` and `+z`.
#[derive(Clone, Copy, Debug, PartialEq, Eq, Structural)]
pub struct Rot {
    pub x: Dir,
    pub y: Dir,
    pub z: Dir,
}

impl Rot {
    /// The images of the three axes lie on three different axes.
    pub open spec fn wf(&self) -> bool {
        dir_axis(self.x) != dir_axis(self.y) && dir_axis(self.y) != dir_axis(self.z)
            && dir_axis(self.x) != dir_axis(self.z)
    }
}

pub open spec fn identity_spec() -> Rot {
    Rot { x: Dir::PosX, y: Dir::PosY, z: Dir::PosZ }
}

/// Where the rotation takes a direction.
pub open spec fn rot_dir(r: Rot, d: Dir) -> Dir {
    match d {
        Dir::PosX => r.x,
        Dir::NegX => dir_neg(r.x),
        Dir::PosY => r.y,
        Dir::NegY => dir_neg(r.y),
        Dir::PosZ => r.z,
        Dir::NegZ => dir_neg(r.z),
    }
}

/// `a * b`: first `b`, then `a`.
pub open spec fn compose_spec(a: Rot, b: Rot) -> Rot {
    Rot { x: rot_dir(a, b.x), y: rot_dir(a, b.y), z: rot_dir(a, b.z) }
}

/// The rotation applied to a vector.
pub open spec fn rot_apply(r: Rot, v: (int, int, int)) -> (int, int, int) {
    (
        dir_share(r.x, 0, v.0) + dir_share(r.y, 0, v.1) + dir_share(r.z, 0, v.2),
        dir_share(r.x, 1, v.0) + dir_share(r.y, 1, v.1) + dir_share(r.z, 1, v.2),
        dir_share(r.x, 2, v.0) + dir_share(r.y, 2, v.1) + dir_share(r.z, 2, v.2),
    )
}

/// A quarter turn about `+y`, counter-clockwise seen from above.
pub open spec fn quarter_y_spec() -> Rot {
    Rot { x: Dir::NegZ, y: Dir::PosY, z: Dir::PosX }
}

/// A quarter turn about `+z`.
pub open spec fn quarter_z_spec() -> Rot {
    Rot { x: Dir::PosY, y: Dir::NegX, z: Dir::PosZ }
}

/// The shortest-arc rotation that takes `+y` onto `n`; for `-y`, the half turn
/// about the `z` axis.
pub open spec fn arc_from_up(n: Dir) -> Rot {
    match n {
        Dir::PosY => Rot { x: Dir::PosX, y: Dir::PosY, z: Dir::PosZ },
        Dir::NegY => Rot { x: Dir::NegX, y: Dir::NegY, z: Dir::PosZ },
        Dir::PosX => Rot { x: Dir::NegY, y: Dir::PosX, z: Dir::PosZ },
        Dir::NegX => Rot { x: Dir::PosY, y: Dir::NegX, z: Dir::PosZ },
        Dir::PosZ => Rot { x: Dir::PosX, y: Dir::PosZ, z: Dir::NegY },
        Dir::NegZ => Rot { x: Dir::PosX, y: Dir::NegZ, z: Dir::PosY },
    }
}

fn dir_image(r: &Rot, d: Dir) -> (o: Dir)
    ensures
        o == rot_dir(*r, d),
{
    match d {
        Dir::PosX => r.x,
        Dir::NegX => r.x.neg(),
        Dir::PosY => r.y,
        Dir::NegY => r.y.neg(),
        Dir::PosZ => r.z,
        Dir::NegZ => r.z.neg(),
    }
}

fn axis_index(d: Dir) -> (a: u8)
    ensures
        a == dir_axis(d),
{
    match d {
        Dir::PosX | Dir::NegX => 0,
        Dir::PosY | Dir::NegY => 1,
        Dir::PosZ | Dir::NegZ => 2,
    }
}

fn share(d: Dir, a: u8, s: i64) -> (o: i64)
    requires
        coord_ok(s as int),
        a < 3,
    ensures
        o == dir_share(d, a as int, s as int),
{
    let axis = axis_index(d);
    let positive = match d {
        Dir::PosX | Dir::PosY | Dir::PosZ => true,
        _ => false,
    };
    if axis != a {
        0
    } else if positive {
        s
    } else {
        -s
    }
}

impl Rot {
    /// Whether the rotation is well formed.
    pub fn is_valid(&self) -> (r: bool)
        ensures
            r == self.wf(),
    {
        let ax = axis_index(self.x);
        let ay = axis_index(self.y);
        let az = axis_index(self.z);
        ax != ay && ay != az && ax != az
    }

    pub fn identity() -> (r: Rot)
        ensures
            r == identity_spec(),
            r.wf(),
    {
        Rot { x: Dir::PosX, y: Dir::PosY, z: Dir::PosZ }
    }

    pub fn quarter_y() -> (r: Rot)
        ensures
            r == quarter_y_spec(),
            r.wf(),
    {
        Rot { x: Dir::NegZ, y: Dir::PosY, z: Dir::PosX }
    }

    pub fn quarter_z() -> (r: Rot)
        ensures
            r == quarter_z_spec(),
            r.wf(),
    {
        Rot { x: Dir::PosY, y: Dir::NegX, z: Dir::PosZ }
    }

    /// The rotation that takes `+y` onto `n` by the shortest arc.
    pub fn from_arc_up(n: Dir) -> (r: Rot)
        ensures
            r == arc_from_up(n),
            r.wf(),
            rot_dir(r, Dir::PosY) == n,
    {
        match n {
            Dir::PosY => Rot { x: Dir::PosX, y: Dir::PosY, z: Dir::PosZ },
            Dir::NegY => Rot { x: Dir::NegX, y: Dir::NegY, z: Dir::PosZ },
            Dir::PosX => Rot { x: Dir::NegY, y: Dir::PosX, z: Dir::PosZ },
            Dir::NegX => Rot { x: Dir::PosY, y: Dir::NegX, z: Dir::PosZ },
            Dir::PosZ => Rot { x: Dir::PosX, y: Dir::PosZ, z: Dir::NegY },
            Dir::NegZ => Rot { x: Dir::PosX, y: Dir::NegZ, z: Dir::PosY },
        }
    }

    /// `self * other`: the rotation that applies `other`, then `self`.
    pub fn compose(&self, other: &Rot) -> (r: Rot)
        requires
            self.wf(),
            other.wf(),
        ensures
            r == compose_spec(*self, *other),
            r.wf(),
    {
        Rot { x: dir_image(self, other.x), y: dir_image(self, other.y), z: dir_image(self, other.z) }
    }

    /// Where the rotation takes a direction.
    pub fn apply_dir(&self, d: Dir) -> (r: Dir)
        ensures
            r == rot_dir(*self, d),
    {
        dir_image(self, d)
    }

    /// The rotation applied to a vector.
    pub fn apply(&self, v: &Vec3i) -> (r: Vec3i)
        requires
            self.wf(),
            in_bounds(v@),
        ensures
            r@ == rot_apply(*self, v@),
            in_bounds(r@),
    {
        let x = share(self.x, 0, v.x) + share(self.y, 0, v.y) + share(self.z, 0, v.z);
        let y = share(self.x, 1, v.x) + share(self.y, 1, v.y) + share(self.z, 1, v.z);
        let z = share(self.x, 2, v.x) + share(self.y, 2, v.y) + share(self.z, 2, v.z);
        Vec3i { x, y, z }
    }
}

/// Four quarter turns about `+y`, or four about `+z`, bring any orientation back
/// to where it started.
pub proof fn lemma_four_quarter_turns(r: Rot)
    ensures
        compose_spec(compose_spec(compose_spec(compose_spec(r, quarter_y_spec()), quarter_y_spec()),
            quarter_y_spec()), quarter_y_spec()) == r,
        compose_spec(compose_spec(compose_spec(compose_spec(r, quarter_z_spec()), quarter_z_spec()),
            quarter_z_spec()), quarter_z_spec()) == r,
{
}

} // verus!
