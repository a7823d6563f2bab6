//! Block types of the building kit: their snap points, collision shapes and
//! solidity, and the kit in toolbar order.
use vstd::prelude::*;
use crate::geometry::{Dir, Vec3i, in_bounds, on_axis, HALF_UNIT};

verus! {

/// Whether an occupied cell stops snap anchors from pointing into it.
#[derive(Clone, Copy, Debug, PartialEq, Eq, Structural)]
pub enum GridSolidity {
    Solid,
    Leaky,
}

impl Default for GridSolidity {
    fn default() -> (r: GridSolidity)
        ensures
            r == GridSolidity::Solid,
    {
        GridSolidity::Solid
    }
}

/// Which blocks may snap to a snap point.
#[derive(Clone, Copy, Debug, PartialEq, Eq, Structural)]
pub enum BpSnapFilter {
    HalfMeterBlocks,
}

/// A place on a block where another block may be attached flush.
#[derive(Clone, Copy, Debug, PartialEq, Eq, Structural)]
pub struct BpSnapPoint {
    /// Offset from the block's centre, in the block's own frame.
    pub point: Vec3i,
    /// Outward normal, in the block's own frame.
    pub normal: Dir,
    /// Extents of the box that hit-tests the anchor.
    pub cuboid_dims: Vec3i,
    pub filter: BpSnapFilter,
}

impl BpSnapPoint {
    pub open spec fn wf(&self) -> bool {
        in_bounds(self.point@) && in_bounds(self.cuboid_dims@)
    }
}

/// The collision shape of a block, in fixed-point steps.
#[derive(Clone, Copy, Debug, PartialEq, Eq, Structural)]
pub enum BlockShape {
    Cuboid { half_x: i64, half_y: i64, half_z: i64 },
    Cylinder { half_height: i64, radius: i64 },
    Cone { half_height: i64, radius: i64 },
}

/// A block type.
#[derive(Clone, Debug)]
pub struct BpInfo {
    /// From the placement origin to the block's lower surface; it lies on one axis.
    pub bottom: Vec3i,
    pub collider: BlockShape,
    pub snap: Vec<BpSnapPoint>,
    pub solidity: GridSolidity,
}

impl BpInfo {
    pub open spec fn wf(&self) -> bool {
        &&& in_bounds(self.bottom@)
        &&& on_axis(self.bottom@)
        &&& forall|i: int| 0 <= i < self.snap@.len() ==> (#[trigger] self.snap@[i]).wf()
    }
}

/// The kit of block types, with their names, in toolbar order.
#[derive(Clone, Debug)]
pub struct BpInfos {
    pub bps: Vec<(String, BpInfo)>,
}

impl BpInfos {
    /// Names are unique and every block type is well formed.
    pub open spec fn wf(&self) -> bool {
        &&& forall|i: int, j: int|
            0 <= i < j < self.bps@.len() ==> (#[trigger] self.bps@[i]).0@ != (#[trigger] self.bps@[j]).0@
        &&& forall|i: int| 0 <= i < self.bps@.len() ==> (#[trigger] self.bps@[i]).1.wf()
    }

    /// The position of the block type called `name`, if any.
    pub fn index_of(&self, name: &String) -> (r: Option<usize>)
        ensures
            match r {
                Some(i) => i < self.bps@.len() && self.bps@[i as int].0@ == name@,
                None => forall|i: int| 0 <= i < self.bps@.len() ==> (#[trigger] self.bps@[i]).0@ != name@,
            },
    {
        let mut i: usize = 0;
        while i < self.bps.len()
            invariant
                i <= self.bps@.len(),
                forall|j: int| 0 <= j < i ==> (#[trigger] self.bps@[j]).0@ != name@,
            decreases self.bps@.len() - i,
        {
            if self.bps[i].0 == *name {
                return Some(i);
            }
            i = i + 1;
        }
        None
    }

    /// The block type called `name`, if the kit has one.
    pub fn get(&self, name: &String) -> (r: Option<&BpInfo>)
        ensures
            match r {
                Some(b) => exists|i: int|
                    0 <= i < self.bps@.len() && (#[trigger] self.bps@[i]).0@ == name@ && *b == self.bps@[i].1,
                None => forall|i: int| 0 <= i < self.bps@.len() ==> (#[trigger] self.bps@[i]).0@ != name@,
            },
    {
        match self.index_of(name) {
            Some(i) => Some(&self.bps[i].1),
            None => None,
        }
    }

    /// The block type at a toolbar position, if there is one.
    pub fn at(&self, index: usize) -> (r: Option<&BpInfo>)
        ensures
            index < self.bps@.len() ==> r == Some(&self.bps@[index as int].1),
            index >= self.bps@.len() ==> r.is_none(),
    {
        if index < self.bps.len() {
            Some(&self.bps[index].1)
        } else {
            None
        }
    }

    /// Number of block types in the toolbar.
    pub fn len(&self) -> (r: usize)
        ensures
            r == self.bps@.len(),
    {
        self.bps.len()
    }
}

/// A half-metre snap point on the face of a unit block that `n` points out of.
pub open spec fn face_snap(n: Dir) -> BpSnapPoint {
    let flat = Vec3i { x: 800, y: 200, z: 800 };
    let side_x = Vec3i { x: 200, y: 800, z: 800 };
    let side_z = Vec3i { x: 800, y: 800, z: 200 };
    BpSnapPoint {
        point: match n {
            Dir::PosX => Vec3i { x: HALF_UNIT, y: 0, z: 0 },
            Dir::NegX => Vec3i { x: (-HALF_UNIT) as i64, y: 0, z: 0 },
            Dir::PosY => Vec3i { x: 0, y: HALF_UNIT, z: 0 },
            Dir::NegY => Vec3i { x: 0, y: (-HALF_UNIT) as i64, z: 0 },
            Dir::PosZ => Vec3i { x: 0, y: 0, z: HALF_UNIT },
            Dir::NegZ => Vec3i { x: 0, y: 0, z: (-HALF_UNIT) as i64 },
        },
        normal: n,
        cuboid_dims: match n {
            Dir::PosX | Dir::NegX => side_x,
            Dir::PosY | Dir::NegY => flat,
            Dir::PosZ | Dir::NegZ => side_z,
        },
        filter: BpSnapFilter::HalfMeterBlocks,
    }
}

/// Snap points on all six faces: `+y`, `-y`, `+x`, `-x`, `+z`, `-z`.
pub open spec fn all_faces() -> Seq<BpSnapPoint> {
    seq![
        face_snap(Dir::PosY),
        face_snap(Dir::NegY),
        face_snap(Dir::PosX),
        face_snap(Dir::NegX),
        face_snap(Dir::PosZ),
        face_snap(Dir::NegZ),
    ]
}

/// Snap points on top and bottom only.
pub open spec fn top_and_bottom() -> Seq<BpSnapPoint> {
    seq![face_snap(Dir::PosY), face_snap(Dir::NegY)]
}

/// The bottom of every block of the kit: half a unit below its centre.
pub open spec fn kit_bottom() -> (int, int, int) {
    (0, -HALF_UNIT as int, 0)
}

fn face_snap_exec(n: Dir) -> (r: BpSnapPoint)
    ensures
        r == face_snap(n),
        r.wf(),
{
    let flat = Vec3i { x: 800, y: 200, z: 800 };
    let side_x = Vec3i { x: 200, y: 800, z: 800 };
    let side_z = Vec3i { x: 800, y: 800, z: 200 };
    BpSnapPoint {
        point: n.scaled(HALF_UNIT),
        normal: n,
        cuboid_dims: match n {
            Dir::PosX | Dir::NegX => side_x,
            Dir::PosY | Dir::NegY => flat,
            Dir::PosZ | Dir::NegZ => side_z,
        },
        filter: BpSnapFilter::HalfMeterBlocks,
    }
}

impl Default for BpInfos {
    /// The building kit: a metal frame that snaps on all six faces, a fuel tank
    /// that snaps on top and bottom, a thruster that snaps on top, and a nose cone
    /// that takes no snap; all of them leaky, and in that toolbar order.
    fn default() -> (r: BpInfos)
        ensures
            r.wf(),
            r.bps@.len() == 4,
            r.bps@[0].0@ == "metal_frame"@,
            r.bps@[1].0@ == "fuel_tank"@,
            r.bps@[2].0@ == "thruster"@,
            r.bps@[3].0@ == "nose_cone"@,
            r.bps@[0].1.snap@ == all_faces(),
            r.bps@[1].1.snap@ == top_and_bottom(),
            r.bps@[2].1.snap@ == seq![face_snap(Dir::PosY)],
            r.bps@[3].1.snap@.len() == 0,
            forall|i: int| 0 <= i < 4 ==> (#[trigger] r.bps@[i]).1.bottom@ == kit_bottom(),
            forall|i: int| 0 <= i < 4 ==> (#[trigger] r.bps@[i]).1.solidity == GridSolidity::Leaky,
            r.bps@[0].1.collider == (BlockShape::Cuboid { half_x: 500, half_y: 500, half_z: 500 }),
            r.bps@[1].1.collider == (BlockShape::Cylinder { half_height: 500, radius: 500 }),
            r.bps@[2].1.collider == (BlockShape::Cylinder { half_height: 500, radius: 500 }),
            r.bps@[3].1.collider == (BlockShape::Cone { half_height: 500, radius: 500 }),
    {
        let bottom = Vec3i { x: 0, y: (-HALF_UNIT) as i64, z: 0 };
        let hm_all = vec![
            face_snap_exec(Dir::PosY),
            face_snap_exec(Dir::NegY),
            face_snap_exec(Dir::PosX),
            face_snap_exec(Dir::NegX),
            face_snap_exec(Dir::PosZ),
            face_snap_exec(Dir::NegZ),
        ];
        let hm_tank = vec![face_snap_exec(Dir::PosY), face_snap_exec(Dir::NegY)];
        let hm_top = vec![face_snap_exec(Dir::PosY)];
        let none: Vec<BpSnapPoint> = Vec::new();
        let frame = BpInfo {
            bottom,
            collider: BlockShape::Cuboid { half_x: 500, half_y: 500, half_z: 500 },
            snap: hm_all,
            solidity: GridSolidity::Leaky,
        };
        let tank = BpInfo {
            bottom,
            collider: BlockShape::Cylinder { half_height: 500, radius: 500 },
            snap: hm_tank,
            solidity: GridSolidity::Leaky,
        };
        let thruster = BpInfo {
            bottom,
            collider: BlockShape::Cylinder { half_height: 500, radius: 500 },
            snap: hm_top,
            solidity: GridSolidity::Leaky,
        };
        let cone = BpInfo {
            bottom,
            collider: BlockShape::Cone { half_height: 500, radius: 500 },
            snap: none,
            solidity: GridSolidity::Leaky,
        };
        let bps = vec![
            ("metal_frame".to_owned(), frame),
            ("fuel_tank".to_owned(), tank),
            ("thruster".to_owned(), thruster),
            ("nose_cone".to_owned(), cone),
        ];
        proof {
            reveal_strlit("metal_frame");
            reveal_strlit("fuel_tank");
            reveal_strlit("thruster");
            reveal_strlit("nose_cone");
            assert(bps@[0].1.snap@ =~= all_faces());
            assert(bps@[1].1.snap@ =~= top_and_bottom());
            assert(bps@[2].1.snap@ =~= seq![face_snap(Dir::PosY)]);
            assert(bps@[0].0@.len() == 11);
            assert(bps@[1].0@.len() == 9);
            assert(bps@[2].0@.len() == 8);
            assert(bps@[3].0@.len() == 9);
            assert(bps@[1].0@[0] != bps@[3].0@[0]);
        }
        BpInfos { bps }
    }
}

} // verus!
