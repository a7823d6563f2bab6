//! A building grid: which cells are occupied, with what solidity, and which
//! snap anchors point into which cells.
use vstd::prelude::*;
use crate::geometry::{Vec3i, in_bounds, add3, scale3};
use crate::rotation::{Rot, rot_apply};
use crate::cell::{DiscreteVec3, cell_of};
use crate::cell_map::CellMap;
use crate::blueprint::{BpInfo, BpSnapPoint, GridSolidity};

verus! {

/// A position and an orientation, in a grid's frame or in the world.
#[derive(Clone, Copy, Debug, PartialEq, Eq, Structural)]
pub struct Placement {
    pub translation: Vec3i,
    pub rotation: Rot,
}

impl Placement {
    pub open spec fn wf(&self) -> bool {
        in_bounds(self.translation@) && self.rotation.wf()
    }

    pub fn new(translation: Vec3i, rotation: Rot) -> (r: Placement)
        ensures
            r == (Placement { translation, rotation }),
    {
        Placement { translation, rotation }
    }
}

/// A snap anchor that a placement asks the surrounding engine to spawn.
#[derive(Clone, Copy, Debug, PartialEq, Eq, Structural)]
pub struct AnchorSpawn {
    /// The grid's identifier for the anchor.
    pub id: u64,
    /// Where the anchor's hit volume stands, in the grid's frame.
    pub transform: Placement,
    /// The snap point of the block type that the anchor comes from.
    pub snap: BpSnapPoint,
    /// The cell the anchor points into.
    pub cell: DiscreteVec3,
}

/// What a block registration asks of the surrounding engine.
#[derive(Clone, Debug)]
pub struct InsertOutcome {
    /// Anchors to take away: they pointed into the cell the block now fills.
    pub retracted: Vec<u64>,
    /// Anchors to spawn, in the order of the block type's snap points.
    pub spawned: Vec<AnchorSpawn>,
}

/// The cell a snap point of a block placed at `t` points into: two snap
/// offsets from the block's centre.
pub open spec fn anchor_cell(t: Placement, sp: BpSnapPoint) -> DiscreteVec3 {
    cell_of(add3(t.translation@, scale3(2, rot_apply(t.rotation, sp.point@))))
}

/// The anchors in a cell.
pub open spec fn snaps_at(snaps: Map<DiscreteVec3, Seq<u64>>, c: DiscreteVec3) -> Seq<u64> {
    if snaps.contains_key(c) {
        snaps[c]
    } else {
        Seq::empty()
    }
}

/// A grid as a mathematical value.
pub struct GridModel {
    pub solid: Map<DiscreteVec3, GridSolidity>,
    pub snaps: Map<DiscreteVec3, Seq<u64>>,
    /// The identifier the next anchor gets.
    pub next: int,
}

/// An anchor spawn as plain values: identifier, snap point, translation,
/// rotation and target cell.
pub type SpawnView = (int, BpSnapPoint, (int, int, int), Rot, DiscreteVec3);

pub open spec fn spawn_view(a: AnchorSpawn) -> SpawnView {
    (a.id as int, a.snap, a.transform.translation@, a.transform.rotation, a.cell)
}

/// The anchors that snap points `snaps` of a block placed at `t` give, skipping
/// those that point into a cell of `solid`; identifiers are handed out from
/// `next` on.
pub open spec fn spawns_spec(
    solid: Map<DiscreteVec3, GridSolidity>,
    next: int,
    t: Placement,
    snaps: Seq<BpSnapPoint>,
) -> Seq<SpawnView>
    decreases snaps.len(),
{
    if snaps.len() == 0 {
        Seq::empty()
    } else {
        let prev = spawns_spec(solid, next, t, snaps.drop_last());
        let sp = snaps.last();
        let c = anchor_cell(t, sp);
        if solid.contains_key(c) {
            prev
        } else {
            prev.push(
                (
                    next + prev.len(),
                    sp,
                    add3(t.translation@, rot_apply(t.rotation, sp.point@)),
                    t.rotation,
                    c,
                ),
            )
        }
    }
}

/// The anchor cells of a grid after `spawns` are recorded.
pub open spec fn record_spawns(
    snaps: Map<DiscreteVec3, Seq<u64>>,
    spawns: Seq<SpawnView>,
) -> Map<DiscreteVec3, Seq<u64>>
    decreases spawns.len(),
{
    if spawns.len() == 0 {
        snaps
    } else {
        let prev = record_spawns(snaps, spawns.drop_last());
        let s = spawns.last();
        prev.insert(s.4, snaps_at(prev, s.4).push(s.0 as u64))
    }
}

/// A grid with no blocks and no anchors.
pub open spec fn empty_grid_model() -> GridModel {
    GridModel { solid: Map::empty(), snaps: Map::empty(), next: 0 }
}

/// The cell a block placed at `t` fills.
pub open spec fn block_cell(t: Placement) -> DiscreteVec3 {
    cell_of(t.translation@)
}

/// The grid after a block of type `bp` is registered at `t`: its cell takes the
/// block's solidity, the anchors that pointed into it go, and the block's own
/// anchors that do not point into a filled cell come.
pub open spec fn register_spec(m: GridModel, bp: BpInfo, t: Placement) -> GridModel {
    let c = block_cell(t);
    let solid = m.solid.insert(c, bp.solidity);
    let spawns = spawns_spec(solid, m.next, t, bp.snap@);
    GridModel {
        solid,
        snaps: record_spawns(m.snaps.remove(c), spawns),
        next: m.next + spawns.len(),
    }
}

/// Each anchor stands at its snap point of the placed block, turned with the
/// block, and points two snap offsets out from the block's centre.
pub proof fn lemma_spawn_entries(
    solid: Map<DiscreteVec3, GridSolidity>,
    next: int,
    t: Placement,
    snaps: Seq<BpSnapPoint>,
)
    ensures
        forall|k: int|
            0 <= k < spawns_spec(solid, next, t, snaps).len() ==> {
                let s = #[trigger] spawns_spec(solid, next, t, snaps)[k];
                &&& s.2 == add3(t.translation@, rot_apply(t.rotation, s.1.point@))
                &&& s.3 == t.rotation
                &&& s.4 == anchor_cell(t, s.1)
                &&& s.0 == next + k
            },
    decreases snaps.len(),
{
    if snaps.len() > 0 {
        lemma_spawn_entries(solid, next, t, snaps.drop_last());
    }
}

/// Re-placing a block in a filled cell replaces the cell's solidity: after two
/// registrations that land in the same cell, the cell holds the second block's
/// solidity, and every other cell holds what it held before either.
pub proof fn lemma_solidity_replaced(m: GridModel, bp1: BpInfo, t1: Placement, bp2: BpInfo, t2: Placement)
    requires
        block_cell(t1) == block_cell(t2),
    ensures
        register_spec(register_spec(m, bp1, t1), bp2, t2).solid == m.solid.insert(
            block_cell(t2),
            bp2.solidity,
        ),
        register_spec(register_spec(m, bp1, t1), bp2, t2).solid[block_cell(t2)] == bp2.solidity,
        forall|c: DiscreteVec3|
            c != block_cell(t2) ==> (#[trigger] register_spec(register_spec(m, bp1, t1), bp2, t2).solid.contains_key(c)
                == m.solid.contains_key(c)) && (m.solid.contains_key(c) ==> register_spec(
                register_spec(m, bp1, t1),
                bp2,
                t2,
            ).solid[c] == m.solid[c]),
{
    let c = block_cell(t2);
    assert(m.solid.insert(c, bp1.solidity).insert(c, bp2.solidity) =~= m.solid.insert(c, bp2.solidity));
}

/// The grid after a sequence of registrations, in order.
pub open spec fn register_all(m: GridModel, regs: Seq<(BpInfo, Placement)>) -> GridModel
    decreases regs.len(),
{
    if regs.len() == 0 {
        m
    } else {
        let prev = register_all(m, regs.drop_last());
        register_spec(prev, regs.last().0, regs.last().1)
    }
}

/// The cells and solidities that a sequence of placements writes, each over
/// what came before.
pub open spec fn solid_after(
    solid: Map<DiscreteVec3, GridSolidity>,
    regs: Seq<(BpInfo, Placement)>,
) -> Map<DiscreteVec3, GridSolidity>
    decreases regs.len(),
{
    if regs.len() == 0 {
        solid
    } else {
        solid_after(solid, regs.drop_last()).insert(block_cell(regs.last().1), regs.last().0.solidity)
    }
}

/// Some placement of `regs` lands in cell `c`.
pub open spec fn touched(regs: Seq<(BpInfo, Placement)>, c: DiscreteVec3) -> bool {
    exists|i: int| 0 <= i < regs.len() && block_cell((#[trigger] regs[i]).1) == c
}

proof fn lemma_untouched_cell(m: GridModel, regs: Seq<(BpInfo, Placement)>, c: DiscreteVec3)
    requires
        !touched(regs, c),
    ensures
        register_all(m, regs).solid.contains_key(c) == m.solid.contains_key(c),
        m.solid.contains_key(c) ==> register_all(m, regs).solid[c] == m.solid[c],
    decreases regs.len(),
{
    if regs.len() > 0 {
        let pre = regs.drop_last();
        assert(block_cell(regs[regs.len() - 1].1) != c);
        if touched(pre, c) {
            let i = choose|i: int| 0 <= i < pre.len() && block_cell((#[trigger] pre[i]).1) == c;
            assert(regs[i] == pre[i]);
        }
        lemma_untouched_cell(m, pre, c);
    }
}

/// For every sequence of placements, the solidity map holds one value per cell:
/// that of the last placement landing in the cell, or the earlier value where
/// none did. Only placements write it; snap anchors never do.
pub proof fn lemma_last_placement_wins(m: GridModel, regs: Seq<(BpInfo, Placement)>)
    ensures
        register_all(m, regs).solid == solid_after(m.solid, regs),
        forall|c: DiscreteVec3|
            !touched(regs, c) ==> (#[trigger] register_all(m, regs).solid.contains_key(c)
                == m.solid.contains_key(c)),
        forall|c: DiscreteVec3|
            !touched(regs, c) && m.solid.contains_key(c) ==> #[trigger] register_all(m, regs).solid[c]
                == m.solid[c],
        regs.len() > 0 ==> register_all(m, regs).solid[block_cell(regs.last().1)] == regs.last().0.solidity,
    decreases regs.len(),
{
    if regs.len() > 0 {
        lemma_last_placement_wins(m, regs.drop_last());
    }
    assert forall|c: DiscreteVec3| !touched(regs, c) implies (#[trigger] register_all(m, regs).solid.contains_key(c)
        == m.solid.contains_key(c)) by {
        lemma_untouched_cell(m, regs, c);
    }
    assert forall|c: DiscreteVec3| !touched(regs, c) && m.solid.contains_key(c) implies #[trigger] register_all(
        m,
        regs,
    ).solid[c] == m.solid[c] by {
        lemma_untouched_cell(m, regs, c);
    }
}

/// A grid of placed blocks.
pub struct Grid {
    solid_blocks: CellMap<GridSolidity>,
    snaps_for_space: CellMap<Vec<u64>>,
    next_anchor: u64,
}

impl Grid {
    pub closed spec fn wf(&self) -> bool {
        self.solid_blocks.wf() && self.snaps_for_space.wf()
    }

    pub closed spec fn model(&self) -> GridModel {
        GridModel {
            solid: self.solid_blocks@,
            snaps: self.snaps_for_space@.map_values(|v: Vec<u64>| v@),
            next: self.next_anchor as int,
        }
    }

    /// How many anchor identifiers the grid has handed out.
    pub fn anchors_issued(&self) -> (r: u64)
        ensures
            r == self.model().next,
    {
        self.next_anchor
    }

    /// An empty grid.
    pub fn new() -> (r: Grid)
        ensures
            r.wf(),
            r.model() == empty_grid_model(),
    {
        let r = Grid { solid_blocks: CellMap::new(), snaps_for_space: CellMap::new(), next_anchor: 0 };
        assert(r.model().snaps =~= Map::<DiscreteVec3, Seq<u64>>::empty());
        r
    }

    /// The solidity of the block in a cell, if one is there.
    pub fn solidity_at(&self, c: &DiscreteVec3) -> (r: Option<GridSolidity>)
        requires
            self.wf(),
        ensures
            r == (if self.model().solid.contains_key(*c) {
                Some(self.model().solid[*c])
            } else {
                None
            }),
    {
        match self.solid_blocks.get(c) {
            Some(s) => Some(*s),
            None => None,
        }
    }

    /// The anchors that point into a cell.
    pub fn snaps_in(&self, c: &DiscreteVec3) -> (r: Vec<u64>)
        requires
            self.wf(),
        ensures
            r@ == snaps_at(self.model().snaps, *c),
    {
        match self.snaps_for_space.get(c) {
            Some(v) => {
                let mut out: Vec<u64> = Vec::new();
                let mut i: usize = 0;
                while i < v.len()
                    invariant
                        i <= v@.len(),
                        out@ == v@.subrange(0, i as int),
                    decreases v@.len() - i,
                {
                    out.push(v[i]);
                    i = i + 1;
                    assert(out@ =~= v@.subrange(0, i as int));
                }
                assert(out@ =~= v@);
                out
            },
            None => Vec::new(),
        }
    }

    fn push_snap(&mut self, c: DiscreteVec3, id: u64)
        requires
            old(self).wf(),
        ensures
            final(self).wf(),
            final(self).next_anchor == old(self).next_anchor,
            final(self).solid_blocks@ == old(self).solid_blocks@,
            final(self).model().snaps == old(self).model().snaps.insert(
                c,
                snaps_at(old(self).model().snaps, c).push(id),
            ),
    {
        let ghost before = self.model().snaps;
        let v = match self.snaps_for_space.remove(&c) {
            Some(v) => v,
            None => Vec::new(),
        };
        let mut v = v;
        v.push(id);
        self.snaps_for_space.insert(c, v);
        assert(self.model().snaps =~= before.insert(c, snaps_at(before, c).push(id)));
    }

    /// Registers a block of type `bp` placed at `target` (in the grid's frame):
    /// its cell takes the block's solidity, the anchors that pointed into that
    /// cell are retracted, and an anchor is spawned for each snap point of the
    /// block whose target cell is not filled.
    pub fn insert_bp_snaps(&mut self, bp: &BpInfo, target: &Placement) -> (r: InsertOutcome)
        requires
            old(self).wf(),
            bp.wf(),
            target.wf(),
            old(self).model().next + bp.snap@.len() <= u64::MAX,
        ensures
            final(self).wf(),
            final(self).model() == register_spec(old(self).model(), *bp, *target),
            r.retracted@ == snaps_at(old(self).model().snaps, block_cell(*target)),
            r.spawned@.map_values(|a: AnchorSpawn| spawn_view(a)) == spawns_spec(
                old(self).model().solid.insert(block_cell(*target), bp.solidity),
                old(self).model().next,
                *target,
                bp.snap@,
            ),
    {
        let ghost m0 = self.model();
        let dest = DiscreteVec3::from_pos(&target.translation);
        self.solid_blocks.insert(dest, bp.solidity);
        let retracted = match self.snaps_for_space.remove(&dest) {
            Some(v) => v,
            None => Vec::new(),
        };
        let ghost solid = self.solid_blocks@;
        let ghost base = self.model().snaps;
        assert(base =~= m0.snaps.remove(dest));
        let mut spawned: Vec<AnchorSpawn> = Vec::new();
        let mut i: usize = 0;
        while i < bp.snap.len()
            invariant
                self.wf(),
                bp.wf(),
                target.wf(),
                i <= bp.snap@.len(),
                self.solid_blocks@ == solid,
                spawned@.map_values(|a: AnchorSpawn| spawn_view(a)) == spawns_spec(
                    solid,
                    m0.next,
                    *target,
                    bp.snap@.subrange(0, i as int),
                ),
                self.next_anchor == m0.next + spawned@.len(),
                spawned@.len() <= i,
                m0.next + bp.snap@.len() <= u64::MAX,
                self.model().snaps == record_spawns(
                    base,
                    spawns_spec(solid, m0.next, *target, bp.snap@.subrange(0, i as int)),
                ),
            decreases bp.snap@.len() - i,
        {
            let sp = bp.snap[i];
            let ghost pre = bp.snap@.subrange(0, i as int);
            let ghost post = bp.snap@.subrange(0, i as int + 1);
            assert(post.drop_last() =~= pre);
            assert(post.last() == sp);
            assert(sp.wf());
            let snap_point = target.rotation.apply(&sp.point);
            let anchor_pos = target.translation.add(&snap_point);
            let dest_pos = Vec3i {
                x: target.translation.x + 2 * snap_point.x,
                y: target.translation.y + 2 * snap_point.y,
                z: target.translation.z + 2 * snap_point.z,
            };
            let ghost prev = spawns_spec(solid, m0.next, *target, pre);
            assert(prev.len() == spawned@.len());
            let c = DiscreteVec3::from_pos(&dest_pos);
            if !self.solid_blocks.contains_key(&c) {
                let id = self.next_anchor;
                let a = AnchorSpawn {
                    id,
                    transform: Placement { translation: anchor_pos, rotation: target.rotation },
                    snap: sp,
                    cell: c,
                };
                let ghost old_spawned = spawned@;
                spawned.push(a);
                assert(spawned@.map_values(|a: AnchorSpawn| spawn_view(a)) =~= old_spawned.map_values(
                    |a: AnchorSpawn| spawn_view(a),
                ).push(spawn_view(a)));
                self.push_snap(c, id);
                self.next_anchor = self.next_anchor + 1;
                let ghost v = spawn_view(a);
                assert(spawns_spec(solid, m0.next, *target, post) == prev.push(v));
                assert(prev.push(v).drop_last() =~= prev);
                assert(record_spawns(base, prev.push(v)) == record_spawns(base, prev).insert(
                    c,
                    snaps_at(record_spawns(base, prev), c).push(id),
                ));
            } else {
                assert(spawns_spec(solid, m0.next, *target, post) == prev);
            }
            i = i + 1;
        }
        assert(bp.snap@.subrange(0, bp.snap@.len() as int) =~= bp.snap@);
        InsertOutcome { retracted, spawned }
    }
}

} // verus!
