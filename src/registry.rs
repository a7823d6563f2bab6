//! The table of grids, keyed by the engine's grid identifiers, and the snap
//! events that register placed blocks with their grid once it can be found.
use vstd::prelude::*;
use crate::grid::{
    AnchorSpawn, Grid, GridModel, InsertOutcome, Placement, SpawnView, register_spec, empty_grid_model,
    snaps_at, block_cell, spawn_view, spawns_spec,
};
use crate::blueprint::{BpInfo, BpInfos};

verus! {

/// A request to register a block with a grid: the block type's position in
/// the kit, the grid, and the block's transform in the grid's frame.
#[derive(Clone, Copy, Debug, PartialEq, Eq, Structural)]
pub enum BpSnapsEvent {
    InsertSnaps(usize, u64, Placement),
}

/// A registration that could not run yet and is to be tried again.
#[derive(Clone, Copy, Debug, PartialEq, Eq, Structural)]
pub struct BpSnapsRepeatEvent(pub BpSnapsEvent);

/// All grids, each under its identifier.
pub struct Grids {
    grids: Vec<(u64, Grid)>,
    contents: Ghost<Map<u64, GridModel>>,
}

impl View for Grids {
    type V = Map<u64, GridModel>;

    closed spec fn view(&self) -> Map<u64, GridModel> {
        self.contents@
    }
}

/// The grid a block may be registered with now: it is known, and it has
/// anchor identifiers left for every snap point of the block.
pub open spec fn can_register(gm: Map<u64, GridModel>, id: u64, bp: BpInfo) -> bool {
    gm.contains_key(id) && gm[id].next + bp.snap@.len() <= u64::MAX
}

/// A registration's outcome as plain values: the grid, the anchors retracted
/// and the anchors spawned.
pub type OutcomeView = (u64, Seq<u64>, Seq<SpawnView>);

pub open spec fn outcome_view(o: (u64, InsertOutcome)) -> OutcomeView {
    (o.0, o.1.retracted@, o.1.spawned@.map_values(|a: AnchorSpawn| spawn_view(a)))
}

/// What registering a block of type `bp` at `t` with grid `m` (known as `id`)
/// hands back.
pub open spec fn outcome_spec(m: GridModel, id: u64, bp: BpInfo, t: Placement) -> OutcomeView {
    (
        id,
        snaps_at(m.snaps, block_cell(t)),
        spawns_spec(m.solid.insert(block_cell(t), bp.solidity), m.next, t, bp.snap@),
    )
}

/// Grids, pending repeats and outcomes after a sequence of snap events: an
/// event for a grid not yet known is repeated later, one for a grid out of
/// anchor identifiers is dropped, and any other registers its block.
pub open spec fn snaps_events_spec(
    gm: Map<u64, GridModel>,
    kit: Seq<(String, BpInfo)>,
    evs: Seq<BpSnapsEvent>,
) -> (Map<u64, GridModel>, Seq<BpSnapsEvent>, Seq<OutcomeView>)
    decreases evs.len(),
{
    if evs.len() == 0 {
        (gm, Seq::empty(), Seq::empty())
    } else {
        let prev = snaps_events_spec(gm, kit, evs.drop_last());
        match evs.last() {
            BpSnapsEvent::InsertSnaps(bp, grid, t) => {
                if !prev.0.contains_key(grid) {
                    (prev.0, prev.1.push(evs.last()), prev.2)
                } else if !can_register(prev.0, grid, kit[bp as int].1) {
                    prev
                } else {
                    (
                        prev.0.insert(grid, register_spec(prev.0[grid], kit[bp as int].1, t)),
                        prev.1,
                        prev.2.push(outcome_spec(prev.0[grid], grid, kit[bp as int].1, t)),
                    )
                }
            },
        }
    }
}

impl Grids {
    pub closed spec fn wf(&self) -> bool {
        &&& forall|i: int, j: int|
            0 <= i < j < self.grids@.len() ==> (#[trigger] self.grids@[i]).0 != (
            #[trigger] self.grids@[j]).0
        &&& forall|i: int|
            0 <= i < self.grids@.len() ==> (#[trigger] self.grids@[i]).1.wf()
                && self.contents@.contains_key(self.grids@[i].0) && self.contents@[self.grids@[i].0]
                == self.grids@[i].1.model()
        &&& forall|k: u64| #[trigger]
            self.contents@.contains_key(k) ==> exists|i: int|
                0 <= i < self.grids@.len() && (#[trigger] self.grids@[i]).0 == k
    }

    pub fn new() -> (r: Grids)
        ensures
            r.wf(),
            r@ == Map::<u64, GridModel>::empty(),
    {
        Grids { grids: Vec::new(), contents: Ghost(Map::empty()) }
    }

    fn find(&self, id: u64) -> (r: Option<usize>)
        requires
            self.wf(),
        ensures
            match r {
                Some(i) => i < self.grids@.len() && self.grids@[i as int].0 == id,
                None => !self@.contains_key(id),
            },
    {
        let mut i: usize = 0;
        while i < self.grids.len()
            invariant
                self.wf(),
                i <= self.grids@.len(),
                forall|j: int| 0 <= j < i ==> (#[trigger] self.grids@[j]).0 != id,
            decreases self.grids@.len() - i,
        {
            if self.grids[i].0 == id {
                return Some(i);
            }
            i = i + 1;
        }
        None
    }

    /// Whether a grid is known under `id`.
    pub fn contains(&self, id: u64) -> (r: bool)
        requires
            self.wf(),
        ensures
            r == self@.contains_key(id),
    {
        self.find(id).is_some()
    }

    /// The grid known under `id`, if any.
    pub fn get(&self, id: u64) -> (r: Option<&Grid>)
        requires
            self.wf(),
        ensures
            r.is_some() == self@.contains_key(id),
            r matches Some(g) ==> g.wf() && g.model() == self@[id],
    {
        match self.find(id) {
            Some(i) => Some(&self.grids[i].1),
            None => None,
        }
    }

    /// Adds an empty grid under `id`; a grid already known under it stays as it is.
    pub fn add_grid(&mut self, id: u64)
        requires
            old(self).wf(),
        ensures
            final(self).wf(),
            old(self)@.contains_key(id) ==> final(self)@ == old(self)@,
            !old(self)@.contains_key(id) ==> final(self)@ == old(self)@.insert(id, empty_grid_model()),
    {
        if self.find(id).is_some() {
            return;
        }
        let g = Grid::new();
        let ghost gm = g.model();
        self.grids.push((id, g));
        self.contents = Ghost(self.contents@.insert(id, gm));
        let ghost n: int = self.grids@.len() - 1;
        assert(forall|i: int| 0 <= i < n ==> self.grids@[i] == old(self).grids@[i]);
        assert forall|i: int| 0 <= i < self.grids@.len() implies (#[trigger] self.grids@[i]).1.wf()
            && self.contents@.contains_key(self.grids@[i].0) && self.contents@[self.grids@[i].0]
            == self.grids@[i].1.model() by {
            if i < n {
                assert(old(self).grids@[i].0 != id);
            }
        }
        assert forall|k: u64| #[trigger] self.contents@.contains_key(k) implies exists|j: int|
            0 <= j < self.grids@.len() && (#[trigger] self.grids@[j]).0 == k by {
            if k == id {
                assert(self.grids@[n].0 == k);
            } else {
                let j = choose|j: int|
                    0 <= j < old(self).grids@.len() && (#[trigger] old(self).grids@[j]).0 == k;
                assert(self.grids@[j].0 == k);
            }
        }
    }

    /// Registers a block with the grid `id`, if that grid is known and has
    /// anchor identifiers left; `None` otherwise, with nothing changed.
    pub fn register(&mut self, id: u64, bp: &BpInfo, target: &Placement) -> (r: Option<InsertOutcome>)
        requires
            old(self).wf(),
            bp.wf(),
            target.wf(),
        ensures
            final(self).wf(),
            r.is_some() == can_register(old(self)@, id, *bp),
            r matches Some(out) ==> {
                &&& out.retracted@ == snaps_at(old(self)@[id].snaps, block_cell(*target))
                &&& out.spawned@.map_values(|a: AnchorSpawn| spawn_view(a)) == spawns_spec(
                    old(self)@[id].solid.insert(block_cell(*target), bp.solidity),
                    old(self)@[id].next,
                    *target,
                    bp.snap@,
                )
            },
            can_register(old(self)@, id, *bp) ==> final(self)@ == old(self)@.insert(
                id,
                register_spec(old(self)@[id], *bp, *target),
            ),
            !can_register(old(self)@, id, *bp) ==> final(self)@ == old(self)@,
    {
        match self.find(id) {
            None => None,
            Some(i) => {
                if self.grids[i].1.anchors_issued() > u64::MAX - bp.snap.len() as u64 {
                    return None;
                }
                let ghost o = self.grids@;
                let (gid, mut g) = self.grids.remove(i);
                let out = g.insert_bp_snaps(bp, target);
                let ghost gm = g.model();
                self.grids.insert(i, (gid, g));
                self.contents = Ghost(self.contents@.insert(id, gm));
                assert forall|j: int| 0 <= j < self.grids@.len() && j != i implies #[trigger] self.grids@[j]
                    == o[j] by {
                }
                assert forall|a: int, b: int|
                    0 <= a < b < self.grids@.len() implies (#[trigger] self.grids@[a]).0 != (
                    #[trigger] self.grids@[b]).0 by {
                    assert(o[a].0 != o[b].0);
                }
                assert forall|j: int| 0 <= j < self.grids@.len() implies (#[trigger] self.grids@[j]).1.wf()
                    && self.contents@.contains_key(self.grids@[j].0) && self.contents@[self.grids@[j].0]
                    == self.grids@[j].1.model() by {
                    if j != i {
                        assert(o[j].0 != o[i as int].0);
                    }
                }
                assert forall|k: u64| #[trigger] self.contents@.contains_key(k) implies exists|j: int|
                    0 <= j < self.grids@.len() && (#[trigger] self.grids@[j]).0 == k by {
                    let j = choose|j: int| 0 <= j < o.len() && (#[trigger] o[j]).0 == k;
                    assert(self.grids@[j].0 == k);
                }
                Some(out)
            },
        }
    }
}

/// The table after `find_or_create_grid` made a grid under `id`: a new empty
/// grid there, or the table unchanged when `id` was known.
pub open spec fn empty_grid_model_in(gm: Map<u64, GridModel>, id: u64) -> Map<u64, GridModel> {
    if gm.contains_key(id) {
        gm
    } else {
        gm.insert(id, empty_grid_model())
    }
}

/// The grid a placement goes into: the one it hit, or, when it hit none, a new
/// empty grid under `new_id` (which the engine has just spawned).
pub fn find_or_create_grid(grids: &mut Grids, grid_ent: Option<u64>, new_id: u64) -> (r: u64)
    requires
        old(grids).wf(),
    ensures
        final(grids).wf(),
        grid_ent matches Some(g) ==> r == g && final(grids)@ == old(grids)@,
        grid_ent.is_none() ==> r == new_id && final(grids)@.contains_key(new_id) && (old(grids)@.contains_key(
            new_id,
        ) ==> final(grids)@ == old(grids)@) && (!old(grids)@.contains_key(new_id) ==> final(grids)@
            == old(grids)@.insert(new_id, empty_grid_model())),
{
    match grid_ent {
        Some(g) => g,
        None => {
            grids.add_grid(new_id);
            new_id
        },
    }
}

/// Runs the snap events of a frame in order. An event whose grid is not known
/// yet comes back as a repeat, to be tried on a later frame; one whose grid has
/// no anchor identifiers left is dropped; any other registers its block. The
/// outcomes, each with its grid, come in the order of the events.
pub fn update_building_bp_snaps(
    grids: &mut Grids,
    infos: &BpInfos,
    events: &Vec<BpSnapsEvent>,
) -> (r: (Vec<(u64, InsertOutcome)>, Vec<BpSnapsRepeatEvent>))
    requires
        old(grids).wf(),
        infos.wf(),
        forall|i: int|
            0 <= i < events@.len() ==> match #[trigger] events@[i] {
                BpSnapsEvent::InsertSnaps(bp, _, t) => bp < infos.bps@.len() && t.wf(),
            },
    ensures
        final(grids).wf(),
        final(grids)@ == snaps_events_spec(old(grids)@, infos.bps@, events@).0,
        r.1@.map_values(|e: BpSnapsRepeatEvent| e.0) == snaps_events_spec(old(grids)@, infos.bps@, events@).1,
        r.0@.map_values(|o: (u64, InsertOutcome)| outcome_view(o)) == snaps_events_spec(old(grids)@, infos.bps@, events@).2,
{
    let mut outcomes: Vec<(u64, InsertOutcome)> = Vec::new();
    let mut repeats: Vec<BpSnapsRepeatEvent> = Vec::new();
    let mut i: usize = 0;
    while i < events.len()
        invariant
            grids.wf(),
            infos.wf(),
            i <= events@.len(),
            forall|j: int|
                0 <= j < events@.len() ==> match #[trigger] events@[j] {
                    BpSnapsEvent::InsertSnaps(bp, _, t) => bp < infos.bps@.len() && t.wf(),
                },
            ({
                let s = snaps_events_spec(old(grids)@, infos.bps@, events@.subrange(0, i as int));
                &&& grids@ == s.0
                &&& repeats@.map_values(|e: BpSnapsRepeatEvent| e.0) == s.1
                &&& outcomes@.map_values(|o: (u64, InsertOutcome)| outcome_view(o)) == s.2
            }),
        decreases events@.len() - i,
    {
        let ev = events[i];
        let ghost pre = events@.subrange(0, i as int);
        let ghost post = events@.subrange(0, i as int + 1);
        assert(post.drop_last() =~= pre);
        assert(post.last() == ev);
        let ghost prev = snaps_events_spec(old(grids)@, infos.bps@, pre);
        match ev {
            BpSnapsEvent::InsertSnaps(bp, grid, target) => {
                if !grids.contains(grid) {
                    let ghost before = repeats@;
                    repeats.push(BpSnapsRepeatEvent(ev));
                    assert(repeats@.map_values(|e: BpSnapsRepeatEvent| e.0) =~= before.map_values(
                        |e: BpSnapsRepeatEvent| e.0,
                    ).push(ev));
                } else {
                    assert(infos.bps@[bp as int].1.wf());
                    let res = grids.register(grid, &infos.bps[bp].1, &target);
                    match res {
                        Some(out) => {
                            let ghost before = outcomes@;
                            let ghost ov = outcome_view((grid, out));
                            assert(ov == outcome_spec(prev.0[grid], grid, infos.bps@[bp as int].1, target));
                            outcomes.push((grid, out));
                            assert(outcomes@.map_values(|o: (u64, InsertOutcome)| outcome_view(o)) =~= before.map_values(
                                |o: (u64, InsertOutcome)| outcome_view(o),
                            ).push(ov));
                        },
                        None => {},
                    }
                }
            },
        }
        i = i + 1;
    }
    assert(events@.subrange(0, events@.len() as int) =~= events@);
    (outcomes, repeats)
}

/// Turns the repeats of the last frame back into snap events, in order.
pub fn update_building_bp_snaps_repeats(repeats: &Vec<BpSnapsRepeatEvent>) -> (r: Vec<BpSnapsEvent>)
    ensures
        r@ == repeats@.map_values(|e: BpSnapsRepeatEvent| e.0),
{
    let mut out: Vec<BpSnapsEvent> = Vec::new();
    let mut i: usize = 0;
    while i < repeats.len()
        invariant
            i <= repeats@.len(),
            out@ == repeats@.subrange(0, i as int).map_values(|e: BpSnapsRepeatEvent| e.0),
        decreases repeats@.len() - i,
    {
        out.push(repeats[i].0);
        i = i + 1;
        assert(out@ =~= repeats@.subrange(0, i as int).map_values(|e: BpSnapsRepeatEvent| e.0));
    }
    assert(repeats@.subrange(0, repeats@.len() as int) =~= repeats@);
    out
}

} // verus!
