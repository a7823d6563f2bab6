//! Which terrain chunks stand around the player: a four-by-four block of
//! chunks, the centre two-by-two in full detail and the ring around it coarse.
use vstd::prelude::*;

verus! {

/// A terrain chunk by its chunk coordinates, and whether it is the coarse kind.
#[derive(Clone, Copy, Debug, PartialEq, Eq, Structural, Hash)]
pub struct MeshCacheKey {
    pub x: i32,
    pub z: i32,
    pub lod: bool,
}

/// Which chunk the active terrain was last laid out around.
#[derive(Clone, Copy, Debug, Default)]
pub struct WorldTerrainState {
    pub last_chunk_pos: Option<(i32, i32)>,
}

/// The chunk at offset `(dx, dz)` from `c` (offsets from -1 to 2), coarse
/// outside the centre two-by-two.
pub open spec fn chunk_at(c: (i32, i32), dx: int, dz: int) -> MeshCacheKey {
    MeshCacheKey {
        x: (c.0 + dx) as i32,
        z: (c.1 + dz) as i32,
        lod: !(0 <= dx < 2 && 0 <= dz < 2),
    }
}

/// The sixteen chunks around `c`, row by row: offset `x` outer, `z` inner.
pub open spec fn chunks_around(c: (i32, i32)) -> Seq<MeshCacheKey> {
    Seq::new(16, |i: int| chunk_at(c, i / 4 - 1, i % 4 - 1))
}

pub open spec fn center_ok(c: (i32, i32)) -> bool {
    i32::MIN + 1 <= c.0 <= i32::MAX - 2 && i32::MIN + 1 <= c.1 <= i32::MAX - 2
}

/// The chunks to keep around the chunk `center`.
pub fn chunks_for(center: (i32, i32)) -> (r: Vec<MeshCacheKey>)
    requires
        center_ok(center),
    ensures
        r@ == chunks_around(center),
{
    let mut out: Vec<MeshCacheKey> = Vec::new();
    let mut x: i32 = -1;
    while x < 3
        invariant
            -1 <= x <= 3,
            center_ok(center),
            out@.len() == 4 * (x + 1),
            forall|i: int| 0 <= i < out@.len() ==> #[trigger] out@[i] == chunk_at(center, i / 4 - 1, i % 4 - 1),
        decreases 3 - x,
    {
        let mut z: i32 = -1;
        while z < 3
            invariant
                -1 <= x < 3,
                -1 <= z <= 3,
                center_ok(center),
                out@.len() == 4 * (x + 1) + (z + 1),
                forall|i: int| 0 <= i < out@.len() ==> #[trigger] out@[i] == chunk_at(center, i / 4 - 1, i % 4 - 1),
            decreases 3 - z,
        {
            let lod = !(x >= 0 && x < 2 && z >= 0 && z < 2);
            let ghost n = out@.len() as int;
            assert(n / 4 - 1 == x && n % 4 - 1 == z);
            out.push(MeshCacheKey { x: center.0 + x, z: center.1 + z, lod });
            z = z + 1;
        }
        x = x + 1;
    }
    assert(out@ =~= chunks_around(center));
    out
}

/// Lays the terrain out around the player's chunk `center` when it changed:
/// the chunks to keep (those not among them fade out), or `None` when the
/// player is still in the chunk of the last layout.
pub fn update_active_terrain(state: &mut WorldTerrainState, center: (i32, i32)) -> (r: Option<Vec<MeshCacheKey>>)
    requires
        center_ok(center),
    ensures
        final(state).last_chunk_pos == Some(center),
        old(state).last_chunk_pos == Some(center) ==> r.is_none(),
        old(state).last_chunk_pos != Some(center) ==> (r matches Some(v) && v@ == chunks_around(center)),
{
    let same = match state.last_chunk_pos {
        Some(p) => p.0 == center.0 && p.1 == center.1,
        None => false,
    };
    if same {
        return None;
    }
    state.last_chunk_pos = Some(center);
    Some(chunks_for(center))
}

} // verus!
