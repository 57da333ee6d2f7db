//! The tile collider synthesizer.
//!
//! The level loader materializes one [`TileMarker`] per solid cell of the
//! level grid.  The synthesizer keeps the markers observed since the last
//! drain in an explicit pending queue, and a drain converts every pending
//! marker into exactly one [`StaticCollider`] centered on the tile's world
//! footprint, recording the marker's id as processed so the conversion can
//! never happen twice.  Retracting a marker that is no longer pending (a
//! level unload racing the drain) is a benign no-op.

use crate::units::{GRID_COORD_LIMIT, MILLI, SCALE_LIMIT, TILE_SIZE_LIMIT};
use vstd::prelude::*;

verus! {

/// Global level geometry: tile edge length (thousandths of a world unit),
/// the half extent of the grid in tiles, and the display scale factor
/// (thousandths).
#[derive(Clone, Copy, Debug, PartialEq, Eq, Structural)]
pub struct TileGridConfig {
    pub tile_size: i64,
    pub half_grid_extent: i64,
    pub scale: i64,
}

impl TileGridConfig {
    /// Geometry the world-position arithmetic can carry in `i64`.
    pub open spec fn wf(self) -> bool {
        &&& 0 <= self.tile_size <= TILE_SIZE_LIMIT
        &&& 0 <= self.scale <= SCALE_LIMIT
        &&& -GRID_COORD_LIMIT <= self.half_grid_extent <= GRID_COORD_LIMIT
    }
}

/// One solid cell of the level grid, as the loader reported it: an entity
/// id and integer grid coordinates (column, row).
#[derive(Clone, Copy, Debug, PartialEq, Eq, Structural)]
pub struct TileMarker {
    pub id: u64,
    pub x: i64,
    pub y: i64,
}

/// An immovable square collision body of one tile's footprint, in
/// thousandths of a world unit, remembering which marker it came from.
#[derive(Clone, Copy, Debug, PartialEq, Eq, Structural)]
pub struct StaticCollider {
    pub marker_id: u64,
    pub center_x: i64,
    pub center_y: i64,
    pub size: i64,
}

/// Edge length of one tile in world space, with the display scale applied.
pub open spec fn effective_tile_size_spec(config: TileGridConfig) -> int {
    config.tile_size * config.scale / (MILLI as int)
}

/// World-space center of a tile along one axis:
/// `(coord - half_grid_extent) * effective_tile_size + effective_tile_size / 2`.
pub open spec fn tile_world_coord_spec(coord: i64, config: TileGridConfig) -> int {
    let effective = effective_tile_size_spec(config);
    (coord - config.half_grid_extent) * effective + effective / 2
}

/// The collider a marker converts to.
pub open spec fn collider_for(marker: TileMarker, config: TileGridConfig) -> StaticCollider {
    StaticCollider {
        marker_id: marker.id,
        center_x: tile_world_coord_spec(marker.x, config) as i64,
        center_y: tile_world_coord_spec(marker.y, config) as i64,
        size: effective_tile_size_spec(config) as i64,
    }
}

/// Edge length of one collision tile in world space.
pub fn collision_tile_size(config: &TileGridConfig) -> (size: i64)
    requires
        config.wf(),
    ensures
        size == effective_tile_size_spec(*config),
        0 <= size <= TILE_SIZE_LIMIT * SCALE_LIMIT / (MILLI as int),
{
    proof {
        assert(0 <= config.tile_size * config.scale <= TILE_SIZE_LIMIT * SCALE_LIMIT)
            by (nonlinear_arith)
            requires
                0 <= config.tile_size <= TILE_SIZE_LIMIT,
                0 <= config.scale <= SCALE_LIMIT,
        ;
    }
    config.tile_size * config.scale / MILLI
}

/// World-space center of a tile along one axis.
pub fn tile_world_coord(coord: i64, config: &TileGridConfig) -> (center: i64)
    requires
        config.wf(),
        -GRID_COORD_LIMIT <= coord <= GRID_COORD_LIMIT,
    ensures
        center == tile_world_coord_spec(coord, *config),
{
    let effective = collision_tile_size(config);
    let offset: i64 = coord - config.half_grid_extent;
    proof {
        assert(TILE_SIZE_LIMIT * SCALE_LIMIT / (MILLI as int) == 1_000_000_000_000);
        assert(
            -3_000_000_000_000_000_000 <= offset * effective + effective / 2
                <= 3_000_000_000_000_000_000
        ) by (nonlinear_arith)
            requires
                -2_000_000 <= offset <= 2_000_000,
                0 <= effective <= 1_000_000_000_000,
        ;
    }
    offset * effective + effective / 2
}

/// The explicit queue the synthesizer works from: markers observed and not
/// yet converted, ids already processed, and the colliders produced so far.
#[derive(Debug)]
pub struct TileSynthesizer {
    pub config: TileGridConfig,
    pub pending: Vec<TileMarker>,
    pub processed: Vec<u64>,
    pub colliders: Vec<StaticCollider>,
}

impl TileSynthesizer {
    /// Well-formed synthesizer: sound geometry; pending markers have
    /// in-range coordinates and pairwise distinct ids, none of them already
    /// processed; processed ids are pairwise distinct; and the colliders
    /// correspond one to one, in order, to the processed ids.
    pub open spec fn wf(self) -> bool {
        &&& self.config.wf()
        &&& forall|i: int| 0 <= i < self.pending@.len()
            ==> -GRID_COORD_LIMIT <= #[trigger] self.pending@[i].x <= GRID_COORD_LIMIT
                && -GRID_COORD_LIMIT <= self.pending@[i].y <= GRID_COORD_LIMIT
        &&& forall|i: int, j: int| 0 <= i < j < self.pending@.len()
            ==> #[trigger] self.pending@[i].id != #[trigger] self.pending@[j].id
        &&& forall|i: int, j: int|
            0 <= i < self.pending@.len() && 0 <= j < self.processed@.len()
                ==> #[trigger] self.pending@[i].id != #[trigger] self.processed@[j]
        &&& forall|i: int, j: int| 0 <= i < j < self.processed@.len()
            ==> #[trigger] self.processed@[i] != #[trigger] self.processed@[j]
        &&& self.colliders@.len() == self.processed@.len()
        &&& forall|i: int| 0 <= i < self.colliders@.len()
            ==> #[trigger] self.colliders@[i].marker_id == self.processed@[i]
    }

    /// An id is seen when it is pending or already processed.
    pub open spec fn marker_seen(self, id: u64) -> bool {
        ||| exists|i: int| 0 <= i < self.pending@.len() && #[trigger] self.pending@[i].id == id
        ||| exists|i: int| 0 <= i < self.processed@.len() && #[trigger] self.processed@[i] == id
    }

    /// A synthesizer for the given geometry with nothing observed yet.
    pub fn new(config: TileGridConfig) -> (synth: Self)
        requires
            config.wf(),
        ensures
            synth.config == config,
            synth.pending@.len() == 0,
            synth.processed@.len() == 0,
            synth.colliders@.len() == 0,
            synth.wf(),
    {
        TileSynthesizer {
            config,
            pending: Vec::new(),
            processed: Vec::new(),
            colliders: Vec::new(),
        }
    }

    /// Whether a marker with this id is waiting to be converted.
    pub fn pending_contains(&self, id: u64) -> (found: bool)
        ensures
            found == exists|i: int|
                0 <= i < self.pending@.len() && #[trigger] self.pending@[i].id == id,
    {
        let mut i: usize = 0;
        while i < self.pending.len()
            invariant
                i <= self.pending@.len(),
                forall|j: int| 0 <= j < i ==> #[trigger] self.pending@[j].id != id,
            decreases self.pending@.len() - i,
        {
            if self.pending[i].id == id {
                return true;
            }
            i = i + 1;
        }
        false
    }

    /// Whether a marker with this id has already been converted.
    pub fn processed_contains(&self, id: u64) -> (found: bool)
        ensures
            found == exists|i: int|
                0 <= i < self.processed@.len() && #[trigger] self.processed@[i] == id,
    {
        let mut i: usize = 0;
        while i < self.processed.len()
            invariant
                i <= self.processed@.len(),
                forall|j: int| 0 <= j < i ==> #[trigger] self.processed@[j] != id,
            decreases self.processed@.len() - i,
        {
            if self.processed[i] == id {
                return true;
            }
            i = i + 1;
        }
        false
    }

    /// Takes note of a marker the loader reports as newly added.
    ///
    /// Only never-seen ids enter the queue: re-observing a marker that is
    /// still pending or was already converted changes nothing, so a
    /// re-parse of the same level cannot double-spawn colliders.
    pub fn observe_marker(&mut self, marker: TileMarker) -> (added: bool)
        requires
            old(self).wf(),
            -GRID_COORD_LIMIT <= marker.x <= GRID_COORD_LIMIT,
            -GRID_COORD_LIMIT <= marker.y <= GRID_COORD_LIMIT,
        ensures
            added == !old(self).marker_seen(marker.id),
            added ==> final(self).pending@ == old(self).pending@ + seq![marker],
            !added ==> final(self).pending@ == old(self).pending@,
            final(self).config == old(self).config,
            final(self).processed@ == old(self).processed@,
            final(self).colliders@ == old(self).colliders@,
            final(self).wf(),
    {
        if self.pending_contains(marker.id) || self.processed_contains(marker.id) {
            return false;
        }
        self.pending.push(marker);
        true
    }

    /// Drops the pending marker with this id, if any: the loader retracted
    /// the cell (level unload) before the drain could convert it.
    /// Retracting an id that is not pending is a no-op, never an error.
    pub fn retract_marker(&mut self, id: u64) -> (removed: bool)
        requires
            old(self).wf(),
        ensures
            removed == exists|i: int|
                0 <= i < old(self).pending@.len() && #[trigger] old(self).pending@[i].id == id,
            removed ==> exists|k: int|
                0 <= k < old(self).pending@.len() && old(self).pending@[k].id == id
                    && final(self).pending@ == old(self).pending@.remove(k),
            !removed ==> final(self).pending@ == old(self).pending@,
            final(self).config == old(self).config,
            final(self).processed@ == old(self).processed@,
            final(self).colliders@ == old(self).colliders@,
            final(self).wf(),
    {
        let mut i: usize = 0;
        while i < self.pending.len()
            invariant
                old(self).wf(),
                i <= self.pending@.len(),
                self.config == old(self).config,
                self.pending@ == old(self).pending@,
                self.processed@ == old(self).processed@,
                self.colliders@ == old(self).colliders@,
                forall|j: int| 0 <= j < i ==> #[trigger] self.pending@[j].id != id,
            decreases self.pending@.len() - i,
        {
            if self.pending[i].id == id {
                let ghost pre = self.pending@;
                self.pending.remove(i);
                proof {
                    pre.remove_ensures(i as int);
                    assert(pre[i as int].id == id);
                    assert(self.pending@ == pre.remove(i as int));
                    assert forall|m: int, n: int| 0 <= m < n < self.pending@.len()
                        implies #[trigger] self.pending@[m].id
                            != #[trigger] self.pending@[n].id by {
                        let m0: int = if m < i { m } else { m + 1 };
                        let n0: int = if n < i { n } else { n + 1 };
                        assert(self.pending@[m] == pre[m0]);
                        assert(self.pending@[n] == pre[n0]);
                    }
                    assert forall|m: int, n: int|
                        0 <= m < self.pending@.len() && 0 <= n < self.processed@.len()
                        implies #[trigger] self.pending@[m].id
                            != #[trigger] self.processed@[n] by {
                        let m0: int = if m < i { m } else { m + 1 };
                        assert(self.pending@[m] == pre[m0]);
                    }
                    assert forall|m: int| 0 <= m < self.pending@.len()
                        implies -GRID_COORD_LIMIT <= #[trigger] self.pending@[m].x
                            <= GRID_COORD_LIMIT
                            && -GRID_COORD_LIMIT <= self.pending@[m].y <= GRID_COORD_LIMIT by {
                        let m0: int = if m < i { m } else { m + 1 };
                        assert(self.pending@[m] == pre[m0]);
                    }
                }
                return true;
            }
            i = i + 1;
        }
        false
    }

    /// Converts every pending marker: one collider per marker, centered on
    /// the tile's world position, the marker's id recorded as processed and
    /// the marker gone from the queue.
    pub fn drain(&mut self)
        requires
            old(self).wf(),
        ensures
            final(self).config == old(self).config,
            final(self).pending@.len() == 0,
            final(self).processed@ == old(self).processed@
                + old(self).pending@.map_values(|m: TileMarker| m.id),
            final(self).colliders@ == old(self).colliders@
                + old(self).pending@.map_values(|m: TileMarker| collider_for(m, old(self).config)),
            final(self).wf(),
    {
        let ghost pending0 = self.pending@;
        let ghost processed0 = self.processed@;
        let ghost colliders0 = self.colliders@;
        let size = collision_tile_size(&self.config);
        let mut i: usize = 0;
        while i < self.pending.len()
            invariant
                old(self).wf(),
                i <= self.pending@.len(),
                self.config == old(self).config,
                self.pending@ == pending0,
                pending0 == old(self).pending@,
                size == effective_tile_size_spec(old(self).config),
                self.processed@ == processed0
                    + pending0.take(i as int).map_values(|m: TileMarker| m.id),
                processed0 == old(self).processed@,
                self.colliders@ == colliders0
                    + pending0.take(i as int).map_values(
                    |m: TileMarker| collider_for(m, old(self).config),
                ),
                colliders0 == old(self).colliders@,
            decreases self.pending@.len() - i,
        {
            let marker = self.pending[i];
            let center_x = tile_world_coord(marker.x, &self.config);
            let center_y = tile_world_coord(marker.y, &self.config);
            self.colliders.push(StaticCollider { marker_id: marker.id, center_x, center_y, size });
            self.processed.push(marker.id);
            proof {
                assert(pending0.take(i + 1) =~= pending0.take(i as int) + seq![pending0[i as int]]);
                assert(self.processed@ =~= processed0
                    + pending0.take(i + 1).map_values(|m: TileMarker| m.id));
                assert(self.colliders@ =~= colliders0
                    + pending0.take(i + 1).map_values(
                    |m: TileMarker| collider_for(m, old(self).config),
                ));
            }
            i = i + 1;
        }
        proof {
            assert(pending0.take(pending0.len() as int) =~= pending0);
        }
        self.pending.clear();
        proof {
            lemma_drained_queue_wf(*old(self), *self);
        }
    }
}

/// After a drain, the synthesizer is well-formed again: the freshly
/// processed ids were pairwise distinct and disjoint from the old ones, and
/// each new collider carries its marker's id.
proof fn lemma_drained_queue_wf(pre: TileSynthesizer, post: TileSynthesizer)
    requires
        pre.wf(),
        post.config == pre.config,
        post.pending@.len() == 0,
        post.processed@ == pre.processed@ + pre.pending@.map_values(|m: TileMarker| m.id),
        post.colliders@ == pre.colliders@
            + pre.pending@.map_values(|m: TileMarker| collider_for(m, pre.config)),
    ensures
        post.wf(),
{
    let ids = pre.pending@.map_values(|m: TileMarker| m.id);
    let n = pre.processed@.len() as int;
    assert forall|i: int, j: int| 0 <= i < j < post.processed@.len()
        implies #[trigger] post.processed@[i] != #[trigger] post.processed@[j] by {
        if j >= n {
            assert(post.processed@[j] == ids[j - n]);
            assert(ids[j - n] == pre.pending@[j - n].id);
            if i >= n {
                assert(post.processed@[i] == pre.pending@[i - n].id);
            } else {
                assert(post.processed@[i] == pre.processed@[i]);
            }
        }
    }
    assert forall|i: int| 0 <= i < post.colliders@.len()
        implies #[trigger] post.colliders@[i].marker_id == post.processed@[i] by {
        if i >= n {
            assert(post.colliders@[i] == collider_for(pre.pending@[i - n], pre.config));
            assert(post.processed@[i] == ids[i - n]);
        }
    }
}

/// The collider set a drain leaves behind, given the state it starts from.
pub open spec fn colliders_after_drain(s: TileSynthesizer) -> Seq<StaticCollider> {
    s.colliders@ + s.pending@.map_values(|m: TileMarker| collider_for(m, s.config))
}

/// Law: converting a pending marker yields exactly one collider for it.
/// After the drain the marker is no longer pending (the drain empties the
/// queue), and the collider set holds one, and only one, collider carrying
/// that marker's id.
pub proof fn lemma_tile_conversion_exactly_once(s: TileSynthesizer, k: int)
    requires
        s.wf(),
        0 <= k < s.pending@.len(),
    ensures
        exists|i: int| 0 <= i < colliders_after_drain(s).len()
            && #[trigger] colliders_after_drain(s)[i].marker_id == s.pending@[k].id,
        forall|i: int, j: int|
            0 <= i < colliders_after_drain(s).len() && 0 <= j < colliders_after_drain(s).len()
                && #[trigger] colliders_after_drain(s)[i].marker_id == s.pending@[k].id
                && #[trigger] colliders_after_drain(s)[j].marker_id == s.pending@[k].id
                ==> i == j,
{
    let cols = colliders_after_drain(s);
    let id = s.pending@[k].id;
    let n = s.colliders@.len() as int;
    assert(cols[n + k] == collider_for(s.pending@[k], s.config));
    assert(cols[n + k].marker_id == id);
    assert forall|i: int| 0 <= i < cols.len() && #[trigger] cols[i].marker_id == id
        implies i == n + k by {
        if i < n {
            assert(cols[i] == s.colliders@[i]);
            assert(s.colliders@[i].marker_id == s.processed@[i]);
            assert(s.pending@[k].id != s.processed@[i]);
        } else {
            assert(cols[i] == collider_for(s.pending@[i - n], s.config));
            assert(s.pending@[i - n].id == id);
            if i - n < k {
                assert(s.pending@[i - n].id != s.pending@[k].id);
            } else if i - n > k {
                assert(s.pending@[k].id != s.pending@[i - n].id);
            }
        }
    }
}

/// Law: draining a synthesizer whose queue is already empty adds no
/// collider, so running the drain any number of further times changes
/// nothing.
pub proof fn lemma_drain_without_pending_adds_nothing(s: TileSynthesizer)
    requires
        s.pending@.len() == 0,
    ensures
        colliders_after_drain(s) == s.colliders@,
{
    assert(colliders_after_drain(s) =~= s.colliders@);
}

} // verus!
