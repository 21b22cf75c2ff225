//! General laws of the autotiling algorithm, stated over the spec functions
//! that the executable contracts use.

use vstd::prelude::*;

use crate::autotilemap::AutoTile;
use crate::autotilemap::AutoTileRuleset;
use crate::autotilemap::AutoTilemap;
use crate::autotilemap::resolved_value;
use crate::autotilemap::spec_compute_from;
use crate::autotilemap::spec_compute_tile_id;
use crate::tilemap::flat_index;
use crate::tilemap::in_bounds;
use crate::tilemap::lemma_flat_index_surjective;

verus! {

/// No ruleset at position `k` or later matches, so the rulesets from `k` on
/// select no tile.
proof fn lemma_no_match_from(
    rulesets: Seq<AutoTileRuleset>,
    occupancy: Seq<AutoTile>,
    width: int,
    height: int,
    x: int,
    y: int,
    k: int,
)
    requires
        0 <= k <= rulesets.len(),
        forall|j: int|
            k <= j < rulesets.len() ==> !rulesets[j].spec_matches(occupancy, width, height, x, y),
    ensures
        spec_compute_from(rulesets, occupancy, width, height, x, y, k) is None,
    decreases rulesets.len() - k,
{
    if k < rulesets.len() {
        lemma_no_match_from(rulesets, occupancy, width, height, x, y, k + 1);
    }
}

/// Skipping over non-matching rulesets does not change the selected tile.
proof fn lemma_compute_from_skip(
    rulesets: Seq<AutoTileRuleset>,
    occupancy: Seq<AutoTile>,
    width: int,
    height: int,
    x: int,
    y: int,
    k: int,
    i: int,
)
    requires
        0 <= k <= i <= rulesets.len(),
        forall|j: int| k <= j < i ==> !rulesets[j].spec_matches(occupancy, width, height, x, y),
    ensures
        spec_compute_from(rulesets, occupancy, width, height, x, y, k) == spec_compute_from(
            rulesets,
            occupancy,
            width,
            height,
            x,
            y,
            i,
        ),
    decreases i - k,
{
    if k < i {
        lemma_compute_from_skip(rulesets, occupancy, width, height, x, y, k + 1, i);
    }
}

/// An unoccupied cell never receives a tile: whatever the rulesets are, the
/// computed tile for a cell whose occupancy marker is not `Tile` is none.
pub proof fn lemma_unoccupied_cell_gets_no_tile(
    rulesets: Seq<AutoTileRuleset>,
    occupancy: Seq<AutoTile>,
    width: int,
    height: int,
    x: int,
    y: int,
)
    requires
        in_bounds(x, y, width, height),
        !(occupancy[flat_index(x, y, width)] is Tile),
    ensures
        spec_compute_tile_id(rulesets, occupancy, width, height, x, y) is None,
{
    lemma_no_match_from(rulesets, occupancy, width, height, x, y, 0);
}

/// A ruleset whose pattern is a wildcard everywhere except the center matches
/// every occupied in-bounds cell, whatever its neighbors hold.
pub proof fn lemma_all_wildcard_ruleset_matches(
    ruleset: AutoTileRuleset,
    occupancy: Seq<AutoTile>,
    width: int,
    height: int,
    x: int,
    y: int,
)
    requires
        in_bounds(x, y, width, height),
        occupancy[flat_index(x, y, width)] is Tile,
        forall|rx: int, ry: int|
            0 <= rx < 5 && 0 <= ry < 5 && !(rx == 2 && ry == 2) ==> ruleset.grid[rx][ry] is Any,
    ensures
        ruleset.spec_matches(occupancy, width, height, x, y),
{
    assert forall|rx: int, ry: int|
        0 <= rx < 5 && 0 <= ry < 5 && !(rx == 2 && ry == 2) implies ruleset.pattern_cell_ok(
        occupancy,
        width,
        height,
        x,
        y,
        rx,
        ry,
    ) by {
        assert(ruleset.grid[rx][ry] is Any);
    }
}

/// A pattern entry that constrains a neighbor lying outside the grid is
/// satisfied only by a wildcard: a concrete expectation there sinks the match.
pub proof fn lemma_out_of_grid_needs_wildcard(
    ruleset: AutoTileRuleset,
    occupancy: Seq<AutoTile>,
    width: int,
    height: int,
    x: int,
    y: int,
    rx: int,
    ry: int,
)
    requires
        0 <= rx < 5,
        0 <= ry < 5,
        !(rx == 2 && ry == 2),
        !(ruleset.grid[rx][ry] is Any),
        !in_bounds(x + rx - 2, y + ry - 2, width, height),
    ensures
        !ruleset.spec_matches(occupancy, width, height, x, y),
{
    assert(resolved_value(occupancy, width, height, x + rx - 2, y + ry - 2) is Any);
    assert(!ruleset.pattern_cell_ok(occupancy, width, height, x, y, rx, ry));
}

/// First match wins: when the ruleset at position `i` matches a cell and no
/// earlier ruleset does, the computed tile is that ruleset's, whether or not
/// any later ruleset also matches.
pub proof fn lemma_first_match_wins(
    rulesets: Seq<AutoTileRuleset>,
    occupancy: Seq<AutoTile>,
    width: int,
    height: int,
    x: int,
    y: int,
    i: int,
)
    requires
        0 <= i < rulesets.len(),
        rulesets[i].spec_matches(occupancy, width, height, x, y),
        forall|j: int| 0 <= j < i ==> !rulesets[j].spec_matches(occupancy, width, height, x, y),
    ensures
        spec_compute_tile_id(rulesets, occupancy, width, height, x, y) == Some(
            rulesets[i].tile_id,
        ),
{
    lemma_compute_from_skip(rulesets, occupancy, width, height, x, y, 0, i);
}

/// Removing a cell's sole matching ruleset leaves the cell with no tile; in
/// general, the cell falls back to whatever the remaining rulesets select.
pub proof fn lemma_remove_sole_match(
    rulesets: Seq<AutoTileRuleset>,
    occupancy: Seq<AutoTile>,
    width: int,
    height: int,
    x: int,
    y: int,
    i: int,
)
    requires
        0 <= i < rulesets.len(),
        rulesets[i].spec_matches(occupancy, width, height, x, y),
        forall|j: int|
            0 <= j < rulesets.len() && j != i ==> !rulesets[j].spec_matches(
                occupancy,
                width,
                height,
                x,
                y,
            ),
    ensures
        spec_compute_tile_id(rulesets, occupancy, width, height, x, y) == Some(
            rulesets[i].tile_id,
        ),
        spec_compute_tile_id(rulesets.remove(i), occupancy, width, height, x, y) is None,
{
    lemma_first_match_wins(rulesets, occupancy, width, height, x, y, i);
    let rest = rulesets.remove(i);
    assert forall|j: int| 0 <= j < rest.len() implies !rest[j].spec_matches(
        occupancy,
        width,
        height,
        x,
        y,
    ) by {
        if j < i {
            assert(rest[j] == rulesets[j]);
        } else {
            assert(rest[j] == rulesets[j + 1]);
        }
    }
    lemma_no_match_from(rest, occupancy, width, height, x, y, 0);
}

/// Baking is idempotent: two baked states over the same occupancy, rulesets
/// and dimensions hold identical base tile grid contents, so a second bake
/// with no intervening change rewrites exactly what the first one wrote.
pub proof fn lemma_bake_idempotent(a: &AutoTilemap, b: &AutoTilemap)
    requires
        a.wf(),
        b.wf(),
        a.is_baked(),
        b.is_baked(),
        a.spec_width() == b.spec_width(),
        a.spec_height() == b.spec_height(),
        a.occupancy() == b.occupancy(),
        a.spec_rulesets() == b.spec_rulesets(),
    ensures
        a.spec_tiles() == b.spec_tiles(),
{
    let w = a.spec_width() as int;
    let h = a.spec_height() as int;
    a.lemma_wf_dimensions();
    b.lemma_wf_dimensions();
    assert forall|i: int| 0 <= i < a.spec_tiles().len() implies a.spec_tiles()[i]
        == b.spec_tiles()[i] by {
        lemma_flat_index_surjective(i, w, h);
        let xi = i % w;
        let yi = i / w;
        assert(a.spec_tiles()[flat_index(xi, yi, w)] == spec_compute_tile_id(
            a.spec_rulesets(),
            a.occupancy(),
            w,
            h,
            xi,
            yi,
        ));
        assert(b.spec_tiles()[flat_index(xi, yi, w)] == spec_compute_tile_id(
            b.spec_rulesets(),
            b.occupancy(),
            w,
            h,
            xi,
            yi,
        ));
    }
    assert(a.spec_tiles() =~= b.spec_tiles());
}

} // verus!
