//! Occupancy markers, neighborhood rulesets, and the autotile orchestrator
//! that bakes occupancy into the base tile grid.

use vstd::prelude::*;

use crate::tilemap::BoundsError;
use crate::tilemap::TextureKey;
use crate::tilemap::TileId;
use crate::tilemap::TileSize;
use crate::tilemap::Tilemap;
use crate::tilemap::flat_index;
use crate::tilemap::get_tilemap_index;
use crate::tilemap::in_bounds;
use crate::tilemap::lemma_flat_index_in_range;
use crate::tilemap::lemma_flat_index_injective;
use crate::tilemap::lemma_vec_len_fits_usize;

verus! {

/// A cell of a ruleset's pattern: expect an empty cell, expect an occupied
/// cell, or accept anything.
#[derive(Clone, Copy, Debug, PartialEq, Eq, Structural)]
pub enum AutoTileRulesetValue {
    Empty,
    Tile,
    Any,
}

/// Per-cell occupancy marker: the cell is empty or holds a tile.
#[derive(Clone, Copy, Debug, PartialEq, Eq, Structural)]
pub enum AutoTile {
    Empty,
    Tile,
}

/// Side length of a ruleset's pattern grid.
pub const AUTOTILE_RULESET_GRID_SIZE: usize = 5;

/// The effective value of cell `(x, y)` as seen by a pattern: its occupancy
/// when the cell lies inside the grid, and `Any` when it lies outside, so a
/// neighbor beyond the map edge satisfies only a wildcard pattern cell.
pub open spec fn resolved_value(
    occupancy: Seq<AutoTile>,
    width: int,
    height: int,
    x: int,
    y: int,
) -> AutoTileRulesetValue {
    if in_bounds(x, y, width, height) {
        match occupancy[flat_index(x, y, width)] {
            AutoTile::Empty => AutoTileRulesetValue::Empty,
            AutoTile::Tile => AutoTileRulesetValue::Tile,
        }
    } else {
        AutoTileRulesetValue::Any
    }
}

/// A neighborhood pattern plus the tile identifier it selects when matched.
pub struct AutoTileRuleset {
    pub tile_id: TileId,
    /// The 5x5 pattern, centered on the cell under evaluation; the exact
    /// center entry is never read. Entry `(rx, ry)` constrains the neighbor
    /// at offset `(rx - 2, ry - 2)` from the evaluated cell.
    pub grid: [[AutoTileRulesetValue; AUTOTILE_RULESET_GRID_SIZE]; AUTOTILE_RULESET_GRID_SIZE],
}

impl AutoTileRuleset {
    /// Pattern entry `(rx, ry)` is satisfied at cell `(x, y)`: the entry is a
    /// wildcard, or it equals the resolved value of the neighbor it constrains.
    pub open spec fn pattern_cell_ok(
        &self,
        occupancy: Seq<AutoTile>,
        width: int,
        height: int,
        x: int,
        y: int,
        rx: int,
        ry: int,
    ) -> bool {
        self.grid[rx][ry] is Any || self.grid[rx][ry] == resolved_value(
            occupancy,
            width,
            height,
            x + rx - 2,
            y + ry - 2,
        )
    }

    /// The ruleset applies at cell `(x, y)`: the cell is inside the grid and
    /// occupied, and every pattern entry except the center is satisfied.
    pub open spec fn spec_matches(
        &self,
        occupancy: Seq<AutoTile>,
        width: int,
        height: int,
        x: int,
        y: int,
    ) -> bool {
        &&& in_bounds(x, y, width, height)
        &&& occupancy[flat_index(x, y, width)] is Tile
        &&& forall|rx: int, ry: int|
            0 <= rx < 5 && 0 <= ry < 5 && !(rx == 2 && ry == 2)
                ==> self.pattern_cell_ok(occupancy, width, height, x, y, rx, ry)
    }

    /// Resolves the effective value of the neighbor constrained by pattern
    /// entry `(ruleset_x, ruleset_y)` relative to cell `(x, y)`: the
    /// neighbor's occupancy when it lies inside the grid, `Any` otherwise.
    pub fn get_autotile_ruleset_value(
        &self,
        autotiles: &Vec<AutoTile>,
        autotilemap_width: usize,
        autotilemap_height: usize,
        x: usize,
        y: usize,
        ruleset_x: usize,
        ruleset_y: usize,
    ) -> (r: AutoTileRulesetValue)
        requires
            autotiles@.len() == autotilemap_width * autotilemap_height,
            ruleset_x < AUTOTILE_RULESET_GRID_SIZE,
            ruleset_y < AUTOTILE_RULESET_GRID_SIZE,
        ensures
            r == resolved_value(
                autotiles@,
                autotilemap_width as int,
                autotilemap_height as int,
                x - 2 + ruleset_x,
                y - 2 + ruleset_y,
            ),
    {
        proof {
            lemma_vec_len_fits_usize(autotiles);
        }
        match (neighbor_coord(x, ruleset_x), neighbor_coord(y, ruleset_y)) {
            (Some(nx), Some(ny)) => {
                match get_tilemap_index(nx, ny, autotilemap_width, autotilemap_height) {
                    Ok(index) => {
                        proof {
                            lemma_flat_index_in_range(
                                nx as int,
                                ny as int,
                                autotilemap_width as int,
                                autotilemap_height as int,
                            );
                        }
                        match autotiles[index] {
                            AutoTile::Empty => AutoTileRulesetValue::Empty,
                            AutoTile::Tile => AutoTileRulesetValue::Tile,
                        }
                    },
                    // Beyond the far edges of the map: treat as Any.
                    Err(_) => AutoTileRulesetValue::Any,
                }
            },
            // Before the near edges of the map (the offset would take the
            // coordinate below zero) or past the machine's index range.
            _ => AutoTileRulesetValue::Any,
        }
    }

    /// Tests the 5x5 pattern centered on cell `(x, y)` against the occupancy
    /// grid; matches only occupied, in-bounds cells.
    #[verifier::loop_isolation(false)]
    pub fn matches(
        &self,
        autotiles: &Vec<AutoTile>,
        autotilemap_width: usize,
        autotilemap_height: usize,
        x: usize,
        y: usize,
    ) -> (r: bool)
        requires
            autotiles@.len() == autotilemap_width * autotilemap_height,
        ensures
            r == self.spec_matches(
                autotiles@,
                autotilemap_width as int,
                autotilemap_height as int,
                x as int,
                y as int,
            ),
    {
        proof {
            lemma_vec_len_fits_usize(autotiles);
        }
        match get_tilemap_index(x, y, autotilemap_width, autotilemap_height) {
            Err(_) => {
                return false;
            },
            Ok(index) => {
                proof {
                    lemma_flat_index_in_range(
                        x as int,
                        y as int,
                        autotilemap_width as int,
                        autotilemap_height as int,
                    );
                }
                if autotiles[index] != AutoTile::Tile {
                    return false;
                }
            },
        }
        let mut ruleset_x: usize = 0;
        while ruleset_x < AUTOTILE_RULESET_GRID_SIZE
            invariant
                ruleset_x <= AUTOTILE_RULESET_GRID_SIZE,
                forall|rx: int, ry: int|
                    0 <= rx < ruleset_x && 0 <= ry < 5 && !(rx == 2 && ry == 2)
                        ==> self.pattern_cell_ok(
                        autotiles@,
                        autotilemap_width as int,
                        autotilemap_height as int,
                        x as int,
                        y as int,
                        rx,
                        ry,
                    ),
            decreases AUTOTILE_RULESET_GRID_SIZE - ruleset_x,
        {
            let mut ruleset_y: usize = 0;
            while ruleset_y < AUTOTILE_RULESET_GRID_SIZE
                invariant
                    ruleset_y <= AUTOTILE_RULESET_GRID_SIZE,
                    forall|ry: int|
                        0 <= ry < ruleset_y && !(ruleset_x == 2 && ry == 2)
                            ==> self.pattern_cell_ok(
                            autotiles@,
                            autotilemap_width as int,
                            autotilemap_height as int,
                            x as int,
                            y as int,
                            ruleset_x as int,
                            ry,
                        ),
                decreases AUTOTILE_RULESET_GRID_SIZE - ruleset_y,
            {
                // The exact center is reserved for the evaluated cell itself,
                // and a wildcard entry is satisfied without any lookup.
                if !(ruleset_x == AUTOTILE_RULESET_GRID_SIZE / 2 && ruleset_y
                    == AUTOTILE_RULESET_GRID_SIZE / 2) && self.grid[ruleset_x][ruleset_y]
                    != AutoTileRulesetValue::Any {
                    let autotile_ruleset_value = self.get_autotile_ruleset_value(
                        autotiles,
                        autotilemap_width,
                        autotilemap_height,
                        x,
                        y,
                        ruleset_x,
                        ruleset_y,
                    );
                    if self.grid[ruleset_x][ruleset_y] != autotile_ruleset_value {
                        proof {
                            assert(!self.pattern_cell_ok(
                                autotiles@,
                                autotilemap_width as int,
                                autotilemap_height as int,
                                x as int,
                                y as int,
                                ruleset_x as int,
                                ruleset_y as int,
                            ));
                        }
                        return false;
                    }
                }
                ruleset_y = ruleset_y + 1;
            }
            ruleset_x = ruleset_x + 1;
        }
        true
    }
}

/// The tile selected for cell `(x, y)` by the rulesets at positions `i` and
/// later, in order: the tile of the first one that matches, or none.
pub open spec fn spec_compute_from(
    rulesets: Seq<AutoTileRuleset>,
    occupancy: Seq<AutoTile>,
    width: int,
    height: int,
    x: int,
    y: int,
    i: int,
) -> Option<TileId>
    decreases rulesets.len() - i,
{
    if i < 0 || i >= rulesets.len() {
        None
    } else if rulesets[i].spec_matches(occupancy, width, height, x, y) {
        Some(rulesets[i].tile_id)
    } else {
        spec_compute_from(rulesets, occupancy, width, height, x, y, i + 1)
    }
}

/// The tile selected for cell `(x, y)`: the tile of the first ruleset, in
/// collection order, that matches there, or none if no ruleset matches.
pub open spec fn spec_compute_tile_id(
    rulesets: Seq<AutoTileRuleset>,
    occupancy: Seq<AutoTile>,
    width: int,
    height: int,
    x: int,
    y: int,
) -> Option<TileId> {
    spec_compute_from(rulesets, occupancy, width, height, x, y, 0)
}

/// The position of the first ruleset at index `i` or later whose tile
/// identifier is `tile_id`, or none if no later ruleset carries it.
pub open spec fn spec_find_ruleset_from(
    rulesets: Seq<AutoTileRuleset>,
    tile_id: TileId,
    i: int,
) -> Option<int>
    decreases rulesets.len() - i,
{
    if i < 0 || i >= rulesets.len() {
        None
    } else if rulesets[i].tile_id == tile_id {
        Some(i)
    } else {
        spec_find_ruleset_from(rulesets, tile_id, i + 1)
    }
}

/// The position of the first ruleset, in collection order, whose tile
/// identifier is `tile_id`.
pub open spec fn spec_find_ruleset(rulesets: Seq<AutoTileRuleset>, tile_id: TileId) -> Option<
    int,
> {
    spec_find_ruleset_from(rulesets, tile_id, 0)
}

/// The grid coordinate at signed offset `offset - 2` from coordinate `c`, or
/// nothing when that position lies below zero or beyond the machine's index
/// range (and hence beyond any grid).
fn neighbor_coord(c: usize, offset: usize) -> (n: Option<usize>)
    requires
        offset < AUTOTILE_RULESET_GRID_SIZE,
    ensures
        match n {
            Some(v) => v == c - 2 + offset,
            None => c - 2 + offset < 0 || c - 2 + offset > usize::MAX,
        },
{
    if offset < 2 {
        let d = 2 - offset;
        if c < d {
            None
        } else {
            Some(c - d)
        }
    } else {
        let d = offset - 2;
        if c <= usize::MAX - d {
            Some(c + d)
        } else {
            None
        }
    }
}

/// Owns the base tile grid, a parallel occupancy grid, and an ordered
/// collection of rulesets; baking derives the former from the latter two.
pub struct AutoTilemap {
    pub(crate) tilemap: Tilemap,
    rulesets: Vec<AutoTileRuleset>,
    autotiles: Vec<AutoTile>,
}

impl AutoTilemap {
    /// The base tile grid and the occupancy grid hold exactly one entry per
    /// cell of the shared `width x height` dimensions.
    pub closed spec fn wf(&self) -> bool {
        &&& self.tilemap.wf()
        &&& self.autotiles@.len() == self.tilemap.width * self.tilemap.height
    }

    /// Width of the grid, in cells.
    pub closed spec fn spec_width(&self) -> usize {
        self.tilemap.width
    }

    /// Height of the grid, in cells.
    pub closed spec fn spec_height(&self) -> usize {
        self.tilemap.height
    }

    /// The occupancy grid, in flat storage order.
    pub closed spec fn occupancy(&self) -> Seq<AutoTile> {
        self.autotiles@
    }

    /// The rulesets, in insertion order.
    pub closed spec fn spec_rulesets(&self) -> Seq<AutoTileRuleset> {
        self.rulesets@
    }

    /// The base tile grid, whole.
    pub closed spec fn spec_tilemap(&self) -> Tilemap {
        self.tilemap
    }

    /// The base tile grid's contents, in flat storage order.
    pub closed spec fn spec_tiles(&self) -> Seq<Option<TileId>> {
        self.tilemap.tiles@
    }

    /// The tilesheet the tile identifiers refer to.
    pub closed spec fn spec_tilesheet(&self) -> TextureKey {
        self.tilemap.tilesheet
    }

    /// Pixel size of one tile.
    pub closed spec fn spec_tile_size(&self) -> TileSize {
        self.tilemap.tile_size
    }

    /// Every cell of the base tile grid holds exactly the tile that the
    /// current rulesets select for it under the current occupancy.
    pub open spec fn is_baked(&self) -> bool {
        forall|x: int, y: int|
            in_bounds(x, y, self.spec_width() as int, self.spec_height() as int)
                ==> self.spec_tiles()[flat_index(x, y, self.spec_width() as int)]
                == spec_compute_tile_id(
                self.spec_rulesets(),
                self.occupancy(),
                self.spec_width() as int,
                self.spec_height() as int,
                x,
                y,
            )
    }

    /// A well-formed autotilemap's occupancy grid and base tile grid each
    /// hold exactly one entry per cell.
    pub proof fn lemma_wf_dimensions(&self)
        requires
            self.wf(),
        ensures
            self.occupancy().len() == self.spec_width() * self.spec_height(),
            self.spec_tiles().len() == self.spec_width() * self.spec_height(),
    {
    }

    /// An autotilemap of the given dimensions: every cell starts unoccupied,
    /// every base grid cell empty, and the given rulesets are kept in order.
    pub fn new(
        tilesheet: TextureKey,
        tile_size: TileSize,
        map_width: usize,
        map_height: usize,
        rulesets: Vec<AutoTileRuleset>,
    ) -> (r: AutoTilemap)
        requires
            map_width * map_height <= usize::MAX,
        ensures
            r.wf(),
            r.spec_width() == map_width,
            r.spec_height() == map_height,
            r.spec_tilesheet() == tilesheet,
            r.spec_tile_size() == tile_size,
            r.spec_rulesets() == rulesets@,
            forall|i: int| 0 <= i < r.occupancy().len() ==> r.occupancy()[i] is Empty,
            forall|i: int| 0 <= i < r.spec_tiles().len() ==> r.spec_tiles()[i] is None,
    {
        let tilemap = Tilemap::new(tilesheet, tile_size, map_width, map_height);
        let tile_count = map_width * map_height;
        let mut autotiles: Vec<AutoTile> = Vec::new();
        let mut i: usize = 0;
        while i < tile_count
            invariant
                i <= tile_count,
                autotiles@.len() == i,
                forall|j: int| 0 <= j < i ==> autotiles@[j] is Empty,
            decreases tile_count - i,
        {
            autotiles.push(AutoTile::Empty);
            i = i + 1;
        }
        AutoTilemap { tilemap, rulesets, autotiles }
    }

    /// Recomputes every cell of the base tile grid from the current occupancy
    /// and rulesets. Never fails while the dimensions are consistent, which
    /// is an invariant; repeated calls with no intervening change write the
    /// same contents.
    #[verifier::loop_isolation(false)]
    pub fn bake(&mut self) -> (r: Result<(), BoundsError>)
        requires
            old(self).wf(),
        ensures
            final(self).wf(),
            r is Ok,
            final(self).occupancy() == old(self).occupancy(),
            final(self).spec_rulesets() == old(self).spec_rulesets(),
            final(self).spec_width() == old(self).spec_width(),
            final(self).spec_height() == old(self).spec_height(),
            final(self).spec_tilesheet() == old(self).spec_tilesheet(),
            final(self).spec_tile_size() == old(self).spec_tile_size(),
            final(self).is_baked(),
    {
        let width = self.width();
        let height = self.height();
        let ghost w = width as int;
        let ghost h = height as int;
        let mut x: usize = 0;
        while x < width
            invariant
                x <= width,
                self.wf(),
                self.occupancy() == old(self).occupancy(),
                self.spec_rulesets() == old(self).spec_rulesets(),
                self.spec_width() == old(self).spec_width(),
                self.spec_height() == old(self).spec_height(),
                self.spec_tilesheet() == old(self).spec_tilesheet(),
                self.spec_tile_size() == old(self).spec_tile_size(),
                forall|xi: int, yi: int|
                    0 <= xi < x && 0 <= yi < h ==> self.spec_tiles()[flat_index(xi, yi, w)]
                        == spec_compute_tile_id(
                        self.spec_rulesets(),
                        self.occupancy(),
                        w,
                        h,
                        xi,
                        yi,
                    ),
            decreases width - x,
        {
            let mut y: usize = 0;
            while y < height
                invariant
                    y <= height,
                    self.wf(),
                    self.occupancy() == old(self).occupancy(),
                    self.spec_rulesets() == old(self).spec_rulesets(),
                    self.spec_width() == old(self).spec_width(),
                    self.spec_height() == old(self).spec_height(),
                    self.spec_tilesheet() == old(self).spec_tilesheet(),
                    self.spec_tile_size() == old(self).spec_tile_size(),
                    forall|xi: int, yi: int|
                        0 <= xi < x && 0 <= yi < h ==> self.spec_tiles()[flat_index(xi, yi, w)]
                            == spec_compute_tile_id(
                            self.spec_rulesets(),
                            self.occupancy(),
                            w,
                            h,
                            xi,
                            yi,
                        ),
                    forall|yi: int|
                        0 <= yi < y ==> self.spec_tiles()[flat_index(x as int, yi, w)]
                            == spec_compute_tile_id(
                            self.spec_rulesets(),
                            self.occupancy(),
                            w,
                            h,
                            x as int,
                            yi,
                        ),
                decreases height - y,
            {
                let tile = match self.compute_tile_id(x, y) {
                    Ok(t) => t,
                    Err(e) => {
                        return Err(e);
                    },
                };
                let ghost before = self.spec_tiles();
                match self.tilemap.set_tile(x, y, tile) {
                    Ok(_) => {},
                    Err(e) => {
                        return Err(e);
                    },
                }
                proof {
                    lemma_flat_index_in_range(x as int, y as int, w, h);
                    assert forall|xi: int, yi: int|
                        0 <= xi < w && 0 <= yi < h && !(xi == x as int && yi == y as int) && before[
                            flat_index(xi, yi, w)] == spec_compute_tile_id(
                            self.spec_rulesets(),
                            self.occupancy(),
                            w,
                            h,
                            xi,
                            yi,
                        ) implies self.spec_tiles()[flat_index(xi, yi, w)] == spec_compute_tile_id(
                        self.spec_rulesets(),
                        self.occupancy(),
                        w,
                        h,
                        xi,
                        yi,
                    ) by {
                        lemma_flat_index_in_range(xi, yi, w, h);
                        if flat_index(xi, yi, w) == flat_index(x as int, y as int, w) {
                            lemma_flat_index_injective(xi, yi, x as int, y as int, w, h);
                        }
                    }
                }
                y = y + 1;
            }
            x = x + 1;
        }
        Ok(())
    }

    /// Width of the grid, in cells.
    pub fn width(&self) -> (r: usize)
        ensures
            r == self.spec_width(),
    {
        self.tilemap.width
    }

    /// Height of the grid, in cells.
    pub fn height(&self) -> (r: usize)
        ensures
            r == self.spec_height(),
    {
        self.tilemap.height
    }

    /// The tilesheet the tile identifiers refer to.
    pub fn tilesheet(&self) -> (r: TextureKey)
        ensures
            r == self.spec_tilesheet(),
    {
        self.tilemap.tilesheet
    }

    /// Pixel size of one tile.
    pub fn tile_size(&self) -> (r: TileSize)
        ensures
            r == self.spec_tile_size(),
    {
        self.tilemap.tile_size
    }

    /// Appends a ruleset at the end of the collection, giving it the lowest
    /// precedence; nothing else changes.
    pub fn add_ruleset(&mut self, ruleset: AutoTileRuleset)
        ensures
            final(self).spec_rulesets() == old(self).spec_rulesets().push(ruleset),
            final(self).spec_tilemap() == old(self).spec_tilemap(),
            final(self).occupancy() == old(self).occupancy(),
    {
        self.rulesets.push(ruleset);
    }

    /// Reads the occupancy of cell `(x, y)`; out-of-bounds coordinates are
    /// rejected.
    pub fn get_autotile(&mut self, x: usize, y: usize) -> (r: Result<AutoTile, BoundsError>)
        requires
            old(self).wf(),
        ensures
            *final(self) == *old(self),
            match r {
                Ok(t) => in_bounds(
                    x as int,
                    y as int,
                    old(self).spec_width() as int,
                    old(self).spec_height() as int,
                ) && t == old(self).occupancy()[flat_index(
                    x as int,
                    y as int,
                    old(self).spec_width() as int,
                )],
                Err(_) => !in_bounds(
                    x as int,
                    y as int,
                    old(self).spec_width() as int,
                    old(self).spec_height() as int,
                ),
            },
    {
        proof {
            lemma_vec_len_fits_usize(&self.autotiles);
        }
        match get_tilemap_index(x, y, self.width(), self.height()) {
            Ok(index) => {
                proof {
                    lemma_flat_index_in_range(
                        x as int,
                        y as int,
                        self.spec_width() as int,
                        self.spec_height() as int,
                    );
                }
                Ok(self.autotiles[index])
            },
            Err(e) => Err(e),
        }
    }

    /// Marks cell `(x, y)` as occupied; out-of-bounds coordinates are
    /// rejected. The base tile grid is untouched until the next bake.
    pub fn set_tile(&mut self, x: usize, y: usize) -> (r: Result<(), BoundsError>)
        requires
            old(self).wf(),
        ensures
            final(self).wf(),
            final(self).spec_tilemap() == old(self).spec_tilemap(),
            final(self).spec_rulesets() == old(self).spec_rulesets(),
            match r {
                Ok(_) => in_bounds(
                    x as int,
                    y as int,
                    old(self).spec_width() as int,
                    old(self).spec_height() as int,
                ) && final(self).occupancy() == old(self).occupancy().update(
                    flat_index(x as int, y as int, old(self).spec_width() as int),
                    AutoTile::Tile,
                ),
                Err(_) => !in_bounds(
                    x as int,
                    y as int,
                    old(self).spec_width() as int,
                    old(self).spec_height() as int,
                ) && *final(self) == *old(self),
            },
    {
        self.set_autotile(x, y, AutoTile::Tile)
    }

    /// Marks cell `(x, y)` as empty; out-of-bounds coordinates are rejected.
    /// The base tile grid is untouched until the next bake.
    pub fn set_none(&mut self, x: usize, y: usize) -> (r: Result<(), BoundsError>)
        requires
            old(self).wf(),
        ensures
            final(self).wf(),
            final(self).spec_tilemap() == old(self).spec_tilemap(),
            final(self).spec_rulesets() == old(self).spec_rulesets(),
            match r {
                Ok(_) => in_bounds(
                    x as int,
                    y as int,
                    old(self).spec_width() as int,
                    old(self).spec_height() as int,
                ) && final(self).occupancy() == old(self).occupancy().update(
                    flat_index(x as int, y as int, old(self).spec_width() as int),
                    AutoTile::Empty,
                ),
                Err(_) => !in_bounds(
                    x as int,
                    y as int,
                    old(self).spec_width() as int,
                    old(self).spec_height() as int,
                ) && *final(self) == *old(self),
            },
    {
        self.set_autotile(x, y, AutoTile::Empty)
    }

    /// Writes the occupancy marker of cell `(x, y)`; out-of-bounds
    /// coordinates are rejected and leave the autotilemap unchanged.
    pub fn set_autotile(&mut self, x: usize, y: usize, new_tile_id: AutoTile) -> (r: Result<
        (),
        BoundsError,
    >)
        requires
            old(self).wf(),
        ensures
            final(self).wf(),
            final(self).spec_tilemap() == old(self).spec_tilemap(),
            final(self).spec_rulesets() == old(self).spec_rulesets(),
            match r {
                Ok(_) => in_bounds(
                    x as int,
                    y as int,
                    old(self).spec_width() as int,
                    old(self).spec_height() as int,
                ) && final(self).occupancy() == old(self).occupancy().update(
                    flat_index(x as int, y as int, old(self).spec_width() as int),
                    new_tile_id,
                ),
                Err(_) => !in_bounds(
                    x as int,
                    y as int,
                    old(self).spec_width() as int,
                    old(self).spec_height() as int,
                ) && *final(self) == *old(self),
            },
    {
        proof {
            lemma_vec_len_fits_usize(&self.autotiles);
        }
        match get_tilemap_index(x, y, self.width(), self.height()) {
            Ok(index) => {
                proof {
                    lemma_flat_index_in_range(
                        x as int,
                        y as int,
                        self.spec_width() as int,
                        self.spec_height() as int,
                    );
                }
                self.autotiles.set(index, new_tile_id);
                Ok(())
            },
            Err(e) => Err(e),
        }
    }

    /// The base tile grid's contents, one optional tile identifier per cell,
    /// in flat storage order.
    pub fn tiles(&self) -> (r: &Vec<Option<TileId>>)
        ensures
            r@ == self.spec_tiles(),
    {
        &self.tilemap.tiles
    }

    /// The first ruleset, in collection order, whose tile identifier is
    /// `tile_id`, or nothing if no ruleset carries it.
    #[verifier::loop_isolation(false)]
    pub fn get_ruleset(&self, tile_id: TileId) -> (r: Option<&AutoTileRuleset>)
        ensures
            match (r, spec_find_ruleset(self.spec_rulesets(), tile_id)) {
                (Some(ruleset), Some(i)) => *ruleset == self.spec_rulesets()[i],
                (None, None) => true,
                _ => false,
            },
    {
        let n = self.rulesets.len();
        let mut i: usize = 0;
        while i < n
            invariant
                i <= n,
                spec_find_ruleset(self.spec_rulesets(), tile_id) == spec_find_ruleset_from(
                    self.spec_rulesets(),
                    tile_id,
                    i as int,
                ),
            decreases n - i,
        {
            if self.rulesets[i].tile_id == tile_id {
                return Some(&self.rulesets[i]);
            }
            i = i + 1;
        }
        None
    }

    /// Removes and returns the first ruleset, in collection order, whose tile
    /// identifier is `tile_id`; the rest keep their relative order. Nothing
    /// happens when no ruleset carries the identifier.
    #[verifier::loop_isolation(false)]
    pub fn remove_ruleset(&mut self, tile_id: TileId) -> (r: Option<AutoTileRuleset>)
        ensures
            final(self).spec_tilemap() == old(self).spec_tilemap(),
            final(self).occupancy() == old(self).occupancy(),
            match (r, spec_find_ruleset(old(self).spec_rulesets(), tile_id)) {
                (Some(ruleset), Some(i)) => ruleset == old(self).spec_rulesets()[i]
                    && final(self).spec_rulesets() == old(self).spec_rulesets().remove(i),
                (None, None) => *final(self) == *old(self),
                _ => false,
            },
    {
        let n = self.rulesets.len();
        let mut i: usize = 0;
        while i < n
            invariant
                i <= n,
                *self == *old(self),
                n == self.spec_rulesets().len(),
                spec_find_ruleset(self.spec_rulesets(), tile_id) == spec_find_ruleset_from(
                    self.spec_rulesets(),
                    tile_id,
                    i as int,
                ),
            decreases n - i,
        {
            if self.rulesets[i].tile_id == tile_id {
                return Some(self.rulesets.remove(i));
            }
            i = i + 1;
        }
        None
    }

    /// Evaluates the rulesets in collection order against cell `(x, y)` and
    /// returns the tile of the first one that matches, or no tile when none
    /// matches (in particular when the cell is unoccupied); out-of-bounds
    /// coordinates are rejected.
    #[verifier::loop_isolation(false)]
    pub fn compute_tile_id(&self, x: usize, y: usize) -> (r: Result<Option<TileId>, BoundsError>)
        requires
            self.wf(),
        ensures
            match r {
                Ok(t) => in_bounds(
                    x as int,
                    y as int,
                    self.spec_width() as int,
                    self.spec_height() as int,
                ) && t == spec_compute_tile_id(
                    self.spec_rulesets(),
                    self.occupancy(),
                    self.spec_width() as int,
                    self.spec_height() as int,
                    x as int,
                    y as int,
                ),
                Err(_) => !in_bounds(
                    x as int,
                    y as int,
                    self.spec_width() as int,
                    self.spec_height() as int,
                ),
            },
    {
        proof {
            lemma_vec_len_fits_usize(&self.autotiles);
        }
        let width = self.width();
        let height = self.height();
        if let Err(e) = get_tilemap_index(x, y, width, height) {
            return Err(e);
        }
        let n = self.rulesets.len();
        let mut i: usize = 0;
        while i < n
            invariant
                i <= n,
                spec_compute_tile_id(
                    self.spec_rulesets(),
                    self.occupancy(),
                    width as int,
                    height as int,
                    x as int,
                    y as int,
                ) == spec_compute_from(
                    self.spec_rulesets(),
                    self.occupancy(),
                    width as int,
                    height as int,
                    x as int,
                    y as int,
                    i as int,
                ),
            decreases n - i,
        {
            if self.rulesets[i].matches(&self.autotiles, width, height, x, y) {
                return Ok(Some(self.rulesets[i].tile_id));
            }
            i = i + 1;
        }
        Ok(None)
    }

    /// Reads the tile identifier currently stored for cell `(x, y)` in the
    /// base tile grid; out-of-bounds coordinates are rejected.
    pub fn get_tile_id(&self, x: usize, y: usize) -> (r: Result<Option<TileId>, BoundsError>)
        requires
            self.wf(),
        ensures
            match r {
                Ok(t) => in_bounds(
                    x as int,
                    y as int,
                    self.spec_width() as int,
                    self.spec_height() as int,
                ) && t == self.spec_tiles()[flat_index(
                    x as int,
                    y as int,
                    self.spec_width() as int,
                )],
                Err(_) => !in_bounds(
                    x as int,
                    y as int,
                    self.spec_width() as int,
                    self.spec_height() as int,
                ),
            },
    {
        self.tilemap.get_tile(x, y)
    }
}

} // verus!
