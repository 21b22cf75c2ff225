//! The base tile grid: flat storage of optional tile identifiers, addressed
//! by an (x, y) to flat-index mapping that rejects out-of-bounds coordinates.

use vstd::prelude::*;

verus! {

/// Identifier of a tile graphic inside a tilesheet.
pub type TileId = usize;

/// Opaque handle of a tilesheet texture asset.
#[derive(Clone, Copy, Debug, PartialEq, Eq, Structural)]
pub struct TextureKey(pub u64);

/// Size of one tile in pixels.
#[derive(Clone, Copy, Debug, PartialEq, Eq, Structural)]
pub struct TileSize {
    pub x: usize,
    pub y: usize,
}

/// A coordinate was outside the grid's `[0, width) x [0, height)` range.
#[derive(Clone, Copy, Debug, PartialEq, Eq, Structural)]
pub struct BoundsError;

/// Whether `(x, y)` lies inside a `width x height` grid.
pub open spec fn in_bounds(x: int, y: int, width: int, height: int) -> bool {
    0 <= x < width && 0 <= y < height
}

/// Flat storage index of cell `(x, y)` in a row of `width` cells.
pub open spec fn flat_index(x: int, y: int, width: int) -> int {
    y * width + x
}

/// The flat index of an in-bounds cell lies inside the grid's storage.
pub proof fn lemma_flat_index_in_range(x: int, y: int, width: int, height: int)
    requires
        in_bounds(x, y, width, height),
    ensures
        0 <= flat_index(x, y, width) < width * height,
{
    assert(0 <= y * width + x < width * height) by (nonlinear_arith)
        requires
            0 <= x < width,
            0 <= y < height,
    ;
}

/// Distinct in-bounds cells have distinct flat indices.
pub proof fn lemma_flat_index_injective(
    x1: int,
    y1: int,
    x2: int,
    y2: int,
    width: int,
    height: int,
)
    requires
        in_bounds(x1, y1, width, height),
        in_bounds(x2, y2, width, height),
        flat_index(x1, y1, width) == flat_index(x2, y2, width),
    ensures
        x1 == x2 && y1 == y2,
{
    assert(x1 == x2 && y1 == y2) by (nonlinear_arith)
        requires
            0 <= x1 < width,
            0 <= y1 < height,
            0 <= x2 < width,
            0 <= y2 < height,
            y1 * width + x1 == y2 * width + x2,
    ;
}

/// Every flat index inside the grid's storage is the index of an in-bounds cell.
pub proof fn lemma_flat_index_surjective(i: int, width: int, height: int)
    requires
        0 <= width,
        0 <= i < width * height,
    ensures
        in_bounds(i % width, i / width, width, height),
        flat_index(i % width, i / width, width) == i,
{
    assert(0 < width) by (nonlinear_arith)
        requires
            0 <= width,
            0 <= i < width * height,
    ;
    vstd::arithmetic::div_mod::lemma_fundamental_div_mod(i, width);
    vstd::arithmetic::div_mod::lemma_mod_bound(i, width);
    assert(i / width < height) by (nonlinear_arith)
        requires
            0 < width,
            i < width * height,
            i == width * (i / width) + i % width,
            0 <= i % width,
    ;
    assert(i / width >= 0) by (nonlinear_arith)
        requires
            0 < width,
            0 <= i,
            i == width * (i / width) + i % width,
            i % width < width,
    ;
    assert((i / width) * width == width * (i / width)) by (nonlinear_arith);
}

/// A vector's mathematical length is bounded by the machine's index range.
pub proof fn lemma_vec_len_fits_usize<T>(v: &Vec<T>)
    ensures
        v@.len() <= usize::MAX,
{
    assert(vstd::std_specs::vec::spec_vec_len(v) == v@.len());
}

/// Maps a cell coordinate to its flat storage index, or reports a bounds
/// violation when the coordinate lies outside the grid.
pub fn get_tilemap_index(x: usize, y: usize, width: usize, height: usize) -> (r: Result<
    usize,
    BoundsError,
>)
    requires
        width * height <= usize::MAX,
    ensures
        match r {
            Ok(i) => in_bounds(x as int, y as int, width as int, height as int) && i == flat_index(
                x as int,
                y as int,
                width as int,
            ),
            Err(_) => !in_bounds(x as int, y as int, width as int, height as int),
        },
{
    if x >= width || y >= height {
        Err(BoundsError)
    } else {
        proof {
            lemma_flat_index_in_range(x as int, y as int, width as int, height as int);
        }
        Ok(y * width + x)
    }
}

/// The base tile grid: per cell, the tile identifier to display (or none),
/// plus the tilesheet the identifiers refer to and the pixel size of a tile.
pub struct Tilemap {
    pub tilesheet: TextureKey,
    pub tile_size: TileSize,
    pub width: usize,
    pub height: usize,
    pub tiles: Vec<Option<TileId>>,
}

impl Tilemap {
    /// The storage holds exactly one entry per grid cell.
    pub open spec fn wf(&self) -> bool {
        self.tiles@.len() == self.width * self.height
    }

    /// A grid of the given dimensions with every cell empty.
    pub fn new(tilesheet: TextureKey, tile_size: TileSize, width: usize, height: usize) -> (r:
        Tilemap)
        requires
            width * height <= usize::MAX,
        ensures
            r.wf(),
            r.tilesheet == tilesheet,
            r.tile_size == tile_size,
            r.width == width,
            r.height == height,
            forall|i: int| 0 <= i < r.tiles@.len() ==> r.tiles@[i] is None,
    {
        let count = width * height;
        let mut tiles: Vec<Option<TileId>> = Vec::new();
        let mut i: usize = 0;
        while i < count
            invariant
                i <= count,
                tiles@.len() == i,
                forall|j: int| 0 <= j < i ==> tiles@[j] is None,
            decreases count - i,
        {
            tiles.push(None);
            i = i + 1;
        }
        Tilemap { tilesheet, tile_size, width, height, tiles }
    }

    /// Writes the tile identifier of cell `(x, y)`; out-of-bounds coordinates
    /// are rejected and leave the grid unchanged.
    pub fn set_tile(&mut self, x: usize, y: usize, tile: Option<TileId>) -> (r: Result<
        (),
        BoundsError,
    >)
        requires
            old(self).wf(),
        ensures
            final(self).wf(),
            final(self).tilesheet == old(self).tilesheet,
            final(self).tile_size == old(self).tile_size,
            final(self).width == old(self).width,
            final(self).height == old(self).height,
            match r {
                Ok(_) => in_bounds(
                    x as int,
                    y as int,
                    old(self).width as int,
                    old(self).height as int,
                ) && final(self).tiles@ == old(self).tiles@.update(
                    flat_index(x as int, y as int, old(self).width as int),
                    tile,
                ),
                Err(_) => !in_bounds(
                    x as int,
                    y as int,
                    old(self).width as int,
                    old(self).height as int,
                ) && final(self).tiles@ == old(self).tiles@,
            },
    {
        proof {
            lemma_vec_len_fits_usize(&self.tiles);
        }
        match get_tilemap_index(x, y, self.width, self.height) {
            Ok(index) => {
                proof {
                    lemma_flat_index_in_range(
                        x as int,
                        y as int,
                        self.width as int,
                        self.height as int,
                    );
                }
                self.tiles.set(index, tile);
                Ok(())
            },
            Err(e) => Err(e),
        }
    }

    /// Reads the tile identifier of cell `(x, y)`; out-of-bounds coordinates
    /// are rejected.
    pub fn get_tile(&self, x: usize, y: usize) -> (r: Result<Option<TileId>, BoundsError>)
        requires
            self.wf(),
        ensures
            match r {
                Ok(t) => in_bounds(x as int, y as int, self.width as int, self.height as int) && t
                    == self.tiles@[flat_index(x as int, y as int, self.width as int)],
                Err(_) => !in_bounds(x as int, y as int, self.width as int, self.height as int),
            },
    {
        proof {
            lemma_vec_len_fits_usize(&self.tiles);
        }
        match get_tilemap_index(x, y, self.width, self.height) {
            Ok(index) => {
                proof {
                    lemma_flat_index_in_range(
                        x as int,
                        y as int,
                        self.width as int,
                        self.height as int,
                    );
                }
                Ok(self.tiles[index])
            },
            Err(e) => Err(e),
        }
    }
}

} // verus!
