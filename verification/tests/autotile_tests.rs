use autotilemap::autotilemap::AutoTile;
use autotilemap::autotilemap::AutoTileRuleset;
use autotilemap::autotilemap::AutoTileRulesetValue;
use autotilemap::autotilemap::AutoTilemap;
use autotilemap::tilemap::get_tilemap_index;
use autotilemap::tilemap::TextureKey;
use autotilemap::tilemap::TileSize;
use autotilemap::tilemap::Tilemap;

fn tile_size() -> TileSize {
    TileSize { x: 16, y: 16 }
}

fn all_any_grid() -> [[AutoTileRulesetValue; 5]; 5] {
    [[AutoTileRulesetValue::Any; 5]; 5]
}

/// All wildcards except the four immediate neighbors, which must be empty:
/// matches exactly the occupied cells with no occupied neighbor next to them.
fn isolated_grid() -> [[AutoTileRulesetValue; 5]; 5] {
    let mut grid = all_any_grid();
    grid[1][2] = AutoTileRulesetValue::Empty;
    grid[3][2] = AutoTileRulesetValue::Empty;
    grid[2][1] = AutoTileRulesetValue::Empty;
    grid[2][3] = AutoTileRulesetValue::Empty;
    grid
}

fn map_3x3(rulesets: Vec<AutoTileRuleset>) -> AutoTilemap {
    AutoTilemap::new(TextureKey(1), tile_size(), 3, 3, rulesets)
}

#[test]
fn test_autotiles() {
    let mut map = map_3x3(vec![AutoTileRuleset { tile_id: 10, grid: all_any_grid() }]);
    assert_eq!(map.width(), 3);
    assert_eq!(map.height(), 3);
    map.set_tile(1, 1).unwrap();
    assert_eq!(map.get_autotile(1, 1).unwrap(), AutoTile::Tile);
    map.bake().unwrap();
    assert_eq!(map.get_tile_id(1, 1).unwrap(), Some(10));
    assert_eq!(map.get_tile_id(0, 0).unwrap(), None);
}

#[test]
fn index_maps_row_by_row() {
    assert_eq!(get_tilemap_index(0, 0, 3, 3).unwrap(), 0);
    assert_eq!(get_tilemap_index(1, 2, 3, 3).unwrap(), 7);
    assert_eq!(get_tilemap_index(2, 1, 4, 2).unwrap(), 6);
}

#[test]
fn index_rejects_out_of_bounds() {
    assert!(get_tilemap_index(3, 0, 3, 3).is_err());
    assert!(get_tilemap_index(0, 3, 3, 3).is_err());
    assert!(get_tilemap_index(0, 0, 0, 5).is_err());
}

#[test]
fn tilemap_set_and_get() {
    let mut grid = Tilemap::new(TextureKey(2), tile_size(), 2, 2);
    assert_eq!(grid.get_tile(1, 0).unwrap(), None);
    grid.set_tile(1, 0, Some(42)).unwrap();
    assert_eq!(grid.get_tile(1, 0).unwrap(), Some(42));
    assert_eq!(grid.get_tile(0, 1).unwrap(), None);
    assert!(grid.set_tile(2, 0, Some(1)).is_err());
    assert!(grid.get_tile(0, 2).is_err());
}

#[test]
fn new_map_is_unoccupied_and_bare() {
    let mut map = map_3x3(Vec::new());
    for x in 0..3 {
        for y in 0..3 {
            assert_eq!(map.get_autotile(x, y).unwrap(), AutoTile::Empty);
            assert_eq!(map.get_tile_id(x, y).unwrap(), None);
        }
    }
    assert_eq!(map.tilesheet(), TextureKey(1));
    assert_eq!(map.tile_size(), tile_size());
    assert_eq!(map.tiles().len(), 9);
}

#[test]
fn occupancy_setters_roundtrip() {
    let mut map = map_3x3(Vec::new());
    map.set_tile(2, 0).unwrap();
    assert_eq!(map.get_autotile(2, 0).unwrap(), AutoTile::Tile);
    map.set_none(2, 0).unwrap();
    assert_eq!(map.get_autotile(2, 0).unwrap(), AutoTile::Empty);
    map.set_autotile(0, 2, AutoTile::Tile).unwrap();
    assert_eq!(map.get_autotile(0, 2).unwrap(), AutoTile::Tile);
}

#[test]
fn occupancy_setters_reject_out_of_bounds() {
    let mut map = map_3x3(Vec::new());
    assert!(map.set_tile(3, 0).is_err());
    assert!(map.set_none(0, 3).is_err());
    assert!(map.set_autotile(3, 3, AutoTile::Tile).is_err());
    assert!(map.get_autotile(9, 9).is_err());
    assert!(map.get_tile_id(9, 9).is_err());
    assert!(map.compute_tile_id(3, 1).is_err());
}

#[test]
fn unoccupied_cell_computes_no_tile() {
    // Whatever the rulesets say, an unoccupied cell yields no tile.
    let map = map_3x3(vec![AutoTileRuleset { tile_id: 5, grid: all_any_grid() }]);
    for x in 0..3 {
        for y in 0..3 {
            assert_eq!(map.compute_tile_id(x, y).unwrap(), None);
        }
    }
}

#[test]
fn all_wildcards_matches_every_occupied_cell() {
    let mut map = map_3x3(vec![AutoTileRuleset { tile_id: 5, grid: all_any_grid() }]);
    map.set_tile(0, 0).unwrap();
    map.set_tile(1, 1).unwrap();
    map.set_tile(2, 1).unwrap();
    assert_eq!(map.compute_tile_id(0, 0).unwrap(), Some(5));
    assert_eq!(map.compute_tile_id(1, 1).unwrap(), Some(5));
    assert_eq!(map.compute_tile_id(2, 1).unwrap(), Some(5));
    assert_eq!(map.compute_tile_id(2, 2).unwrap(), None);
}

#[test]
fn matcher_requires_occupied_center() {
    let ruleset = AutoTileRuleset { tile_id: 1, grid: all_any_grid() };
    let autotiles = vec![AutoTile::Empty; 9];
    assert!(!ruleset.matches(&autotiles, 3, 3, 1, 1));
    let mut occupied = vec![AutoTile::Empty; 9];
    occupied[4] = AutoTile::Tile;
    assert!(ruleset.matches(&occupied, 3, 3, 1, 1));
    // Out-of-bounds center never matches.
    assert!(!ruleset.matches(&occupied, 3, 3, 3, 1));
}

#[test]
fn out_of_grid_neighbor_matches_only_wildcard() {
    // Corner cell (0, 0) of a 3x3 grid: the pattern entry left of center
    // refers to (-1, 0), which lies outside the grid.
    let mut autotiles = vec![AutoTile::Empty; 9];
    autotiles[0] = AutoTile::Tile;

    let mut concrete_outside = all_any_grid();
    concrete_outside[1][2] = AutoTileRulesetValue::Empty;
    let ruleset = AutoTileRuleset { tile_id: 1, grid: concrete_outside };
    assert!(!ruleset.matches(&autotiles, 3, 3, 0, 0));

    let mut tile_outside = all_any_grid();
    tile_outside[1][2] = AutoTileRulesetValue::Tile;
    let ruleset = AutoTileRuleset { tile_id: 1, grid: tile_outside };
    assert!(!ruleset.matches(&autotiles, 3, 3, 0, 0));

    // The same expectation at an in-grid position is simply checked there:
    // the right neighbor (1, 0) is empty, so `Empty` matches.
    let mut concrete_inside = all_any_grid();
    concrete_inside[3][2] = AutoTileRulesetValue::Empty;
    let ruleset = AutoTileRuleset { tile_id: 1, grid: concrete_inside };
    assert!(ruleset.matches(&autotiles, 3, 3, 0, 0));
}

#[test]
fn first_match_wins() {
    let mut map = map_3x3(Vec::new());
    map.add_ruleset(AutoTileRuleset { tile_id: 1, grid: all_any_grid() });
    map.add_ruleset(AutoTileRuleset { tile_id: 2, grid: all_any_grid() });
    map.set_tile(1, 1).unwrap();
    assert_eq!(map.compute_tile_id(1, 1).unwrap(), Some(1));
    map.bake().unwrap();
    assert_eq!(map.get_tile_id(1, 1).unwrap(), Some(1));
}

#[test]
fn bake_is_idempotent() {
    let mut map = map_3x3(vec![AutoTileRuleset { tile_id: 8, grid: isolated_grid() }]);
    map.set_tile(1, 1).unwrap();
    map.set_tile(0, 2).unwrap();
    map.bake().unwrap();
    let first = map.tiles().clone();
    map.bake().unwrap();
    assert_eq!(*map.tiles(), first);
}

#[test]
fn isolated_center_gets_tile() {
    // 3x3 grid, only the center occupied: the "isolated" ruleset assigns its
    // tile to the center and nothing anywhere else.
    let mut map = map_3x3(vec![AutoTileRuleset { tile_id: 7, grid: isolated_grid() }]);
    map.set_tile(1, 1).unwrap();
    map.bake().unwrap();
    for x in 0..3 {
        for y in 0..3 {
            let expected = if x == 1 && y == 1 { Some(7) } else { None };
            assert_eq!(map.get_tile_id(x, y).unwrap(), expected);
        }
    }
}

#[test]
fn occupied_right_neighbor_breaks_isolated() {
    // Same grid with the cell right of center also occupied: the "isolated"
    // ruleset no longer matches the center, and nothing else matches either.
    let mut map = map_3x3(vec![AutoTileRuleset { tile_id: 7, grid: isolated_grid() }]);
    map.set_tile(1, 1).unwrap();
    map.set_tile(2, 1).unwrap();
    map.bake().unwrap();
    for x in 0..3 {
        for y in 0..3 {
            assert_eq!(map.get_tile_id(x, y).unwrap(), None);
        }
    }
}

#[test]
fn remove_ruleset_clears_its_tiles_after_bake() {
    let mut map = map_3x3(vec![AutoTileRuleset { tile_id: 7, grid: isolated_grid() }]);
    map.set_tile(1, 1).unwrap();
    map.bake().unwrap();
    assert_eq!(map.get_tile_id(1, 1).unwrap(), Some(7));
    let removed = map.remove_ruleset(7).unwrap();
    assert_eq!(removed.tile_id, 7);
    map.bake().unwrap();
    for x in 0..3 {
        for y in 0..3 {
            assert_eq!(map.get_tile_id(x, y).unwrap(), None);
        }
    }
}

#[test]
fn ruleset_lookup_and_removal_take_the_first_by_id() {
    let mut map = map_3x3(Vec::new());
    map.add_ruleset(AutoTileRuleset { tile_id: 3, grid: all_any_grid() });
    map.add_ruleset(AutoTileRuleset { tile_id: 3, grid: isolated_grid() });

    // The first ruleset with the identifier is the all-wildcard one.
    let found = map.get_ruleset(3).unwrap();
    assert_eq!(found.grid[1][2], AutoTileRulesetValue::Any);

    let removed = map.remove_ruleset(3).unwrap();
    assert_eq!(removed.grid[1][2], AutoTileRulesetValue::Any);

    // The second one, with the isolated pattern, is still there.
    let rest = map.get_ruleset(3).unwrap();
    assert_eq!(rest.grid[1][2], AutoTileRulesetValue::Empty);

    map.remove_ruleset(3).unwrap();
    assert!(map.get_ruleset(3).is_none());
    assert!(map.remove_ruleset(3).is_none());
}

#[test]
fn bake_leaves_occupancy_alone() {
    let mut map = map_3x3(vec![AutoTileRuleset { tile_id: 4, grid: all_any_grid() }]);
    map.set_tile(1, 0).unwrap();
    map.bake().unwrap();
    assert_eq!(map.get_autotile(1, 0).unwrap(), AutoTile::Tile);
    assert_eq!(map.get_autotile(0, 0).unwrap(), AutoTile::Empty);
}
