use ascii_factory::conveyer::Direction;
use ascii_factory::glyph::to_cp437;
use ascii_factory::map::{TileMap, MAP_HEIGHT, MAP_WIDTH};
use ascii_factory::tile::{Foreground, Tile, TileType};

fn small_map() -> TileMap {
    // 3 columns, 2 rows:
    //   Nothing  Binary1  Nothing
    //   Binary0  Nothing  Binary1
    let types = vec![
        TileType::Nothing,
        TileType::Binary1,
        TileType::Nothing,
        TileType::Binary0,
        TileType::Nothing,
        TileType::Binary1,
    ];
    TileMap::from_tile_types(3, 2, &types)
}

#[test]
fn cp437_of_ascii_and_arrows() {
    assert_eq!(to_cp437('A'), 65);
    assert_eq!(to_cp437(' '), 32);
    assert_eq!(to_cp437('#'), 35);
    assert_eq!(to_cp437('\u{25BA}'), 16);
    assert_eq!(to_cp437('\u{25BC}'), 31);
    assert_eq!(to_cp437('\u{25C4}'), 17);
    assert_eq!(to_cp437('\u{25B2}'), 30);
}

#[test]
fn default_glyphs_of_tile_types() {
    assert_eq!(TileType::Nothing.get_tile_glyph(), 32);
    assert_eq!(TileType::Binary0.get_tile_glyph(), 48);
    assert_eq!(TileType::Binary1.get_tile_glyph(), 49);
    assert_eq!(TileType::Ascii.get_tile_glyph(), 32);
    assert_eq!(TileType::Conveyer.get_tile_glyph(), 32);
}

#[test]
fn render_style_of_tiles() {
    let ore = Tile { tile_type: TileType::Binary1, tile_glyph: 7 };
    assert_eq!(ore.render_style(), (49, Foreground::White));
    let out = Tile { tile_type: TileType::Ascii, tile_glyph: 65 };
    assert_eq!(out.render_style(), (65, Foreground::White));
    let belt = Tile { tile_type: TileType::Conveyer, tile_glyph: 16 };
    assert_eq!(belt.render_style(), (16, Foreground::Yellow));
    let ground = Tile { tile_type: TileType::Nothing, tile_glyph: 99 };
    assert_eq!(ground.render_style(), (32, Foreground::White));
}

#[test]
fn map_built_from_types_row_by_row() {
    let m = small_map();
    assert_eq!(m.width, 3);
    assert_eq!(m.height, 2);
    assert_eq!(m.tiles.len(), 6);
    assert_eq!(m.get_tile_at_pos(1, 0), Tile { tile_type: TileType::Binary1, tile_glyph: 49 });
    assert_eq!(m.get_tile_at_pos(0, 1), Tile { tile_type: TileType::Binary0, tile_glyph: 48 });
    assert_eq!(m.get_tile_at_pos(2, 1), Tile { tile_type: TileType::Binary1, tile_glyph: 49 });
}

#[test]
fn full_size_map() {
    let types = vec![TileType::Nothing; (MAP_WIDTH * MAP_HEIGHT) as usize];
    let m = TileMap::from_tile_types(MAP_WIDTH, MAP_HEIGHT, &types);
    assert_eq!(m.tiles.len(), 4800);
    assert_eq!(m.get_tile_at_pos(79, 59).tile_type, TileType::Nothing);
}

#[test]
fn outside_the_map_reads_blank() {
    let m = small_map();
    let blank = Tile { tile_type: TileType::Nothing, tile_glyph: 32 };
    assert_eq!(m.get_tile_at_pos(-1, 0), blank);
    assert_eq!(m.get_tile_at_pos(3, 0), blank);
    assert_eq!(m.get_tile_at_pos(0, 2), blank);
    assert_eq!(m.get_tile_at_pos(0, -5), blank);
}

#[test]
fn read_after_write_and_others_untouched() {
    let mut m = small_map();
    let t = Tile { tile_type: TileType::Ascii, tile_glyph: 65 };
    m.set_tile_at_pos(2, 0, t);
    assert_eq!(m.get_tile_at_pos(2, 0), t);
    assert_eq!(m.get_tile_at_pos(1, 0), Tile { tile_type: TileType::Binary1, tile_glyph: 49 });
    assert_eq!(m.get_tile_at_pos(2, 1), Tile { tile_type: TileType::Binary1, tile_glyph: 49 });
    assert_eq!(m.tiles[2], t);
}

#[test]
fn write_outside_changes_nothing() {
    let mut m = small_map();
    let before = m.tiles.clone();
    m.set_tile_at_pos(3, 1, Tile { tile_type: TileType::Ascii, tile_glyph: 65 });
    m.set_tile_at_pos(-1, 1, Tile { tile_type: TileType::Ascii, tile_glyph: 65 });
    assert_eq!(m.tiles, before);
}

#[test]
fn last_write_wins() {
    let mut m = small_map();
    m.set_tile_at_pos(0, 0, Tile { tile_type: TileType::Ascii, tile_glyph: 65 });
    m.set_tile_at_pos(0, 0, Tile { tile_type: TileType::Ascii, tile_glyph: 66 });
    assert_eq!(m.get_tile_at_pos(0, 0).tile_glyph, 66);
}

#[test]
fn conveyer_placed_on_empty_ground_points_east() {
    let mut m = small_map();
    m.place_conveyer(0, 0);
    assert_eq!(m.get_tile_at_pos(0, 0), Tile { tile_type: TileType::Conveyer, tile_glyph: 16 });
    assert_eq!(m.conveyer_direction_at(0, 0), Some(Direction::East));
}

#[test]
fn conveyer_not_placed_on_ore_or_outside() {
    let mut m = small_map();
    let before = m.tiles.clone();
    m.place_conveyer(1, 0);
    m.place_conveyer(7, 7);
    assert_eq!(m.tiles, before);
    assert_eq!(m.conveyer_direction_at(1, 0), None);
}

#[test]
fn conveyer_turns_clockwise_and_back() {
    let mut m = small_map();
    m.place_conveyer(2, 0);
    m.rotate_conveyer(2, 0);
    assert_eq!(m.conveyer_direction_at(2, 0), Some(Direction::South));
    m.rotate_conveyer(2, 0);
    assert_eq!(m.conveyer_direction_at(2, 0), Some(Direction::West));
    m.rotate_conveyer(2, 0);
    assert_eq!(m.conveyer_direction_at(2, 0), Some(Direction::North));
    let three_turns = m.tiles.clone();
    m.rotate_conveyer(2, 0);
    assert_eq!(m.conveyer_direction_at(2, 0), Some(Direction::East));
    assert_eq!(m.get_tile_at_pos(2, 0), Tile { tile_type: TileType::Conveyer, tile_glyph: 16 });
    assert_ne!(m.tiles, three_turns);
}

#[test]
fn rotating_a_non_arrow_changes_nothing() {
    let mut m = small_map();
    let before = m.tiles.clone();
    m.rotate_conveyer(1, 0);
    m.rotate_conveyer(-3, 0);
    assert_eq!(m.tiles, before);
}

#[test]
fn rotation_follows_the_glyph_even_on_an_output_tile() {
    let mut m = small_map();
    m.set_tile_at_pos(0, 0, Tile { tile_type: TileType::Ascii, tile_glyph: 30 });
    m.rotate_conveyer(0, 0);
    assert_eq!(m.get_tile_at_pos(0, 0), Tile { tile_type: TileType::Ascii, tile_glyph: 16 });
    assert_eq!(m.conveyer_direction_at(0, 0), None);
}

#[test]
fn direction_deltas() {
    assert_eq!(Direction::East.delta(), (1, 0));
    assert_eq!(Direction::South.delta(), (0, 1));
    assert_eq!(Direction::West.delta(), (-1, 0));
    assert_eq!(Direction::North.delta(), (0, -1));
}
