use ascii_factory::machine::{sprite_cells, Miner, Processor, ProcessorStep};
use ascii_factory::map::TileMap;
use ascii_factory::mining::mined_tile;
use ascii_factory::tile::{Tile, TileType};

fn feed(p: &mut Processor, bits: &str) {
    for c in bits.chars() {
        let t = if c == '1' { TileType::Binary1 } else { TileType::Binary0 };
        assert_eq!(p.on_movable(true, t), ProcessorStep::Consumed);
    }
}

#[test]
fn processor_default_frame() {
    let p = Processor::default();
    assert_eq!(p.bits, 0);
    assert_eq!(p.count, 8);
    assert_eq!(p.glyphs.len(), 48);
    for i in 0..48 {
        let (x, y) = (i % 8, i / 8);
        let border = x == 0 || x == 7 || y == 0 || y == 5;
        assert_eq!(p.glyphs[i], if border { 35 } else { 32 });
    }
}

#[test]
fn miner_default_frame() {
    let m = Miner::default();
    assert_eq!(m.radius, 6);
    assert_eq!(m.glyphs.len(), 36);
    for i in 0..36 {
        let (x, y) = (i % 6, i / 6);
        let border = x == 0 || x == 5 || y == 0 || y == 5;
        assert_eq!(m.glyphs[i], if border { 35 } else { 32 });
    }
}

#[test]
fn bits_01000001_make_the_letter_a() {
    let mut p = Processor::default();
    feed(&mut p, "01000001");
    assert_eq!(p.count, 0);
    assert_eq!(p.bits, 0x41);
    assert_eq!(p.on_movable(true, TileType::Binary1), ProcessorStep::Waiting);
    assert_eq!(p.flush(), Some(Tile { tile_type: TileType::Ascii, tile_glyph: 65 }));
    assert_eq!(p.count, 8);
    assert_eq!(p.bits, 0);
}

#[test]
fn first_bit_is_most_significant() {
    let mut p = Processor::default();
    feed(&mut p, "1");
    assert_eq!(p.bits, 0x80);
    assert_eq!(p.count, 7);
    feed(&mut p, "0000001");
    assert_eq!(p.bits, 0x81);
}

#[test]
fn a_space_is_not_emitted() {
    let mut p = Processor::default();
    feed(&mut p, "00100000");
    assert_eq!(p.flush(), None);
    assert_eq!(p.count, 8);
}

#[test]
fn zero_bits_emit_glyph_of_nul() {
    let mut p = Processor::default();
    feed(&mut p, "00000000");
    assert_eq!(p.flush(), Some(Tile { tile_type: TileType::Ascii, tile_glyph: 0 }));
}

#[test]
fn invalid_char_code_reads_as_space() {
    let mut p = Processor { bits: 0xD800, glyphs: vec![], count: 0 };
    assert_eq!(p.flush(), None);
}

#[test]
fn processor_outside_or_partly_filled_skips() {
    let mut p = Processor::default();
    assert_eq!(p.on_movable(false, TileType::Binary1), ProcessorStep::Skipped);
    assert_eq!(p.count, 8);
    assert_eq!(p.bits, 0);
    let mut full = Processor::default();
    feed(&mut full, "11111111");
    assert_eq!(full.on_movable(false, TileType::Binary1), ProcessorStep::Waiting);
    assert_eq!(full.bits, 0xff);
}

#[test]
fn non_bit_tiles_take_a_slot_without_setting_it() {
    let mut p = Processor::default();
    assert_eq!(p.on_movable(true, TileType::Ascii), ProcessorStep::Consumed);
    assert_eq!(p.count, 7);
    assert_eq!(p.bits, 0);
}

#[test]
fn clearing_a_bit() {
    let mut p = Processor { bits: 0xff, glyphs: vec![], count: 8 };
    feed(&mut p, "0");
    assert_eq!(p.bits, 0x7f);
}

#[test]
fn processor_cells_skip_spaces() {
    let p = Processor::default();
    let cells = p.glyph_cells(10, 20);
    assert_eq!(cells.len(), 24);
    assert_eq!(cells[0], (10, 20, 35));
    assert_eq!(cells[5], (10, 25, 35));
    assert_eq!(cells[6], (11, 20, 35));
    assert_eq!(cells[7], (11, 25, 35));
    assert_eq!(*cells.last().unwrap(), (17, 25, 35));
}

#[test]
fn miner_cells() {
    let m = Miner::default();
    let cells = m.glyph_cells(-2, 3);
    assert_eq!(cells.len(), 20);
    assert_eq!(cells[0], (-2, 3, 35));
}

#[test]
fn sprite_cells_order_column_by_column() {
    // 2 columns, 2 rows: row 0 = [1, 32], row 1 = [32, 2]
    let glyphs = vec![1, 32, 32, 2];
    assert_eq!(sprite_cells(&glyphs, 2, 2, 0, 0), vec![(0, 0, 1), (1, 1, 2)]);
}

fn ore_map() -> TileMap {
    // 3 by 3:
    //   Binary1 Nothing Binary0
    //   Nothing Nothing Nothing
    //   Binary0 Nothing Binary1
    let types = vec![
        TileType::Binary1,
        TileType::Nothing,
        TileType::Binary0,
        TileType::Nothing,
        TileType::Nothing,
        TileType::Nothing,
        TileType::Binary0,
        TileType::Nothing,
        TileType::Binary1,
    ];
    TileMap::from_tile_types(3, 3, &types)
}

#[test]
fn minable_tiles_column_by_column() {
    let m = ore_map();
    let all = m.minable_tiles(-5, 10, -5, 10);
    let kinds: Vec<TileType> = all.iter().map(|t| t.tile_type).collect();
    assert_eq!(kinds, vec![TileType::Binary1, TileType::Binary0, TileType::Binary0, TileType::Binary1]);
    assert_eq!(m.minable_tiles(1, 1, 0, 2).len(), 0);
    assert_eq!(m.minable_tiles(2, 0, 0, 2).len(), 0);
}

#[test]
fn mining_without_ore_gives_nothing() {
    let m = ore_map();
    assert_eq!(m.mine(1, 1, 0, 2), None);
    assert_eq!(m.mine(10, 20, 10, 20), None);
}

#[test]
fn mining_a_single_ore_tile() {
    let m = ore_map();
    for _ in 0..20 {
        assert_eq!(m.mine(2, 2, 0, 0), Some(Tile { tile_type: TileType::Binary0, tile_glyph: 48 }));
    }
}

#[test]
fn mining_picks_one_of_the_ore_tiles() {
    let m = ore_map();
    for _ in 0..50 {
        let t = m.mine(0, 2, 0, 2).unwrap();
        assert!(
            t == Tile { tile_type: TileType::Binary0, tile_glyph: 48 }
                || t == Tile { tile_type: TileType::Binary1, tile_glyph: 49 }
        );
    }
}

#[test]
fn mined_tile_shows_the_ore_glyph() {
    let candidates = vec![
        Tile { tile_type: TileType::Binary0, tile_glyph: 48 },
        Tile { tile_type: TileType::Binary1, tile_glyph: 7 },
    ];
    assert_eq!(mined_tile(&candidates, 1), Tile { tile_type: TileType::Binary1, tile_glyph: 49 });
    assert_eq!(mined_tile(&candidates, 0), Tile { tile_type: TileType::Binary0, tile_glyph: 48 });
}

#[test]
fn mined_bits_are_processed_into_a_character() {
    // Ore for the bits of 'A' (01000001), dug one tile at a time.
    let types = vec![
        TileType::Binary0,
        TileType::Binary1,
        TileType::Binary0,
        TileType::Binary0,
        TileType::Binary0,
        TileType::Binary0,
        TileType::Binary0,
        TileType::Binary1,
    ];
    let m = TileMap::from_tile_types(8, 1, &types);
    let mut p = Processor::default();
    for x in 0..8 {
        let bit = m.mine(x, x, 0, 0).unwrap();
        assert_eq!(p.on_movable(true, bit.tile_type), ProcessorStep::Consumed);
    }
    assert_eq!(p.flush(), Some(Tile { tile_type: TileType::Ascii, tile_glyph: 65 }));
}
