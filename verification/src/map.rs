//! The tile map: a rectangle of tiles stored row by row.
use vstd::prelude::*;
use crate::glyph::to_cp437;
use crate::tile::{blank_tile, type_glyph, Tile, TileType};

verus! {

/// Width of the generated map, in tiles.
pub const MAP_WIDTH: i32 = 80;

/// Height of the generated map, in tiles.
pub const MAP_HEIGHT: i32 = 60;

/// The mathematical model of a map: its size and its tiles, row by row.
pub struct TileMapView {
    pub width: int,
    pub height: int,
    pub tiles: Seq<Tile>,
}

impl TileMapView {
    /// Whether `(x, y)` is a position of the map.
    pub open spec fn in_bounds(self, x: int, y: int) -> bool {
        0 <= x < self.width && 0 <= y < self.height
    }

    /// Where the tile at `(x, y)` is stored.
    pub open spec fn index(self, x: int, y: int) -> int {
        y * self.width + x
    }

    /// A map is well formed when every position has a stored tile and every
    /// index fits in an `i32`.
    pub open spec fn wf(self) -> bool {
        (self.width > 0 && self.height > 0) ==> {
            &&& self.width * self.height <= self.tiles.len()
            &&& self.width * self.height <= i32::MAX
        }
    }

    /// The tile at `(x, y)`; every position outside the map reads as a blank tile.
    pub open spec fn tile_at(self, x: int, y: int) -> Tile {
        if self.in_bounds(x, y) {
            self.tiles[self.index(x, y)]
        } else {
            blank_tile()
        }
    }

    /// The map with the tile at `(x, y)` replaced; unchanged outside the map.
    pub open spec fn with_tile(self, x: int, y: int, t: Tile) -> TileMapView {
        if self.in_bounds(x, y) {
            TileMapView { tiles: self.tiles.update(self.index(x, y), t), ..self }
        } else {
            self
        }
    }
}

/// Row-major storage puts every position of a `w` by `h` grid below `w * h`.
pub proof fn lemma_index_in_range(w: int, h: int, x: int, y: int)
    requires
        0 <= x < w,
        0 <= y < h,
    ensures
        0 <= y * w + x < w * h,
{
    assert(0 <= y * w + x < w * h) by (nonlinear_arith)
        requires
            0 <= x < w,
            0 <= y < h,
    ;
}

/// Two positions of a grid of width `w` share a storage index only if they are equal.
pub proof fn lemma_index_injective(w: int, x1: int, y1: int, x2: int, y2: int)
    requires
        0 <= x1 < w,
        0 <= x2 < w,
        0 <= y1,
        0 <= y2,
        y1 * w + x1 == y2 * w + x2,
    ensures
        x1 == x2,
        y1 == y2,
{
    if y1 < y2 {
        assert(y1 * w + w <= y2 * w) by (nonlinear_arith)
            requires
                y1 < y2,
                0 <= w,
        ;
    } else if y2 < y1 {
        assert(y2 * w + w <= y1 * w) by (nonlinear_arith)
            requires
                y2 < y1,
                0 <= w,
        ;
    }
}

/// Reading a position right after writing it gives back the written tile.
pub proof fn lemma_read_after_write(m: TileMapView, x: int, y: int, t: Tile)
    requires
        m.wf(),
        m.in_bounds(x, y),
    ensures
        m.with_tile(x, y, t).tile_at(x, y) == t,
{
    lemma_index_in_range(m.width, m.height, x, y);
}

/// Writing one position leaves every other position as it was.
pub proof fn lemma_write_leaves_others(m: TileMapView, x: int, y: int, t: Tile, x2: int, y2: int)
    requires
        m.wf(),
        x != x2 || y != y2,
    ensures
        m.with_tile(x, y, t).tile_at(x2, y2) == m.tile_at(x2, y2),
{
    if m.in_bounds(x, y) && m.in_bounds(x2, y2) {
        lemma_index_in_range(m.width, m.height, x, y);
        lemma_index_in_range(m.width, m.height, x2, y2);
        if m.index(x, y) == m.index(x2, y2) {
            lemma_index_injective(m.width, x, y, x2, y2);
        }
    }
}

/// Off the map every position reads as a blank tile, and writes there change nothing.
pub proof fn lemma_outside_is_blank(m: TileMapView, x: int, y: int, t: Tile)
    requires
        !m.in_bounds(x, y),
    ensures
        m.tile_at(x, y) == blank_tile(),
        m.with_tile(x, y, t) == m,
{
}

/// A write keeps the size of the map and its well-formedness.
pub proof fn lemma_write_keeps_shape(m: TileMapView, x: int, y: int, t: Tile)
    requires
        m.wf(),
    ensures
        m.with_tile(x, y, t).wf(),
        m.with_tile(x, y, t).width == m.width,
        m.with_tile(x, y, t).height == m.height,
        m.with_tile(x, y, t).tiles.len() == m.tiles.len(),
{
    if m.in_bounds(x, y) {
        lemma_index_in_range(m.width, m.height, x, y);
    }
}

/// Of two writes to the same position only the second one counts.
pub proof fn lemma_last_write_wins(m: TileMapView, x: int, y: int, t1: Tile, t2: Tile)
    requires
        m.wf(),
    ensures
        m.with_tile(x, y, t1).with_tile(x, y, t2) == m.with_tile(x, y, t2),
{
    if m.in_bounds(x, y) {
        lemma_index_in_range(m.width, m.height, x, y);
        assert(m.with_tile(x, y, t1).with_tile(x, y, t2).tiles =~= m.with_tile(x, y, t2).tiles);
    }
}

/// Writing back the tile that a position holds changes nothing.
pub proof fn lemma_write_back_is_identity(m: TileMapView, x: int, y: int)
    requires
        m.wf(),
    ensures
        m.with_tile(x, y, m.tile_at(x, y)) == m,
{
    if m.in_bounds(x, y) {
        lemma_index_in_range(m.width, m.height, x, y);
        assert(m.with_tile(x, y, m.tile_at(x, y)).tiles =~= m.tiles);
    }
}

/// The map of the game.
#[derive(Clone, Debug)]
pub struct TileMap {
    pub width: i32,
    pub height: i32,
    pub tiles: Vec<Tile>,
}

impl View for TileMap {
    type V = TileMapView;

    open spec fn view(&self) -> TileMapView {
        TileMapView { width: self.width as int, height: self.height as int, tiles: self.tiles@ }
    }
}

impl TileMap {
    pub open spec fn wf(&self) -> bool {
        self@.wf()
    }

    /// The tile at `(x, y)`, or a blank tile when the position is off the map.
    pub fn get_tile_at_pos(&self, x: i32, y: i32) -> (r: Tile)
        requires
            self.wf(),
        ensures
            r == self@.tile_at(x as int, y as int),
    {
        if x < 0 || x >= self.width || y < 0 || y >= self.height {
            return Tile { tile_type: TileType::Nothing, tile_glyph: to_cp437(' ') };
        }
        proof {
            lemma_index_in_range(self.width as int, self.height as int, x as int, y as int);
        }
        self.tiles[(y * self.width + x) as usize]
    }

    /// Replaces the tile at `(x, y)`; does nothing when the position is off the map.
    pub fn set_tile_at_pos(&mut self, x: i32, y: i32, tile: Tile)
        requires
            old(self).wf(),
        ensures
            final(self)@ == old(self)@.with_tile(x as int, y as int, tile),
            final(self).wf(),
    {
        if x < 0 || x >= self.width || y < 0 || y >= self.height {
            return;
        }
        proof {
            lemma_index_in_range(self.width as int, self.height as int, x as int, y as int);
        }
        self.tiles.set((y * self.width + x) as usize, tile);
    }

    /// A `width` by `height` map whose tiles, row by row, have the given types,
    /// each showing its type's default glyph.
    pub fn from_tile_types(width: i32, height: i32, types: &Vec<TileType>) -> (r: TileMap)
        requires
            0 <= width,
            0 <= height,
            types@.len() == width * height,
            width * height <= i32::MAX,
        ensures
            r.wf(),
            r.width == width,
            r.height == height,
            r@.tiles.len() == types@.len(),
            forall|i: int|
                0 <= i < types@.len() ==> #[trigger] r@.tiles[i] == (Tile {
                    tile_type: types@[i],
                    tile_glyph: type_glyph(types@[i]),
                }),
    {
        let mut tiles: Vec<Tile> = Vec::new();
        let n = types.len();
        let mut i: usize = 0;
        while i < n
            invariant
                n == types@.len(),
                i <= n,
                tiles@.len() == i,
                forall|j: int|
                    0 <= j < i ==> #[trigger] tiles@[j] == (Tile {
                        tile_type: types@[j],
                        tile_glyph: type_glyph(types@[j]),
                    }),
            decreases n - i,
        {
            tiles.push(Tile::of_type(types[i]));
            i = i + 1;
        }
        TileMap { width, height, tiles }
    }
}

} // verus!
