//! Conveyer belts: their directions, how they are laid and turned, and where
//! they carry what stands on them.
use vstd::prelude::*;
use crate::glyph::{to_cp437, FontCharType};
use crate::map::{
    lemma_index_in_range, lemma_write_leaves_others, TileMap, TileMapView,
};
use crate::tile::{Tile, TileType};

verus! {

/// The four directions of a belt, in the order in which a belt turns.
#[derive(Clone, Copy, Debug, PartialEq, Eq, Structural)]
pub enum Direction {
    /// Glyph `►`: towards growing `x`.
    East,
    /// Glyph `▼`: towards growing `y`.
    South,
    /// Glyph `◄`: towards shrinking `x`.
    West,
    /// Glyph `▲`: towards shrinking `y`.
    North,
}

/// The code page 437 arrow that a belt of this direction shows.
pub open spec fn arrow_glyph(d: Direction) -> FontCharType {
    match d {
        Direction::East => 16,
        Direction::South => 31,
        Direction::West => 17,
        Direction::North => 30,
    }
}

/// The direction whose arrow is `g`, if `g` is one of the four arrows.
pub open spec fn direction_of_glyph(g: FontCharType) -> Option<Direction> {
    if g == 16 {
        Some(Direction::East)
    } else if g == 31 {
        Some(Direction::South)
    } else if g == 17 {
        Some(Direction::West)
    } else if g == 30 {
        Some(Direction::North)
    } else {
        None
    }
}

/// The direction a belt points to after one turn: a quarter turn clockwise.
pub open spec fn next_direction(d: Direction) -> Direction {
    match d {
        Direction::East => Direction::South,
        Direction::South => Direction::West,
        Direction::West => Direction::North,
        Direction::North => Direction::East,
    }
}

/// How far one step along a belt of direction `d` moves, as `(dx, dy)`.
pub open spec fn direction_delta(d: Direction) -> (int, int) {
    match d {
        Direction::East => (1, 0),
        Direction::South => (0, 1),
        Direction::West => (-1, 0),
        Direction::North => (0, -1),
    }
}

impl Direction {
    /// The step that a thing on a belt of this direction makes.
    pub fn delta(&self) -> (r: (i32, i32))
        ensures
            r.0 as int == direction_delta(*self).0,
            r.1 as int == direction_delta(*self).1,
    {
        match self {
            Direction::East => (1, 0),
            Direction::South => (0, 1),
            Direction::West => (-1, 0),
            Direction::North => (0, -1),
        }
    }
}

/// The belt arrows in turning order: `►`, `▼`, `◄`, `▲`.
fn conveyer_glyphs() -> (r: Vec<FontCharType>)
    ensures
        r@ == seq![16u16, 31u16, 17u16, 30u16],
{
    let r = vec![to_cp437('\u{25BA}'), to_cp437('\u{25BC}'), to_cp437('\u{25C4}'), to_cp437('\u{25B2}')];
    assert(r@ =~= seq![16u16, 31u16, 17u16, 30u16]);
    r
}

/// The index of the first occurrence of `g` in `glyphs`.
fn position_of(glyphs: &Vec<FontCharType>, g: FontCharType) -> (r: Option<usize>)
    ensures
        match r {
            Some(i) => i < glyphs@.len() && glyphs@[i as int] == g && forall|j: int|
                0 <= j < i ==> glyphs@[j] != g,
            None => forall|j: int| 0 <= j < glyphs@.len() ==> glyphs@[j] != g,
        },
{
    let mut i: usize = 0;
    while i < glyphs.len()
        invariant
            i <= glyphs@.len(),
            forall|j: int| 0 <= j < i ==> glyphs@[j] != g,
        decreases glyphs@.len() - i,
    {
        if glyphs[i] == g {
            return Some(i);
        }
        i = i + 1;
    }
    None
}

/// The direction at a given index of the turning order.
fn direction_at_index(i: usize) -> (r: Direction)
    requires
        i < 4,
    ensures
        arrow_glyph(r) == seq![16u16, 31u16, 17u16, 30u16][i as int],
{
    if i == 0 {
        Direction::East
    } else if i == 1 {
        Direction::South
    } else if i == 2 {
        Direction::West
    } else {
        Direction::North
    }
}

impl TileMapView {
    /// The direction of the belt at `(x, y)`; `None` where there is no belt or
    /// its glyph is not an arrow.
    pub open spec fn conveyer_direction(self, x: int, y: int) -> Option<Direction> {
        if self.tile_at(x, y).tile_type == TileType::Conveyer {
            direction_of_glyph(self.tile_at(x, y).tile_glyph)
        } else {
            None
        }
    }

    /// The map after turning the arrow at `(x, y)` one step. Whatever tile
    /// shows an arrow is turned; every other tile stays as it is.
    pub open spec fn rotated(self, x: int, y: int) -> TileMapView {
        let t = self.tile_at(x, y);
        match direction_of_glyph(t.tile_glyph) {
            Some(d) => self.with_tile(
                x,
                y,
                Tile { tile_type: t.tile_type, tile_glyph: arrow_glyph(next_direction(d)) },
            ),
            None => self,
        }
    }

    /// The map after laying a belt at `(x, y)`: only empty ground takes one,
    /// and a new belt points east.
    pub open spec fn with_conveyer(self, x: int, y: int) -> TileMapView {
        if self.tile_at(x, y).tile_type == TileType::Nothing {
            self.with_tile(
                x,
                y,
                Tile { tile_type: TileType::Conveyer, tile_glyph: arrow_glyph(Direction::East) },
            )
        } else {
            self
        }
    }
}

/// Each arrow glyph names exactly its own direction.
pub proof fn lemma_arrow_names_direction(d: Direction)
    ensures
        direction_of_glyph(arrow_glyph(d)) == Some(d),
{
}

/// Turning the belt at `(x, y)` points it a quarter turn clockwise and keeps
/// it a belt.
pub proof fn lemma_rotation_turns_clockwise(m: TileMapView, x: int, y: int, d: Direction)
    requires
        m.wf(),
        m.conveyer_direction(x, y) == Some(d),
    ensures
        m.rotated(x, y).conveyer_direction(x, y) == Some(next_direction(d)),
{
    lemma_index_in_range(m.width, m.height, x, y);
}

/// Turning an arrow four times brings the whole map back to where it was.
pub proof fn lemma_four_turns_restore(m: TileMapView, x: int, y: int)
    requires
        m.wf(),
    ensures
        m.rotated(x, y).rotated(x, y).rotated(x, y).rotated(x, y) == m,
{
    let t = m.tile_at(x, y);
    if m.in_bounds(x, y) {
        lemma_index_in_range(m.width, m.height, x, y);
        match direction_of_glyph(t.tile_glyph) {
            Some(d) => {
                let m1 = m.rotated(x, y);
                let m2 = m1.rotated(x, y);
                let m3 = m2.rotated(x, y);
                let m4 = m3.rotated(x, y);
                assert(m1.tile_at(x, y).tile_glyph == arrow_glyph(next_direction(d)));
                assert(m2.tile_at(x, y).tile_glyph == arrow_glyph(next_direction(next_direction(d))));
                assert(m3.tile_at(x, y).tile_glyph == arrow_glyph(
                    next_direction(next_direction(next_direction(d))),
                ));
                assert(m4.tile_at(x, y) == t);
                assert(m4.tiles =~= m.tiles);
            },
            None => {},
        }
    }
}

/// A belt laid on empty ground of the map points east.
pub proof fn lemma_new_conveyer_points_east(m: TileMapView, x: int, y: int)
    requires
        m.wf(),
        m.in_bounds(x, y),
        m.tile_at(x, y).tile_type == TileType::Nothing,
    ensures
        m.with_conveyer(x, y).conveyer_direction(x, y) == Some(Direction::East),
{
    lemma_index_in_range(m.width, m.height, x, y);
}

/// Laying a belt anywhere but on empty ground leaves the map unchanged.
pub proof fn lemma_conveyer_needs_empty_ground(m: TileMapView, x: int, y: int)
    requires
        m.tile_at(x, y).tile_type != TileType::Nothing,
    ensures
        m.with_conveyer(x, y) == m,
{
}

/// A belt carries things the way its arrow points: `►` (16) to growing `x`,
/// `▼` (31) to growing `y`, `◄` (17) to shrinking `x`, `▲` (30) to shrinking
/// `y`; a belt showing any other glyph carries nothing.
pub proof fn lemma_belts_carry_where_arrows_point(m: TileMapView, x: int, y: int)
    requires
        m.tile_at(x, y).tile_type == TileType::Conveyer,
    ensures
        m.tile_at(x, y).tile_glyph == 16 ==> m.conveyer_direction(x, y) == Some(Direction::East)
            && direction_delta(Direction::East) == (1int, 0int),
        m.tile_at(x, y).tile_glyph == 31 ==> m.conveyer_direction(x, y) == Some(Direction::South)
            && direction_delta(Direction::South) == (0int, 1int),
        m.tile_at(x, y).tile_glyph == 17 ==> m.conveyer_direction(x, y) == Some(Direction::West)
            && direction_delta(Direction::West) == (-1int, 0int),
        m.tile_at(x, y).tile_glyph == 30 ==> m.conveyer_direction(x, y) == Some(Direction::North)
            && direction_delta(Direction::North) == (0int, -1int),
        !(m.tile_at(x, y).tile_glyph == 16 || m.tile_at(x, y).tile_glyph == 31
            || m.tile_at(x, y).tile_glyph == 17 || m.tile_at(x, y).tile_glyph == 30)
            ==> m.conveyer_direction(x, y) is None,
{
}

/// Turning an arrow goes `►` (16) to `▼` (31) to `◄` (17) to `▲` (30) and back
/// to `►`, keeps the kind of the tile, and changes nothing for other glyphs.
pub proof fn lemma_turning_order(m: TileMapView, x: int, y: int)
    requires
        m.wf(),
        m.in_bounds(x, y),
    ensures
        m.rotated(x, y).tile_at(x, y).tile_type == m.tile_at(x, y).tile_type,
        m.tile_at(x, y).tile_glyph == 16 ==> m.rotated(x, y).tile_at(x, y).tile_glyph == 31,
        m.tile_at(x, y).tile_glyph == 31 ==> m.rotated(x, y).tile_at(x, y).tile_glyph == 17,
        m.tile_at(x, y).tile_glyph == 17 ==> m.rotated(x, y).tile_at(x, y).tile_glyph == 30,
        m.tile_at(x, y).tile_glyph == 30 ==> m.rotated(x, y).tile_at(x, y).tile_glyph == 16,
        !(m.tile_at(x, y).tile_glyph == 16 || m.tile_at(x, y).tile_glyph == 31
            || m.tile_at(x, y).tile_glyph == 17 || m.tile_at(x, y).tile_glyph == 30)
            ==> m.rotated(x, y) == m,
{
    lemma_index_in_range(m.width, m.height, x, y);
}

/// Turning the arrow at `(x, y)` touches no other position.
pub proof fn lemma_turning_touches_one_tile(m: TileMapView, x: int, y: int, x2: int, y2: int)
    requires
        m.wf(),
        x != x2 || y != y2,
    ensures
        m.rotated(x, y).tile_at(x2, y2) == m.tile_at(x2, y2),
        m.rotated(x, y).width == m.width,
        m.rotated(x, y).height == m.height,
{
    let t = m.tile_at(x, y);
    match direction_of_glyph(t.tile_glyph) {
        Some(d) => {
            lemma_write_leaves_others(
                m,
                x,
                y,
                Tile { tile_type: t.tile_type, tile_glyph: arrow_glyph(next_direction(d)) },
                x2,
                y2,
            );
        },
        None => {},
    }
}

/// A new belt on empty ground of the map is a `►` (16) belt, and laying it
/// touches no other position.
pub proof fn lemma_laying_touches_one_tile(m: TileMapView, x: int, y: int, x2: int, y2: int)
    requires
        m.wf(),
        x != x2 || y != y2,
    ensures
        m.with_conveyer(x, y).tile_at(x2, y2) == m.tile_at(x2, y2),
        m.with_conveyer(x, y).width == m.width,
        m.with_conveyer(x, y).height == m.height,
        m.in_bounds(x, y) && m.tile_at(x, y).tile_type == TileType::Nothing ==> m.with_conveyer(
            x,
            y,
        ).tile_at(x, y) == (Tile { tile_type: TileType::Conveyer, tile_glyph: 16 }),
{
    let belt = Tile { tile_type: TileType::Conveyer, tile_glyph: arrow_glyph(Direction::East) };
    lemma_write_leaves_others(m, x, y, belt, x2, y2);
    if m.in_bounds(x, y) {
        lemma_index_in_range(m.width, m.height, x, y);
    }
}

impl TileMap {
    /// The direction in which the belt at `(x, y)` carries things, if there is one.
    pub fn conveyer_direction_at(&self, x: i32, y: i32) -> (r: Option<Direction>)
        requires
            self.wf(),
        ensures
            r == self@.conveyer_direction(x as int, y as int),
    {
        let on_tile = self.get_tile_at_pos(x, y);
        if on_tile.tile_type == TileType::Conveyer {
            let glyphs = conveyer_glyphs();
            match position_of(&glyphs, on_tile.tile_glyph) {
                Some(i) => Some(direction_at_index(i)),
                None => None,
            }
        } else {
            None
        }
    }

    /// Turns the arrow at `(x, y)` to the next direction, if the tile there shows one.
    pub fn rotate_conveyer(&mut self, x: i32, y: i32)
        requires
            old(self).wf(),
        ensures
            final(self)@ == old(self)@.rotated(x as int, y as int),
            final(self).wf(),
    {
        let glyphs = conveyer_glyphs();
        let mut tile = self.get_tile_at_pos(x, y);
        if let Some(glyph_index) = position_of(&glyphs, tile.tile_glyph) {
            if glyph_index + 1 < glyphs.len() {
                tile.tile_glyph = glyphs[glyph_index + 1];
            } else {
                tile.tile_glyph = glyphs[0];
            }
            self.set_tile_at_pos(x, y, tile);
        }
    }

    /// Lays an east-pointing belt at `(x, y)` if the ground there is empty.
    pub fn place_conveyer(&mut self, x: i32, y: i32)
        requires
            old(self).wf(),
        ensures
            final(self)@ == old(self)@.with_conveyer(x as int, y as int),
            final(self).wf(),
    {
        let tile = self.get_tile_at_pos(x, y);
        match tile.tile_type {
            TileType::Nothing => {
                self.set_tile_at_pos(
                    x,
                    y,
                    Tile { tile_type: TileType::Conveyer, tile_glyph: to_cp437('\u{25BA}') },
                );
            },
            _ => {},
        }
    }
}

} // verus!
