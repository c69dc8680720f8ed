//! Tiles of the map and of the things that move over it.
use vstd::prelude::*;
use crate::glyph::{cp437, to_cp437, FontCharType};

verus! {

/// What a tile is made of.
#[derive(Clone, Copy, Debug, PartialEq, Eq, Structural)]
pub enum TileType {
    Nothing,
    /// Ore that yields the bit 0.
    Binary0,
    /// Ore that yields the bit 1.
    Binary1,
    /// An output of a processor or a miner; its glyph is defined by its producer.
    Ascii,
    /// A conveyer belt; its glyph gives its direction.
    Conveyer,
}

/// The character that stands for a tile type when nothing else defines its glyph.
pub open spec fn type_char(t: TileType) -> char {
    match t {
        TileType::Nothing => ' ',
        TileType::Binary0 => '0',
        TileType::Binary1 => '1',
        TileType::Ascii => ' ',
        TileType::Conveyer => ' ',
    }
}

/// The glyph code of `type_char(t)`: the character's own ASCII code.
pub open spec fn type_glyph(t: TileType) -> FontCharType {
    match t {
        TileType::Binary0 => 48,
        TileType::Binary1 => 49,
        _ => 32,
    }
}

/// The glyph code of a blank cell (a space).
pub open spec fn blank_glyph() -> FontCharType {
    32
}

/// Whether a miner can dig this kind of tile.
pub open spec fn is_ore(t: TileType) -> bool {
    t == TileType::Binary0 || t == TileType::Binary1
}

impl TileType {
    /// The glyph that a tile of this type shows by default.
    pub fn get_tile_glyph(&self) -> (r: FontCharType)
        ensures
            r == cp437(type_char(*self)),
            r == type_glyph(*self),
    {
        match self {
            TileType::Nothing => to_cp437(' '),
            TileType::Binary0 => to_cp437('0'),
            TileType::Binary1 => to_cp437('1'),
            TileType::Ascii => to_cp437(' '),
            TileType::Conveyer => to_cp437(' '),
        }
    }
}

/// A tile: its type and the glyph it carries.
#[derive(Clone, Copy, Debug, PartialEq, Eq, Structural)]
pub struct Tile {
    pub tile_type: TileType,
    pub tile_glyph: FontCharType,
}

/// The tile that stands for every position outside the map.
pub open spec fn blank_tile() -> Tile {
    Tile { tile_type: TileType::Nothing, tile_glyph: blank_glyph() }
}

/// The colour in which a tile is drawn, on a black background.
#[derive(Clone, Copy, Debug, PartialEq, Eq, Structural)]
pub enum Foreground {
    White,
    Yellow,
}

/// The glyph that is drawn for a tile: ore and empty ground show their
/// standard glyph, outputs and conveyers the glyph they carry.
pub open spec fn shown_glyph(t: Tile) -> FontCharType {
    match t.tile_type {
        TileType::Ascii => t.tile_glyph,
        TileType::Conveyer => t.tile_glyph,
        _ => type_glyph(t.tile_type),
    }
}

/// Conveyers are drawn in yellow, everything else in white.
pub open spec fn shown_foreground(t: Tile) -> Foreground {
    if t.tile_type == TileType::Conveyer {
        Foreground::Yellow
    } else {
        Foreground::White
    }
}

/// Ore and empty ground are drawn with their own character: the glyph code is
/// the ASCII code of `0` for `Binary0`, of `1` for `Binary1` and of a space
/// for `Nothing`; outputs and belts show the glyph they carry. Conveyers are
/// the only tiles drawn in yellow.
pub proof fn lemma_tiles_show_their_character(t: Tile)
    ensures
        t.tile_type == TileType::Binary0 ==> shown_glyph(t) == 48 && shown_glyph(t) as u32 == '0' as u32,
        t.tile_type == TileType::Binary1 ==> shown_glyph(t) == 49 && shown_glyph(t) as u32 == '1' as u32,
        t.tile_type == TileType::Nothing ==> shown_glyph(t) == 32 && shown_glyph(t) as u32 == ' ' as u32,
        t.tile_type != TileType::Ascii && t.tile_type != TileType::Conveyer ==> shown_glyph(t) as u32
            == type_char(t.tile_type) as u32 && type_glyph(t.tile_type) as u32 == type_char(
            t.tile_type,
        ) as u32,
        t.tile_type == TileType::Ascii || t.tile_type == TileType::Conveyer ==> shown_glyph(t)
            == t.tile_glyph,
        (shown_foreground(t) == Foreground::Yellow) <==> (t.tile_type == TileType::Conveyer),
{
}

impl Tile {
    /// A tile of the given type showing that type's default glyph.
    pub fn of_type(tile_type: TileType) -> (r: Tile)
        ensures
            r.tile_type == tile_type,
            r.tile_glyph == type_glyph(tile_type),
    {
        Tile { tile_type, tile_glyph: tile_type.get_tile_glyph() }
    }

    /// The glyph and the foreground colour with which this tile is drawn.
    pub fn render_style(&self) -> (r: (FontCharType, Foreground))
        ensures
            r.0 == shown_glyph(*self),
            r.1 == shown_foreground(*self),
            self.tile_type != TileType::Ascii && self.tile_type != TileType::Conveyer ==> r.0 == cp437(
                type_char(self.tile_type),
            ),
    {
        let glyph = match self.tile_type {
            TileType::Nothing => to_cp437(' '),
            TileType::Binary0 => to_cp437('0'),
            TileType::Binary1 => to_cp437('1'),
            TileType::Ascii => self.tile_glyph,
            TileType::Conveyer => self.tile_glyph,
        };
        let fg = match self.tile_type {
            TileType::Conveyer => Foreground::Yellow,
            _ => Foreground::White,
        };
        (glyph, fg)
    }
}

} // verus!
