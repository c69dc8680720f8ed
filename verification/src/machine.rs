//! The machines of the factory: processors, which assemble eight bits into a
//! character, and miners; and the glyph frames they are drawn with.
use vstd::prelude::*;
use crate::glyph::{cp437, to_cp437, FontCharType};
use crate::map::lemma_index_in_range;
use crate::tile::{Tile, TileType};

verus! {

/// Width of a processor's frame, in cells.
pub const PROCESSOR_WIDTH: i32 = 8;

/// Height of a processor's frame, in cells.
pub const PROCESSOR_HEIGHT: i32 = 6;

/// Side of a miner's square frame, in cells.
pub const MINER_SIZE: i32 = 6;

/// Whether the cell at column `x`, row `y` lies on the border of a `w` by `h` frame.
pub open spec fn on_border(w: int, h: int, x: int, y: int) -> bool {
    x == 0 || x == w - 1 || y == 0 || y == h - 1
}

/// The glyph of cell `i` (row by row) of a `w` by `h` frame: `#` on the
/// border, a space inside.
pub open spec fn frame_glyph(w: int, h: int, i: int) -> FontCharType {
    if on_border(w, h, i % w, i / w) {
        35
    } else {
        32
    }
}

/// The glyphs of a `w` by `h` frame, row by row.
fn frame_glyphs(w: usize, h: usize) -> (r: Vec<FontCharType>)
    requires
        0 < w,
        w * h <= usize::MAX,
    ensures
        r@.len() == w * h,
        forall|i: int| 0 <= i < w * h ==> #[trigger] r@[i] == frame_glyph(w as int, h as int, i),
{
    let n = w * h;
    let wall = to_cp437('#');
    let space = to_cp437(' ');
    let mut glyphs: Vec<FontCharType> = Vec::new();
    let mut i: usize = 0;
    while i < n
        invariant
            0 < w,
            n == w * h,
            i <= n,
            wall == 35,
            space == 32,
            glyphs@.len() == i,
            forall|j: int| 0 <= j < i ==> #[trigger] glyphs@[j] == frame_glyph(w as int, h as int, j),
        decreases n - i,
    {
        let x = i % w;
        let y = i / w;
        if x == 0 || x == w - 1 || y == 0 || y + 1 == h {
            glyphs.push(wall);
        } else {
            glyphs.push(space);
        }
        i = i + 1;
    }
    glyphs
}

/// The cells of column `x` of a sprite, rows `0` up to but not including
/// `y_end`, that show something other than a space: where each is drawn,
/// once the sprite is placed at `(x_pos, y_pos)`, and its glyph.
pub open spec fn sprite_column(
    glyphs: Seq<FontCharType>,
    w: int,
    x: int,
    y_end: int,
    x_pos: int,
    y_pos: int,
) -> Seq<(i32, i32, FontCharType)>
    decreases y_end,
{
    if y_end <= 0 {
        Seq::empty()
    } else {
        let before = sprite_column(glyphs, w, x, y_end - 1, x_pos, y_pos);
        let g = glyphs[x + (y_end - 1) * w];
        if g != 32 {
            before.push(((x + x_pos) as i32, (y_end - 1 + y_pos) as i32, g))
        } else {
            before
        }
    }
}

/// The visible cells of the first `x_end` columns of a sprite `h` rows high,
/// column by column, each top to bottom.
pub open spec fn sprite_cells_upto(
    glyphs: Seq<FontCharType>,
    w: int,
    h: int,
    x_end: int,
    x_pos: int,
    y_pos: int,
) -> Seq<(i32, i32, FontCharType)>
    decreases x_end,
{
    if x_end <= 0 {
        Seq::empty()
    } else {
        sprite_cells_upto(glyphs, w, h, x_end - 1, x_pos, y_pos) + sprite_column(
            glyphs,
            w,
            x_end - 1,
            h,
            x_pos,
            y_pos,
        )
    }
}

/// The cells to draw for a `w` by `h` sprite whose glyphs are stored row by
/// row, placed with its top left corner at `(x_pos, y_pos)`: every cell whose
/// glyph is not a space, with its screen position and glyph.
pub fn sprite_cells(glyphs: &Vec<FontCharType>, w: i32, h: i32, x_pos: i32, y_pos: i32) -> (r: Vec<
    (i32, i32, FontCharType),
>)
    requires
        0 <= w,
        0 <= h,
        w * h <= glyphs@.len(),
        x_pos + w <= i32::MAX + 1,
        y_pos + h <= i32::MAX + 1,
    ensures
        r@ == sprite_cells_upto(glyphs@, w as int, h as int, w as int, x_pos as int, y_pos as int),
{
    let space = to_cp437(' ');
    let len = glyphs.len();
    let mut cells: Vec<(i32, i32, FontCharType)> = Vec::new();
    let mut x: i32 = 0;
    while x < w
        invariant
            0 <= x <= w,
            0 <= h,
            w * h <= glyphs@.len(),
            x_pos + w <= i32::MAX + 1,
            y_pos + h <= i32::MAX + 1,
            space == 32,
            len == glyphs@.len(),
            cells@ == sprite_cells_upto(glyphs@, w as int, h as int, x as int, x_pos as int, y_pos as int),
        decreases w - x,
    {
        let ghost before = cells@;
        let mut y: i32 = 0;
        while y < h
            invariant
                0 <= x < w,
                0 <= y <= h,
                w * h <= glyphs@.len(),
                x_pos + w <= i32::MAX + 1,
                y_pos + h <= i32::MAX + 1,
                space == 32,
                len == glyphs@.len(),
                cells@ == before + sprite_column(glyphs@, w as int, x as int, y as int, x_pos as int, y_pos as int),
            decreases h - y,
        {
            proof {
                lemma_index_in_range(w as int, h as int, x as int, y as int);
                assert(0 <= (y as int) * (w as int) <= (y as int) * (w as int) + (x as int) < glyphs@.len());
            }
            let glyph = glyphs[x as usize + y as usize * w as usize];
            if glyph != space {
                cells.push((x + x_pos, y + y_pos, glyph));
            }
            proof {
                assert(cells@ =~= before + sprite_column(
                    glyphs@,
                    w as int,
                    x as int,
                    y + 1,
                    x_pos as int,
                    y_pos as int,
                ));
            }
            y = y + 1;
        }
        x = x + 1;
    }
    cells
}

/// Whether `v` is the code of a Unicode scalar value, that is, of a `char`.
pub open spec fn is_char_code(v: u32) -> bool {
    v < 0xD800 || (0xE000 <= v && v <= 0x10FFFF)
}

/// Calls `char::from_u32`.
///
/// Trusted, as std documents it: the result is `Some` exactly when `v` is
/// the code of a `char` (not a surrogate, at most `0x10FFFF`), and then it is
/// the `char` with that code.
#[verifier::external_body]
fn char_from_u32(v: u32) -> (r: Option<char>)
    ensures
        r == (if is_char_code(v) {
            Some(v as char)
        } else {
            None
        }),
        r matches Some(c) ==> c as u32 == v,
{
    char::from_u32(v)
}

/// The bit that a tile carries into a processor: 1 for `Binary1`, else 0.
pub open spec fn bit_value(t: TileType) -> u32 {
    if t == TileType::Binary1 {
        1
    } else {
        0
    }
}

/// The processor's bits after a tile arrives in bit position `index`: ore
/// sets (`Binary1`) or clears (`Binary0`) that bit, other tiles leave it.
pub open spec fn fed_bits(bits: u32, index: i32, t: TileType) -> u32 {
    match t {
        TileType::Binary0 => bits & !(1u32 << (index as u32)),
        TileType::Binary1 => bits | (1u32 << (index as u32)),
        _ => bits,
    }
}

/// The character a processor emits for its bits: the character with that
/// code, or a space when there is none.
pub open spec fn output_char(bits: u32) -> char {
    if is_char_code(bits) {
        bits as char
    } else {
        ' '
    }
}

/// The output tile a processor spawns for its bits: none for a space,
/// otherwise an output tile showing the character's glyph.
pub open spec fn output_tile(bits: u32) -> Option<Tile> {
    if output_char(bits) == ' ' {
        None
    } else {
        Some(Tile { tile_type: TileType::Ascii, tile_glyph: cp437(output_char(bits)) })
    }
}

/// What a processor did with a thing that moved near it.
#[derive(Clone, Copy, Debug, PartialEq, Eq, Structural)]
pub enum ProcessorStep {
    /// The thing was inside and its bit was taken in; it is to be removed.
    Consumed,
    /// The processor is full and waits for its timer before it emits.
    Waiting,
    /// Nothing happened.
    Skipped,
}

/// A processor: it takes in bits, most significant first, until it holds
/// eight, then emits the character they encode.
#[derive(Clone, Debug)]
pub struct Processor {
    /// The bits taken in so far.
    pub bits: u32,
    /// The frame the processor is drawn with, row by row.
    pub glyphs: Vec<FontCharType>,
    /// How many bits are still to come; the next one goes to bit `count - 1`.
    pub count: i32,
}

/// The number that a sequence of bits spells, the first one most significant.
pub open spec fn byte_value(s: Seq<TileType>) -> u32
    decreases s.len(),
{
    if s.len() == 0 {
        0
    } else {
        (byte_value(s.drop_last()) << 1u32) | bit_value(s.last())
    }
}

/// The bits and the count of a processor after every tile of `s` arrived
/// inside it, in order, starting from `bits` and `count`.
pub open spec fn fed_sequence(bits: u32, count: i32, s: Seq<TileType>) -> (u32, i32)
    decreases s.len(),
{
    if s.len() == 0 {
        (bits, count)
    } else {
        let before = fed_sequence(bits, count, s.drop_last());
        (fed_bits(before.0, (before.1 - 1) as i32, s.last()), (before.1 - 1) as i32)
    }
}

proof fn lemma_shift_in_bit(v: u32, k: u32)
    requires
        k < 8,
    ensures
        (v << ((k + 1) as u32)) | (1u32 << k) == ((v << 1u32) | 1u32) << k,
        (v << ((k + 1) as u32)) & !(1u32 << k) == ((v << 1u32) | 0u32) << k,
{
    assert((v << ((k + 1) as u32)) | (1u32 << k) == ((v << 1u32) | 1u32) << k) by (bit_vector)
        requires
            k < 8,
    ;
    assert((v << ((k + 1) as u32)) & !(1u32 << k) == ((v << 1u32) | 0u32) << k) by (bit_vector)
        requires
            k < 8,
    ;
}

proof fn lemma_byte_value_bound(s: Seq<TileType>)
    requires
        s.len() <= 8,
    ensures
        byte_value(s) < (1u32 << (s.len() as u32)),
    decreases s.len(),
{
    if s.len() > 0 {
        let n = (s.len() - 1) as u32;
        let v = byte_value(s.drop_last());
        let b = bit_value(s.last());
        lemma_byte_value_bound(s.drop_last());
        assert(((v << 1u32) | b) < (1u32 << ((n + 1) as u32))) by (bit_vector)
            requires
                n < 8,
                v < (1u32 << n),
                b <= 1,
        ;
    } else {
        assert((1u32 << 0u32) == 1u32) by (bit_vector);
    }
}

/// A fresh processor fed `n` ore bits holds them, first one most significant,
/// in its top `n` bit positions and still wants `8 - n` more.
pub proof fn lemma_feeding_fills_from_the_top(s: Seq<TileType>)
    requires
        s.len() <= 8,
        forall|i: int| 0 <= i < s.len() ==> crate::tile::is_ore(#[trigger] s[i]),
    ensures
        fed_sequence(0, 8, s) == (byte_value(s) << ((8 - s.len()) as u32), (8 - s.len()) as i32),
    decreases s.len(),
{
    if s.len() > 0 {
        let p = s.drop_last();
        assert forall|i: int| 0 <= i < p.len() implies crate::tile::is_ore(#[trigger] p[i]) by {
            assert(p[i] == s[i]);
        }
        lemma_feeding_fills_from_the_top(p);
        let k = (8 - s.len()) as u32;
        let v = byte_value(p);
        assert(crate::tile::is_ore(s.last()));
        lemma_shift_in_bit(v, k);
        assert(((k + 1) as u32) == (8 - p.len()) as u32);
    } else {
        assert((0u32 << 8u32) == 0u32) by (bit_vector);
    }
}

/// Eight ore bits fed into a fresh processor, most significant first, leave
/// it full and holding exactly the byte they spell, which is a `char` code;
/// that is the character the processor then emits.
pub proof fn lemma_eight_bits_make_a_byte(s: Seq<TileType>)
    requires
        s.len() == 8,
        forall|i: int| 0 <= i < s.len() ==> crate::tile::is_ore(#[trigger] s[i]),
    ensures
        fed_sequence(0, 8, s) == (byte_value(s), 0i32),
        byte_value(s) < 256,
        is_char_code(byte_value(s)),
        output_tile(fed_sequence(0, 8, s).0) == output_tile(byte_value(s)),
{
    lemma_feeding_fills_from_the_top(s);
    lemma_byte_value_bound(s);
    let v = byte_value(s);
    assert((v << 0u32) == v) by (bit_vector);
    assert((1u32 << 8u32) == 256u32) by (bit_vector);
}

impl Processor {
    /// A processor never waits for more than eight bits.
    pub open spec fn wf(&self) -> bool {
        0 <= self.count <= 8
    }

    /// Handles a thing that moved near the processor: if it is inside and the
    /// processor still wants bits, its bit is taken in; a full processor waits.
    pub fn on_movable(&mut self, inside: bool, tile_type: TileType) -> (r: ProcessorStep)
        requires
            old(self).wf(),
        ensures
            final(self).wf(),
            final(self).glyphs == old(self).glyphs,
            inside && old(self).count > 0 ==> {
                &&& r == ProcessorStep::Consumed
                &&& final(self).count == old(self).count - 1
                &&& final(self).bits == fed_bits(old(self).bits, (old(self).count - 1) as i32, tile_type)
            },
            !(inside && old(self).count > 0) ==> {
                &&& r == (if old(self).count == 0 {
                    ProcessorStep::Waiting
                } else {
                    ProcessorStep::Skipped
                })
                &&& final(self).count == old(self).count
                &&& final(self).bits == old(self).bits
            },
    {
        if inside && self.count > 0 {
            self.count = self.count - 1;
            let shift = self.count as u32;
            match tile_type {
                TileType::Binary0 => {
                    self.bits = self.bits & !(1u32 << shift);
                },
                TileType::Binary1 => {
                    self.bits = self.bits | (1u32 << shift);
                },
                _ => {},
            }
            ProcessorStep::Consumed
        } else if self.count == 0 {
            ProcessorStep::Waiting
        } else {
            ProcessorStep::Skipped
        }
    }

    /// Emits the character that the bits encode and starts over: the
    /// processor wants eight new bits and holds none. Returns the output tile
    /// to spawn, if the character is not a space.
    pub fn flush(&mut self) -> (r: Option<Tile>)
        ensures
            final(self).count == 8,
            final(self).bits == 0,
            final(self).glyphs == old(self).glyphs,
            r == output_tile(old(self).bits),
            33 <= old(self).bits <= 126 ==> r == Some(
                Tile { tile_type: TileType::Ascii, tile_glyph: old(self).bits as u16 },
            ),
    {
        let output = char_from_u32(self.bits).unwrap_or(' ');
        self.count = 8;
        self.bits = 0;
        if output != ' ' {
            Some(Tile { tile_type: TileType::Ascii, tile_glyph: to_cp437(output) })
        } else {
            None
        }
    }

    /// The cells to draw for this processor placed at `(x_pos, y_pos)`.
    pub fn glyph_cells(&self, x_pos: i32, y_pos: i32) -> (r: Vec<(i32, i32, FontCharType)>)
        requires
            self.glyphs@.len() >= 48,
            x_pos + 8 <= i32::MAX + 1,
            y_pos + 6 <= i32::MAX + 1,
        ensures
            r@ == sprite_cells_upto(self.glyphs@, 8, 6, 8, x_pos as int, y_pos as int),
    {
        sprite_cells(&self.glyphs, PROCESSOR_WIDTH, PROCESSOR_HEIGHT, x_pos, y_pos)
    }
}

impl Default for Processor {
    /// An empty processor waiting for eight bits, drawn as an 8 by 6 frame.
    fn default() -> (r: Processor)
        ensures
            r.bits == 0,
            r.count == 8,
            r.glyphs@.len() == 48,
            forall|i: int| 0 <= i < 48 ==> #[trigger] r.glyphs@[i] == frame_glyph(8, 6, i),
    {
        Processor { bits: 0, glyphs: frame_glyphs(8, 6), count: 8 }
    }
}

/// A miner: it digs the ore within its radius and produces output from it.
#[derive(Clone, Debug)]
pub struct Miner {
    pub radius: i32,
    /// The frame the miner is drawn with, row by row.
    pub glyphs: Vec<FontCharType>,
}

impl Miner {
    /// The cells to draw for this miner placed at `(x_pos, y_pos)`.
    pub fn glyph_cells(&self, x_pos: i32, y_pos: i32) -> (r: Vec<(i32, i32, FontCharType)>)
        requires
            self.glyphs@.len() >= 36,
            x_pos + 6 <= i32::MAX + 1,
            y_pos + 6 <= i32::MAX + 1,
        ensures
            r@ == sprite_cells_upto(self.glyphs@, 6, 6, 6, x_pos as int, y_pos as int),
    {
        sprite_cells(&self.glyphs, MINER_SIZE, MINER_SIZE, x_pos, y_pos)
    }
}

impl Default for Miner {
    /// A miner of radius 6, drawn as a 6 by 6 frame.
    fn default() -> (r: Miner)
        ensures
            r.radius == 6,
            r.glyphs@.len() == 36,
            forall|i: int| 0 <= i < 36 ==> #[trigger] r.glyphs@[i] == frame_glyph(6, 6, i),
    {
        Miner { radius: 6, glyphs: frame_glyphs(6, 6) }
    }
}

} // verus!
