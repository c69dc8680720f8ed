//! Miners: which ore lies under a miner, and which bits it digs out.
use vstd::prelude::*;
use rand::Rng;
use crate::map::{TileMap, TileMapView};
use crate::tile::{is_ore, type_glyph, Tile, TileType};

verus! {

/// The ore tiles of column `x`, rows `y0` up to but not including `y_end`,
/// top to bottom.
pub open spec fn ore_in_column(m: TileMapView, x: int, y0: int, y_end: int) -> Seq<Tile>
    decreases y_end - y0,
{
    if y_end <= y0 {
        Seq::empty()
    } else {
        let before = ore_in_column(m, x, y0, y_end - 1);
        let t = m.tile_at(x, y_end - 1);
        if is_ore(t.tile_type) {
            before.push(t)
        } else {
            before
        }
    }
}

/// The ore tiles of columns `x0` up to but not including `x_end` and rows `y0`
/// up to but not including `y_end`, column by column, each top to bottom.
pub open spec fn ore_in_rect(m: TileMapView, x0: int, x_end: int, y0: int, y_end: int) -> Seq<Tile>
    decreases x_end - x0,
{
    if x_end <= x0 {
        Seq::empty()
    } else {
        ore_in_rect(m, x0, x_end - 1, y0, y_end) + ore_in_column(m, x_end - 1, y0, y_end)
    }
}

/// What a miner produces from an ore tile: a movable bit of the same kind,
/// showing that kind's glyph, which a processor can take in.
pub open spec fn mined_from(t: Tile) -> Tile {
    Tile { tile_type: t.tile_type, tile_glyph: type_glyph(t.tile_type) }
}

/// Draws a number below `bound` with `rand::thread_rng().gen_range(0..bound)`.
///
/// Trusted: `gen_range` on a non-empty half-open range returns a value in that
/// range (it panics on an empty one, which `requires` rules out). Which value
/// comes out depends on the thread's random generator and is not stated.
#[verifier::external_body]
fn random_below(bound: usize) -> (r: usize)
    requires
        bound > 0,
    ensures
        r < bound,
{
    rand::thread_rng().gen_range(0..bound)
}

/// The output that a miner makes from the candidate it picked.
pub fn mined_tile(candidates: &Vec<Tile>, choice: usize) -> (r: Tile)
    requires
        choice < candidates@.len(),
    ensures
        r == mined_from(candidates@[choice as int]),
{
    let picked = candidates[choice];
    Tile::of_type(picked.tile_type)
}

proof fn lemma_column_is_ore(m: TileMapView, x: int, y0: int, y_end: int)
    ensures
        forall|i: int|
            0 <= i < ore_in_column(m, x, y0, y_end).len() ==> is_ore(
                #[trigger] ore_in_column(m, x, y0, y_end)[i].tile_type,
            ),
    decreases y_end - y0,
{
    if y_end > y0 {
        lemma_column_is_ore(m, x, y0, y_end - 1);
    }
}

/// Everything a miner can pick is ore, so what it produces is a bit: a
/// `Binary0` tile showing `0` or a `Binary1` tile showing `1`.
pub proof fn lemma_miners_output_bits(m: TileMapView, x0: int, x_end: int, y0: int, y_end: int, i: int)
    requires
        0 <= i < ore_in_rect(m, x0, x_end, y0, y_end).len(),
    ensures
        is_ore(ore_in_rect(m, x0, x_end, y0, y_end)[i].tile_type),
        mined_from(ore_in_rect(m, x0, x_end, y0, y_end)[i]) == (Tile {
            tile_type: TileType::Binary0,
            tile_glyph: 48,
        }) || mined_from(ore_in_rect(m, x0, x_end, y0, y_end)[i]) == (Tile {
            tile_type: TileType::Binary1,
            tile_glyph: 49,
        }),
    decreases x_end - x0,
{
    if x_end > x0 {
        let before = ore_in_rect(m, x0, x_end - 1, y0, y_end);
        if i < before.len() {
            lemma_miners_output_bits(m, x0, x_end - 1, y0, y_end, i);
        } else {
            lemma_column_is_ore(m, x_end - 1, y0, y_end);
            assert(ore_in_rect(m, x0, x_end, y0, y_end)[i] == ore_in_column(m, x_end - 1, y0, y_end)[i
                - before.len()]);
        }
    }
}

proof fn lemma_column_complete_sound(m: TileMapView, x: int, y0: int, y_end: int)
    ensures
        forall|y: int|
            y0 <= y < y_end && is_ore(m.tile_at(x, y).tile_type) ==> ore_in_column(
                m,
                x,
                y0,
                y_end,
            ).contains(#[trigger] m.tile_at(x, y)),
        forall|i: int|
            0 <= i < ore_in_column(m, x, y0, y_end).len() ==> exists|y: int|
                y0 <= y < y_end && is_ore(m.tile_at(x, y).tile_type) && #[trigger] ore_in_column(
                    m,
                    x,
                    y0,
                    y_end,
                )[i] == m.tile_at(x, y),
    decreases y_end - y0,
{
    if y_end > y0 {
        lemma_column_complete_sound(m, x, y0, y_end - 1);
        let before = ore_in_column(m, x, y0, y_end - 1);
        let col = ore_in_column(m, x, y0, y_end);
        let t = m.tile_at(x, y_end - 1);
        assert forall|y: int|
            y0 <= y < y_end && is_ore(m.tile_at(x, y).tile_type) implies col.contains(
            #[trigger] m.tile_at(x, y),
        ) by {
            if y == y_end - 1 {
                assert(col[col.len() - 1] == t);
            } else {
                let k = choose|k: int| 0 <= k < before.len() && before[k] == m.tile_at(x, y);
                assert(col[k] == before[k]);
            }
        }
        assert forall|i: int| 0 <= i < col.len() implies exists|y: int|
            y0 <= y < y_end && is_ore(m.tile_at(x, y).tile_type) && #[trigger] col[i] == m.tile_at(
                x,
                y,
            ) by {
            if i < before.len() {
                assert(col[i] == before[i]);
                let y = choose|y: int|
                    y0 <= y < y_end - 1 && is_ore(m.tile_at(x, y).tile_type) && before[i]
                        == m.tile_at(x, y);
                assert(y0 <= y < y_end && is_ore(m.tile_at(x, y).tile_type) && col[i] == m.tile_at(x, y));
            } else {
                assert(col[i] == t);
                assert(is_ore(m.tile_at(x, y_end - 1).tile_type) && col[i] == m.tile_at(x, y_end - 1));
            }
        }
    }
}

/// A miner's candidates are exactly the ore of its area: every ore tile at a
/// position of the rectangle `x_min..=x_max` by `y_min..=y_max` is among
/// them, and each of them is the ore tile of some position of the rectangle.
pub proof fn lemma_candidates_are_the_ore_of_the_area(
    m: TileMapView,
    x_min: int,
    x_max: int,
    y_min: int,
    y_max: int,
)
    ensures
        forall|x: int, y: int|
            x_min <= x <= x_max && y_min <= y <= y_max && is_ore(m.tile_at(x, y).tile_type)
                ==> ore_in_rect(m, x_min, x_max + 1, y_min, y_max + 1).contains(
                #[trigger] m.tile_at(x, y),
            ),
        forall|i: int|
            0 <= i < ore_in_rect(m, x_min, x_max + 1, y_min, y_max + 1).len() ==> exists|
                x: int,
                y: int,
            |
                x_min <= x <= x_max && y_min <= y <= y_max && is_ore(m.tile_at(x, y).tile_type)
                    && #[trigger] ore_in_rect(m, x_min, x_max + 1, y_min, y_max + 1)[i]
                    == m.tile_at(x, y),
    decreases x_max + 1 - x_min,
{
    if x_max + 1 > x_min {
        lemma_candidates_are_the_ore_of_the_area(m, x_min, x_max - 1, y_min, y_max);
        lemma_column_complete_sound(m, x_max, y_min, y_max + 1);
        let before = ore_in_rect(m, x_min, x_max, y_min, y_max + 1);
        let col = ore_in_column(m, x_max, y_min, y_max + 1);
        let rect = ore_in_rect(m, x_min, x_max + 1, y_min, y_max + 1);
        assert(rect == before + col);
        assert forall|x: int, y: int|
            x_min <= x <= x_max && y_min <= y <= y_max && is_ore(
                m.tile_at(x, y).tile_type,
            ) implies rect.contains(#[trigger] m.tile_at(x, y)) by {
            if x == x_max {
                let k = choose|k: int| 0 <= k < col.len() && col[k] == m.tile_at(x, y);
                assert(rect[before.len() + k] == col[k]);
            } else {
                let k = choose|k: int| 0 <= k < before.len() && before[k] == m.tile_at(x, y);
                assert(rect[k] == before[k]);
            }
        }
        assert forall|i: int| 0 <= i < rect.len() implies exists|x: int, y: int|
            x_min <= x <= x_max && y_min <= y <= y_max && is_ore(m.tile_at(x, y).tile_type)
                && #[trigger] rect[i] == m.tile_at(x, y) by {
            if i < before.len() {
                assert(rect[i] == before[i]);
                let (x, y) = choose|x: int, y: int|
                    x_min <= x <= x_max - 1 && y_min <= y <= y_max && is_ore(
                        m.tile_at(x, y).tile_type,
                    ) && before[i] == m.tile_at(x, y);
                assert(x_min <= x <= x_max && y_min <= y <= y_max && is_ore(m.tile_at(x, y).tile_type)
                    && rect[i] == m.tile_at(x, y));
            } else {
                let j = i - before.len();
                assert(rect[i] == col[j]);
                let y = choose|y: int|
                    y_min <= y < y_max + 1 && is_ore(m.tile_at(x_max, y).tile_type) && col[j]
                        == m.tile_at(x_max, y);
                assert(x_min <= x_max <= x_max && y_min <= y <= y_max && is_ore(
                    m.tile_at(x_max, y).tile_type,
                ) && rect[i] == m.tile_at(x_max, y));
            }
        }
    }
}

impl TileMap {
    /// The ore tiles in the rectangle of columns `x_min..=x_max` and rows
    /// `y_min..=y_max`, column by column, each top to bottom.
    pub fn minable_tiles(&self, x_min: i32, x_max: i32, y_min: i32, y_max: i32) -> (r: Vec<Tile>)
        requires
            self.wf(),
        ensures
            r@ == ore_in_rect(self@, x_min as int, x_max + 1, y_min as int, y_max + 1),
    {
        let mut tiles: Vec<Tile> = Vec::new();
        let mut x: i64 = x_min as i64;
        let x_end: i64 = x_max as i64 + 1;
        let y_end: i64 = y_max as i64 + 1;
        while x < x_end
            invariant
                self.wf(),
                x_min <= x,
                x_min <= x_end ==> x <= x_end,
                x_end <= x_min ==> x == x_min,
                x_end == x_max + 1,
                y_end == y_max + 1,
                tiles@ == ore_in_rect(self@, x_min as int, x as int, y_min as int, y_end as int),
            decreases x_end - x,
        {
            let ghost before = tiles@;
            let mut y: i64 = y_min as i64;
            while y < y_end
                invariant
                    self.wf(),
                    x_min <= x < x_end,
                    x_end == x_max + 1,
                    y_end == y_max + 1,
                    y_min <= y,
                    y_min <= y_end ==> y <= y_end,
                    y_end <= y_min ==> y == y_min,
                    tiles@ == before + ore_in_column(self@, x as int, y_min as int, y as int),
                decreases y_end - y,
            {
                let t = self.get_tile_at_pos(x as i32, y as i32);
                if t.tile_type == TileType::Binary0 || t.tile_type == TileType::Binary1 {
                    tiles.push(t);
                }
                proof {
                    assert(ore_in_column(self@, x as int, y_min as int, y + 1) == if is_ore(t.tile_type) {
                        ore_in_column(self@, x as int, y_min as int, y as int).push(t)
                    } else {
                        ore_in_column(self@, x as int, y_min as int, y as int)
                    });
                    if is_ore(t.tile_type) {
                        assert(tiles@ =~= before + ore_in_column(self@, x as int, y_min as int, y + 1));
                    }
                }
                y = y + 1;
            }
            proof {
                if y_end <= y_min {
                    assert(ore_in_column(self@, x as int, y_min as int, y as int) =~= Seq::<Tile>::empty());
                    assert(ore_in_column(self@, x as int, y_min as int, y_end as int) =~= Seq::<Tile>::empty());
                }
                assert(tiles@ =~= before + ore_in_column(self@, x as int, y_min as int, y_end as int));
                assert(ore_in_rect(self@, x_min as int, x + 1, y_min as int, y_end as int) == ore_in_rect(
                    self@,
                    x_min as int,
                    x as int,
                    y_min as int,
                    y_end as int,
                ) + ore_in_column(self@, x as int, y_min as int, y_end as int));
            }
            x = x + 1;
        }
        proof {
            if x_end <= x_min {
                assert(ore_in_rect(self@, x_min as int, x_end as int, y_min as int, y_end as int) =~= Seq::<
                    Tile,
                >::empty());
            }
        }
        tiles
    }

    /// What a miner whose area covers the given rectangle produces: `None` when
    /// there is no ore under it, otherwise the bit dug from one of the ore
    /// tiles there, picked at random.
    pub fn mine(&self, x_min: i32, x_max: i32, y_min: i32, y_max: i32) -> (r: Option<Tile>)
        requires
            self.wf(),
        ensures
            r is None <==> ore_in_rect(self@, x_min as int, x_max + 1, y_min as int, y_max + 1).len() == 0,
            r matches Some(t) ==> exists|i: int|
                0 <= i < ore_in_rect(self@, x_min as int, x_max + 1, y_min as int, y_max + 1).len()
                && t == mined_from(
                    #[trigger] ore_in_rect(self@, x_min as int, x_max + 1, y_min as int, y_max + 1)[i],
                ),
    {
        let tiles = self.minable_tiles(x_min, x_max, y_min, y_max);
        if tiles.len() > 0 {
            let choice = random_below(tiles.len());
            Some(mined_tile(&tiles, choice))
        } else {
            None
        }
    }
}

} // verus!
