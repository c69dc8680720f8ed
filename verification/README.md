# ascii_factory

The verified core of an ASCII factory game: ore on a tile map is dug by
miners into bits, conveyer belts carry them, and processors assemble eight
bits (most significant first) into a character.

- `src/` — the library, verified with Verus:
  `glyph` (code page 437 codes), `tile`, `map` (the tile map and its
  read/write laws), `conveyer` (belt directions, laying and turning belts),
  `mining` (which ore a miner can dig and what it produces), `machine`
  (processors, miners and their frames).
- Glyph codes come from `bracket-terminal`'s code page 437 table
  (`to_cp437`), the table of the bracket-lib terminal crates; it is the
  one crate of that family with this table that the registry offers.
- `tests/` — tests of the library on concrete values.
- `app/` — the bevy game around it: input, rendering, timers, the
  floating-point geometry of entities and the noise-based map generation.
