//! The verified core of an ASCII factory game: a tile map, conveyer belts,
//! miners that dig bits out of ore, and processors that assemble eight bits
//! into a character glyph.

pub mod glyph;
pub mod tile;
pub mod map;
pub mod conveyer;
pub mod mining;
pub mod machine;
