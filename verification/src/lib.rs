//! An arithmetization of the SHA-256 compression function over a 16-bit
//! spread lookup table: word decompositions, spread-domain boolean gates,
//! carry-tracked modular sums, and the fixed row layout that places one
//! 512-bit block's 64 rounds into a bounded-width cell table.

pub mod cells;
pub mod compression;
pub mod driver;
pub mod gates;
pub mod rows;
pub mod spread;
pub mod table;
pub mod util;
pub mod words;
