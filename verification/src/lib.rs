//! Hexagram algebra for Chinese "I Ching" divination.
//!
//! The library models lines (yao), trigrams (gua8) and hexagrams (gua64),
//! the canonical 64-entry naming bijection, the line-change and nuclear
//! hexagram operators, and the casting algorithms that turn numbers, a
//! date, or six classified lines into a structured result with a
//! derivation trace.

pub mod yao;
pub mod gua8;
pub mod error;
pub mod ichang;
pub mod gua64;
pub mod decimal;
pub mod gua_result;
pub mod basic;
pub mod two_number;
pub mod time;
pub mod liu_yao;
pub mod ba_gua;
