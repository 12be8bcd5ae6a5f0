//! Record keeping for a rental marketplace: a counter that hands out item
//! identifiers and a table of item records keyed by them.

pub mod item;
pub mod market;
pub mod laws;
