//! A falling-glyph terminal effect: the simulation of drops, their fading
//! trails and the grid they are painted on, with a companion maze explorer.

pub mod chance;
pub mod color;
pub mod palette;
pub mod raindrop;
pub mod pool;
pub mod ledger;
pub mod grid;
pub mod sim;
pub mod explorer;
