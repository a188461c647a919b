//! Turn-based tile-trading game: a board of tiles that players buy, sell and build on,
//! with per-turn action limits, cash and material bookkeeping.

mod chance;
pub mod game;
pub mod laws;
pub mod map;
pub mod materials;
pub mod player;
pub mod text;

use vstd::prelude::*;

verus! {

} // verus!
