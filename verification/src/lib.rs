use vstd::prelude::*;

pub mod game;
pub mod player;
pub mod render;

verus! {

/// Outcome codes reported by the engine layer.
#[derive(Debug, Clone, Copy, PartialEq, Eq, Structural)]
pub enum Rcode {
    Fail,
    Success,
    NoFile,
}

/// Marker for the per-game data that the engine carries for a game.
pub trait OlcData {}

} // verus!
