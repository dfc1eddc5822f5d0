use vstd::prelude::*;

verus! {

/// The areas of the board that cards can be positioned at. Each one is a
/// specific list of the current game state.
#[derive(Debug, Clone, Copy, PartialEq, Eq, Structural)]
pub enum AreaReference {
    PlayerHand,
    PlayerField,
    OpponentHand,
    OpponentField,
}

/// Names "the card at `index` of `area`" without holding on to that card.
/// It is resolved against the current game state on every use, and goes
/// stale when its area changes at or before its index.
#[derive(Debug, Clone, Copy, PartialEq, Eq, Structural)]
pub struct CardReference {
    pub area: AreaReference,
    pub index: usize,
}

} // verus!
