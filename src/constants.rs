use vstd::prelude::*;

verus! {

/// The width of a card, in pixels.
pub const CARD_WIDTH: i64 = 150;

/// The height of a card, in pixels.
pub const CARD_HEIGHT: i64 = 200;

/// The spacing between the centers of cards while they're in the hand.
pub const CARD_IN_HAND_SPACING: i64 = 100;

/// The spacing between the centers of cards while they're on the field.
pub const CARD_ON_FIELD_SPACING: i64 = 175;

/// How fast a card bounces back to its rest position: every millisecond it
/// covers `1 / BOUNCE_BACK_DIVISOR` of the remaining distance.
pub const BOUNCE_BACK_DIVISOR: i64 = 200;

/// The most cards that a player's field holds.
pub const FIELD_CAPACITY: usize = 7;

} // verus!
