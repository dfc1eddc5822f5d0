//! Board state of a two-player card game: zones of cards per player, a
//! (zone, index) addressing scheme, the layout of a zone on screen, and the
//! drag-and-drop protocol that moves a card from one zone to another.
//!
//! Screen coordinates are whole pixels held in `i64`; arithmetic on them
//! saturates at the ends of that range.

mod card_wrapper;
mod cards;
mod constants;
mod gamestate;
mod guarantees;
mod point;
mod utils;

pub use card_wrapper::{bounce_step, CardWrapper};
pub use cards::{
    BuffCard, Card, CardKind, CardPlayEffect, DamageSpellCard, GenericMinion, LightElemental,
    ResourceType, TargetType, TARGET_EVERYTHING, TARGET_OPPONENT, TARGET_OPPONENTMINION,
    TARGET_OWNMINION, TARGET_SELF,
};
pub use constants::{
    BOUNCE_BACK_DIVISOR, CARD_HEIGHT, CARD_IN_HAND_SPACING, CARD_ON_FIELD_SPACING, CARD_WIDTH,
    FIELD_CAPACITY,
};
pub use gamestate::{
    drag_result, field_y, first_right_of, flatten, get_card_drag_result, hand_y, holds_id, ids,
    ids_below, in_field_band, laid_out, slot_of, slot_x, topmost_hit, unique_ids,
    update_positions_of_list, AreaReference, CardReference, CombinedIterator, GameState, Player,
};
pub use guarantees::{
    lemma_capacity_enforced, lemma_layout_determinism, lemma_move_preserves_count,
    lemma_zone_exclusivity,
};
pub use point::{clamp_coord, Point};
pub use utils::VecUtils;
