use vstd::prelude::*;

use crate::card_wrapper::CardWrapper;
use crate::cards::{CardKind, ResourceType};

verus! {

/// Holds information about a player: the player's deck and zones of cards.
pub struct Player {
    pub name: String,
    pub health: i32,
    pub resources: Vec<(ResourceType, u8)>,
    /// The cards that were in the deck when the game started. This does not
    /// change during a game.
    pub original_deck: Vec<CardKind>,
    /// The cards that have not been drawn from the deck yet.
    pub deck: Vec<CardKind>,
    /// The cards in the player's hand, left to right.
    pub hand: Vec<CardWrapper>,
    /// The cards on the player's side of the board, left to right.
    pub field: Vec<CardWrapper>,
    /// The cards in the graveyard.
    pub graveyard: Vec<CardWrapper>,
}

impl Player {
    /// Create a new player with the given name, 100 health and an empty
    /// deck.
    pub fn new(name: &str) -> (r: Player)
        ensures
            r.name@ == name@,
            r.health == 100,
            r.resources@.len() == 0,
            r.original_deck@.len() == 0,
            r.deck@.len() == 0,
            r.hand@.len() == 0,
            r.field@.len() == 0,
            r.graveyard@.len() == 0,
    {
        Player {
            name: name.to_string(),
            health: 100,
            resources: Vec::new(),
            original_deck: Vec::new(),
            deck: Vec::new(),
            hand: Vec::new(),
            field: Vec::new(),
            graveyard: Vec::new(),
        }
    }

    /// Clear the board state and refill the deck with copies of the
    /// original deck.
    pub fn reset_deck(&mut self)
        ensures
            final(self).hand@.len() == 0,
            final(self).field@.len() == 0,
            final(self).graveyard@.len() == 0,
            final(self).deck@.len() == old(self).original_deck@.len(),
            forall|i: int|
                0 <= i < final(self).deck@.len() ==> #[trigger] final(self).deck@[i].same_card(
                    old(self).original_deck@[i],
                ),
            final(self).original_deck == old(self).original_deck,
            final(self).name == old(self).name,
            final(self).health == old(self).health,
            final(self).resources == old(self).resources,
    {
        self.deck.clear();
        self.hand.clear();
        self.field.clear();
        self.graveyard.clear();
        let mut i: usize = 0;
        while i < self.original_deck.len()
            invariant
                i <= self.original_deck@.len(),
                self.deck@.len() == i,
                forall|k: int|
                    0 <= k < i ==> #[trigger] self.deck@[k].same_card(self.original_deck@[k]),
                self.original_deck == old(self).original_deck,
                self.hand@.len() == 0,
                self.field@.len() == 0,
                self.graveyard@.len() == 0,
                self.name == old(self).name,
                self.health == old(self).health,
                self.resources == old(self).resources,
            decreases self.original_deck@.len() - i,
        {
            let card = self.original_deck[i].clone_box();
            self.deck.push(card);
            i = i + 1;
        }
    }

    /// Draw the top card of the deck into the hand, as a new card instance
    /// with identity `id`.
    pub fn draw_card(&mut self, id: u64)
        requires
            old(self).deck@.len() > 0,
        ensures
            final(self).hand@ == old(self).hand@.push(CardWrapper::fresh(old(self).deck@[0], id)),
            final(self).deck@ == old(self).deck@.remove(0),
            final(self).field == old(self).field,
            final(self).graveyard == old(self).graveyard,
            final(self).original_deck == old(self).original_deck,
            final(self).name == old(self).name,
            final(self).health == old(self).health,
            final(self).resources == old(self).resources,
    {
        let card = self.deck.remove(0);
        self.hand.push(CardWrapper::new(card, id));
    }

    /// Draw the top card of the deck and put it straight on the field, as a
    /// new card instance with identity `id`.
    pub fn draw_and_play_card(&mut self, id: u64)
        requires
            old(self).deck@.len() > 0,
        ensures
            final(self).field@ == old(self).field@.push(CardWrapper::fresh(old(self).deck@[0], id)),
            final(self).deck@ == old(self).deck@.remove(0),
            final(self).hand == old(self).hand,
            final(self).graveyard == old(self).graveyard,
            final(self).original_deck == old(self).original_deck,
            final(self).name == old(self).name,
            final(self).health == old(self).health,
            final(self).resources == old(self).resources,
    {
        let card = self.deck.remove(0);
        self.field.push(CardWrapper::new(card, id));
    }
}

} // verus!
