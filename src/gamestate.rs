use vstd::prelude::*;

mod identity;
mod iter;
mod layout;
mod player;
mod positioning;
mod rules;

pub use self::identity::{holds_id, ids, ids_below, slot_of, unique_ids};
pub use self::iter::{flatten, CombinedIterator};
pub use self::layout::{field_y, hand_y, laid_out, slot_x, update_positions_of_list};
pub use self::player::Player;
pub use self::positioning::{AreaReference, CardReference};
pub use self::rules::{drag_result, first_right_of, get_card_drag_result, in_field_band, topmost_hit};

use self::identity::{
    lemma_ids_insert, lemma_ids_remove, lemma_ids_update, lemma_insert_unique, lemma_remove_unique,
};
use self::layout::{floor_half, lemma_ids_laid_out};
use self::rules::{get_card_index, is_in_field_band, lemma_topmost_hit_in_range, topmost_card_at};
use crate::card_wrapper::CardWrapper;
use crate::cards::{Card, CardPlayEffect};
use crate::constants::{CARD_HEIGHT, CARD_IN_HAND_SPACING, CARD_ON_FIELD_SPACING, FIELD_CAPACITY};
use crate::point::Point;
use crate::utils::VecUtils;

verus! {

/// Advance every card of `list` by `delta_millis` milliseconds.
fn update_list(list: &mut Vec<CardWrapper>, delta_millis: u64)
    ensures
        final(list)@ == old(list)@.map_values(|c: CardWrapper| c.bounced(delta_millis)),
{
    let n = list.len();
    let mut k: usize = 0;
    while k < n
        invariant
            n == old(list)@.len(),
            list@.len() == n,
            k <= n,
            forall|i: int| 0 <= i < k ==> #[trigger] list@[i] == old(list)@[i].bounced(delta_millis),
            forall|i: int| k <= i < n ==> #[trigger] list@[i] == old(list)@[i],
        decreases n - k,
    {
        list[k].update(delta_millis);
        k = k + 1;
    }
    proof {
        assert(list@ =~= old(list)@.map_values(|c: CardWrapper| c.bounced(delta_millis)));
    }
}

proof fn lemma_ids_bounced(list: Seq<CardWrapper>, delta_millis: u64)
    ensures
        ids(list.map_values(|c: CardWrapper| c.bounced(delta_millis))) == ids(list),
{
    assert(ids(list.map_values(|c: CardWrapper| c.bounced(delta_millis))) =~= ids(list));
}

/// The state of the current game: both players, and the card that the
/// player is dragging, if any.
pub struct GameState {
    /// The current player.
    pub player: Player,
    /// The player's opponent.
    pub opponent: Player,
    /// The card that the player is dragging, if any.
    pub dragging_card: Option<CardReference>,
    /// The identity that the next card drawn gets.
    pub next_card_id: u64,
}

impl GameState {
    /// The list of cards that `area` names.
    pub open spec fn zone_vec(self, area: AreaReference) -> Vec<CardWrapper> {
        match area {
            AreaReference::PlayerHand => self.player.hand,
            AreaReference::PlayerField => self.player.field,
            AreaReference::OpponentHand => self.opponent.hand,
            AreaReference::OpponentField => self.opponent.field,
        }
    }

    /// The cards of `area`, left to right.
    pub open spec fn zone(self, area: AreaReference) -> Seq<CardWrapper> {
        self.zone_vec(area)@
    }

    /// The card that `reference` names, if there is one.
    pub open spec fn resolve(self, reference: CardReference) -> Option<CardWrapper> {
        if reference.index < self.zone(reference.area).len() {
            Some(self.zone(reference.area)[reference.index as int])
        } else {
            None
        }
    }

    /// The identities of the cards of all zones that hold card instances:
    /// hand, field and graveyard of the player, then of the opponent.
    pub open spec fn id_zones(self) -> Seq<Seq<u64>> {
        seq![
            ids(self.player.hand@),
            ids(self.player.field@),
            ids(self.player.graveyard@),
            ids(self.opponent.hand@),
            ids(self.opponent.field@),
            ids(self.opponent.graveyard@),
        ]
    }

    /// The game is well formed: no card identity occurs twice, and every
    /// identity was handed out before `next_card_id`.
    pub open spec fn wf(self) -> bool {
        &&& unique_ids(self.id_zones())
        &&& ids_below(self.id_zones(), self.next_card_id)
    }

    /// Everything but the four addressable zones and the dragged card is the
    /// same in both states.
    pub open spec fn same_apart_from_zones(self, other: GameState) -> bool {
        &&& self.next_card_id == other.next_card_id
        &&& self.player.name == other.player.name
        &&& self.player.health == other.player.health
        &&& self.player.resources == other.player.resources
        &&& self.player.original_deck == other.player.original_deck
        &&& self.player.deck == other.player.deck
        &&& self.player.graveyard == other.player.graveyard
        &&& self.opponent.name == other.opponent.name
        &&& self.opponent.health == other.opponent.health
        &&& self.opponent.resources == other.opponent.resources
        &&& self.opponent.original_deck == other.opponent.original_deck
        &&& self.opponent.deck == other.opponent.deck
        &&& self.opponent.graveyard == other.opponent.graveyard
    }

    /// The two states differ at most in zone `area`.
    pub open spec fn same_but_zone(self, other: GameState, area: AreaReference) -> bool {
        &&& self.same_apart_from_zones(other)
        &&& self.dragging_card == other.dragging_card
        &&& self.other_zones_same(other, area)
    }

    /// The two states have the same zones, but maybe `area`.
    pub open spec fn other_zones_same(self, other: GameState, area: AreaReference) -> bool {
        forall|a: AreaReference| a != area ==> #[trigger] self.zone_vec(a) == other.zone_vec(a)
    }

    /// The two states have the same zones.
    pub open spec fn zones_same(self, other: GameState) -> bool {
        forall|a: AreaReference| #[trigger] self.zone_vec(a) == other.zone_vec(a)
    }

    /// The card under `p` that a press there is about: the topmost card of
    /// the hand under `p`, else the topmost card of the field under `p`.
    pub open spec fn press_target(self, p: Point) -> Option<CardReference> {
        let hand = self.zone(AreaReference::PlayerHand);
        let field = self.zone(AreaReference::PlayerField);
        match topmost_hit(hand, p, hand.len() as int) {
            Some(k) => Some(CardReference { area: AreaReference::PlayerHand, index: k as usize }),
            None => match topmost_hit(field, p, field.len() as int) {
                Some(k) => Some(CardReference { area: AreaReference::PlayerField, index: k as usize }),
                None => None,
            },
        }
    }

    /// A press at `p` starts a drag: the card that it is about can be
    /// summoned from where it lies.
    pub open spec fn press_starts_drag(self, p: Point) -> bool {
        match self.press_target(p) {
            Some(r) => drag_result(self.resolve(r).unwrap().card.spec_effects(), r.area, 0) == Some(
                CardPlayEffect::SummonMinion,
            ),
            None => false,
        }
    }

    /// The dragged card, if the reference to it still resolves.
    pub open spec fn dragged(self) -> Option<CardReference> {
        match self.dragging_card {
            Some(r) => if self.resolve(r) is Some {
                Some(r)
            } else {
                None
            },
            None => None,
        }
    }

    /// Where a release on a screen of `screen` size moves the dragged card:
    /// a card of the hand, dropped in the field's band while the field is
    /// below capacity, goes to the field before the first card whose rest
    /// position lies right of the drop point. `None` if nothing moves.
    pub open spec fn drop_target(self, screen: Point) -> Option<CardReference> {
        match self.dragged() {
            Some(r) => {
                let c = self.resolve(r).unwrap();
                let field = self.zone(AreaReference::PlayerField);
                if r.area == AreaReference::PlayerHand && field.len() < FIELD_CAPACITY
                    && in_field_band(c.current_position.y as int, screen.y as int) {
                    Some(
                        CardReference {
                            area: AreaReference::PlayerField,
                            index: first_right_of(field, c.current_position.x as int, 0) as usize,
                        },
                    )
                } else {
                    None
                }
            },
            None => None,
        }
    }

    /// The cards of `area` after a release on a screen of `screen` size.
    /// The dragged card stops being dragged. When it moves (see
    /// `drop_target`), it leaves the hand and enters the field, and both are
    /// laid out anew; otherwise it stays in its zone, where it was dropped.
    pub open spec fn released_zone(self, screen: Point, area: AreaReference) -> Seq<CardWrapper> {
        match self.dragged() {
            None => self.zone(area),
            Some(r) => {
                let c = self.resolve(r).unwrap().with_dragging(false);
                match self.drop_target(screen) {
                    Some(t) => match area {
                        AreaReference::PlayerHand => GameState::hand_laid_out(
                            self.zone(AreaReference::PlayerHand).remove(r.index as int),
                            screen,
                        ),
                        AreaReference::PlayerField => GameState::field_laid_out(
                            self.zone(AreaReference::PlayerField).insert(t.index as int, c),
                            screen,
                        ),
                        _ => self.zone(area),
                    },
                    None => if area == r.area {
                        self.zone(area).update(r.index as int, c)
                    } else {
                        self.zone(area)
                    },
                }
            },
        }
    }

    /// The hand of `self` after a layout on a screen of `screen` size.
    pub open spec fn hand_laid_out(hand: Seq<CardWrapper>, screen: Point) -> Seq<CardWrapper> {
        laid_out(hand, hand_y(screen.y), CARD_IN_HAND_SPACING, screen.x)
    }

    /// The field of `self` after a layout on a screen of `screen` size.
    pub open spec fn field_laid_out(field: Seq<CardWrapper>, screen: Point) -> Seq<CardWrapper> {
        laid_out(field, field_y(screen.y), CARD_ON_FIELD_SPACING, screen.x)
    }

    /// Create a game between `player` and `opponent`, with no card being
    /// dragged.
    pub fn new(player: Player, opponent: Player) -> (r: GameState)
        ensures
            r.player == player,
            r.opponent == opponent,
            r.dragging_card is None,
            r.next_card_id == 0,
            player.hand@.len() == 0 && player.field@.len() == 0 && player.graveyard@.len() == 0
                && opponent.hand@.len() == 0 && opponent.field@.len() == 0
                && opponent.graveyard@.len() == 0 ==> r.wf(),
    {
        GameState { player, opponent, dragging_card: None, next_card_id: 0 }
    }

    /// All zones that hold card instances: hand, field and graveyard of the
    /// player, then of the opponent.
    pub open spec fn card_zones(self) -> Seq<Seq<CardWrapper>> {
        seq![
            self.player.hand@,
            self.player.field@,
            self.player.graveyard@,
            self.opponent.hand@,
            self.opponent.field@,
            self.opponent.graveyard@,
        ]
    }

    /// Draw the top card of the player's deck into the player's hand, as a
    /// new card instance with an identity that no card had before.
    pub fn draw_card(&mut self)
        requires
            old(self).player.deck@.len() > 0,
            old(self).next_card_id < u64::MAX,
        ensures
            final(self).player.hand@ == old(self).player.hand@.push(
                CardWrapper::fresh(old(self).player.deck@[0], old(self).next_card_id),
            ),
            final(self).player.deck@ == old(self).player.deck@.remove(0),
            final(self).next_card_id == old(self).next_card_id + 1,
            final(self).player.field == old(self).player.field,
            final(self).player.graveyard == old(self).player.graveyard,
            final(self).player.original_deck == old(self).player.original_deck,
            final(self).player.name == old(self).player.name,
            final(self).player.health == old(self).player.health,
            final(self).player.resources == old(self).player.resources,
            final(self).opponent == old(self).opponent,
            final(self).dragging_card == old(self).dragging_card,
            old(self).wf() ==> final(self).wf(),
    {
        let id = self.next_card_id;
        self.player.draw_card(id);
        self.next_card_id = id + 1;
        proof {
            let zs = old(self).id_zones();
            let hand = old(self).player.hand@;
            lemma_ids_insert(hand, hand.len() as int, self.player.hand@.last());
            assert(hand.insert(hand.len() as int, self.player.hand@.last()) =~= self.player.hand@);
            assert(self.id_zones() =~= zs.update(0, zs[0].insert(hand.len() as int, id)));
            if old(self).wf() {
                lemma_insert_unique(zs, 0, hand.len() as int, id);
                assert forall|a: int, i: int| 0 <= a < zs.len() && 0 <= i < zs[a].len() implies #[trigger] zs[a][i]
                    < self.next_card_id by {}
                assert(ids_below(zs, self.next_card_id));
                if holds_id(zs, id) {
                    let (a, i) = choose|a: int, i: int|
                        0 <= a < zs.len() && 0 <= i < zs[a].len() && #[trigger] zs[a][i] == id;
                    assert(zs[a][i] < id);
                }
            }
        }
    }

    /// The list of cards that `area` names, to change in place.
    fn zone_mut(&mut self, area: AreaReference) -> (r: &mut Vec<CardWrapper>)
        ensures
            *r == old(self).zone_vec(area),
            final(self).zone_vec(area) == *final(r),
            final(self).same_but_zone(*old(self), area),
    {
        match area {
            AreaReference::PlayerHand => &mut self.player.hand,
            AreaReference::PlayerField => &mut self.player.field,
            AreaReference::OpponentHand => &mut self.opponent.hand,
            AreaReference::OpponentField => &mut self.opponent.field,
        }
    }

    /// Get the card that `reference` names; `None` if its index is out of
    /// range of its list.
    pub fn get_card(&self, reference: &CardReference) -> (r: Option<&CardWrapper>)
        ensures
            r is Some <==> self.resolve(*reference) is Some,
            r is Some ==> *r.unwrap() == self.resolve(*reference).unwrap(),
    {
        let zone = match reference.area {
            AreaReference::PlayerHand => &self.player.hand,
            AreaReference::PlayerField => &self.player.field,
            AreaReference::OpponentHand => &self.opponent.hand,
            AreaReference::OpponentField => &self.opponent.field,
        };
        if reference.index < zone.len() {
            Some(&zone[reference.index])
        } else {
            None
        }
    }

    /// Get the card that `reference` names, to change in place; `None` if
    /// its index is out of range of its list.
    pub fn get_card_mut(&mut self, reference: &CardReference) -> (r: Option<&mut CardWrapper>)
        ensures
            r is Some <==> old(self).resolve(*reference) is Some,
            match r {
                Some(c) => {
                    &&& *c == old(self).resolve(*reference).unwrap()
                    &&& final(self).zone(reference.area) == old(self).zone(reference.area).update(
                        reference.index as int,
                        *final(c),
                    )
                    &&& final(self).same_but_zone(*old(self), reference.area)
                },
                None => *final(self) == *old(self),
            },
    {
        if reference.index < self.zone_mut_len(reference.area) {
            let zone = self.zone_mut(reference.area);
            Some(&mut zone[reference.index])
        } else {
            None
        }
    }

    /// The number of cards in `area`.
    fn zone_mut_len(&self, area: AreaReference) -> (r: usize)
        ensures
            r == self.zone(area).len(),
    {
        match area {
            AreaReference::PlayerHand => self.player.hand.len(),
            AreaReference::PlayerField => self.player.field.len(),
            AreaReference::OpponentHand => self.opponent.hand.len(),
            AreaReference::OpponentField => self.opponent.field.len(),
        }
    }

    /// When only zone `area` changed, the identities changed only there.
    proof fn lemma_id_zones_changed(self, old: GameState, area: AreaReference)
        requires
            self.same_but_zone(old, area),
        ensures
            self.id_zones() == old.id_zones().update(slot_of(area), ids(self.zone(area))),
            old.id_zones()[slot_of(area)] == ids(old.zone(area)),
    {
        assert(self.zone_vec(AreaReference::PlayerHand) == old.zone_vec(AreaReference::PlayerHand)
            || area == AreaReference::PlayerHand);
        assert(self.zone_vec(AreaReference::PlayerField) == old.zone_vec(AreaReference::PlayerField)
            || area == AreaReference::PlayerField);
        assert(self.zone_vec(AreaReference::OpponentHand) == old.zone_vec(AreaReference::OpponentHand)
            || area == AreaReference::OpponentHand);
        assert(self.zone_vec(AreaReference::OpponentField) == old.zone_vec(
            AreaReference::OpponentField,
        ) || area == AreaReference::OpponentField);
        assert(self.id_zones() =~= old.id_zones().update(slot_of(area), ids(self.zone(area))));
    }

    /// Remove the card that `reference` names, shifting the cards after it
    /// down by one; `None` if its index is out of range of its list.
    pub fn take_card_at(&mut self, reference: &CardReference) -> (r: Option<CardWrapper>)
        ensures
            r == old(self).resolve(*reference),
            r is Some ==> final(self).zone(reference.area) == old(self).zone(reference.area).remove(
                reference.index as int,
            ),
            r is None ==> final(self).zone(reference.area) == old(self).zone(reference.area),
            final(self).same_but_zone(*old(self), reference.area),
            old(self).wf() ==> final(self).wf(),
            r is Some && old(self).wf() ==> !holds_id(final(self).id_zones(), r.unwrap().id)
                && r.unwrap().id < final(self).next_card_id,
    {
        let zone = self.zone_mut(reference.area);
        let r = VecUtils::try_remove(zone, reference.index);
        proof {
            self.lemma_id_zones_changed(*old(self), reference.area);
            if r is Some {
                lemma_ids_remove(old(self).zone(reference.area), reference.index as int);
                if old(self).wf() {
                    lemma_remove_unique(
                        old(self).id_zones(),
                        slot_of(reference.area),
                        reference.index as int,
                    );
                    assert(old(self).id_zones()[slot_of(reference.area)][reference.index as int]
                        == r.unwrap().id);
                }
            } else {
                assert(self.id_zones() =~= old(self).id_zones());
            }
        }
        r
    }

    /// Insert `cardwrapper` at the place that `reference` names: before the
    /// card there, or at the end when the index equals the list's length.
    /// A larger index changes nothing and returns false.
    pub fn insert_card_at(&mut self, cardwrapper: CardWrapper, reference: &CardReference) -> (r:
        bool)
        ensures
            r == (reference.index <= old(self).zone(reference.area).len()),
            r ==> final(self).zone(reference.area) == old(self).zone(reference.area).insert(
                reference.index as int,
                cardwrapper,
            ),
            !r ==> final(self).zone(reference.area) == old(self).zone(reference.area),
            final(self).same_but_zone(*old(self), reference.area),
            old(self).wf() && !holds_id(old(self).id_zones(), cardwrapper.id) && cardwrapper.id
                < old(self).next_card_id ==> final(self).wf(),
    {
        let ghost id = cardwrapper.id;
        let zone = self.zone_mut(reference.area);
        let r = VecUtils::push_or_insert(zone, reference.index, cardwrapper);
        proof {
            self.lemma_id_zones_changed(*old(self), reference.area);
            if r {
                lemma_ids_insert(old(self).zone(reference.area), reference.index as int, cardwrapper);
                if old(self).wf() && !holds_id(old(self).id_zones(), id) && id
                    < old(self).next_card_id {
                    lemma_insert_unique(
                        old(self).id_zones(),
                        slot_of(reference.area),
                        reference.index as int,
                        id,
                    );
                }
            } else {
                assert(self.id_zones() =~= old(self).id_zones());
            }
        }
        r
    }

    /// Lay out the hand and the field anew on a screen of `screen_size`: to
    /// be called after a resize or after a card moved.
    pub fn update_card_origins(&mut self, screen_size: &Point)
        ensures
            final(self).zone(AreaReference::PlayerHand) == GameState::hand_laid_out(
                old(self).zone(AreaReference::PlayerHand),
                *screen_size,
            ),
            final(self).zone(AreaReference::PlayerField) == GameState::field_laid_out(
                old(self).zone(AreaReference::PlayerField),
                *screen_size,
            ),
            final(self).zone_vec(AreaReference::OpponentHand) == old(self).zone_vec(
                AreaReference::OpponentHand,
            ),
            final(self).zone_vec(AreaReference::OpponentField) == old(self).zone_vec(
                AreaReference::OpponentField,
            ),
            final(self).same_apart_from_zones(*old(self)),
            final(self).dragging_card == old(self).dragging_card,
            final(self).id_zones() == old(self).id_zones(),
            old(self).wf() ==> final(self).wf(),
    {
        let hand_y = if screen_size.y >= i64::MIN + CARD_HEIGHT / 2 {
            screen_size.y - CARD_HEIGHT / 2
        } else {
            i64::MIN
        };
        let field_y = floor_half(screen_size.y as i128 + CARD_HEIGHT as i128) as i64;
        update_positions_of_list(&mut self.player.hand, hand_y, CARD_IN_HAND_SPACING, screen_size);
        update_positions_of_list(&mut self.player.field, field_y, CARD_ON_FIELD_SPACING, screen_size);
        proof {
            lemma_ids_laid_out(old(self).player.hand@, hand_y, CARD_IN_HAND_SPACING, screen_size.x);
            lemma_ids_laid_out(old(self).player.field@, field_y, CARD_ON_FIELD_SPACING, screen_size.x);
            assert(self.id_zones() =~= old(self).id_zones());
        }
    }

    /// Move the mouse to `mouse_position`: a card being dragged follows it.
    pub fn mouse_moved_to(&mut self, mouse_position: &Point)
        ensures
            match old(self).dragged() {
                Some(r) => {
                    &&& final(self).zone(r.area) == old(self).zone(r.area).update(
                        r.index as int,
                        old(self).resolve(r).unwrap().moved_to(*mouse_position),
                    )
                    &&& final(self).same_but_zone(*old(self), r.area)
                },
                None => *final(self) == *old(self),
            },
            final(self).id_zones() == old(self).id_zones(),
            old(self).wf() ==> final(self).wf(),
    {
        if let Some(reference) = self.dragging_card {
            if let Some(cardwrapper) = self.get_card_mut(&reference) {
                cardwrapper.mouse_moved(mouse_position);
                proof {
                    self.lemma_id_zones_changed(*old(self), reference.area);
                    lemma_ids_update(
                        old(self).zone(reference.area),
                        reference.index as int,
                        old(self).resolve(reference).unwrap().moved_to(*mouse_position),
                    );
                    assert(self.id_zones() =~= old(self).id_zones());
                }
            }
        }
    }

    /// The card that a press at `mouse_position` is about.
    fn hit_test(&self, mouse_position: &Point) -> (r: Option<CardReference>)
        ensures
            r == self.press_target(*mouse_position),
            r matches Some(r) ==> self.resolve(r) is Some,
    {
        proof {
            lemma_topmost_hit_in_range(self.player.hand@, *mouse_position, self.player.hand@.len() as int);
            lemma_topmost_hit_in_range(self.player.field@, *mouse_position, self.player.field@.len() as int);
        }
        match topmost_card_at(&self.player.hand, mouse_position) {
            Some(k) => Some(CardReference { area: AreaReference::PlayerHand, index: k }),
            None => match topmost_card_at(&self.player.field, mouse_position) {
                Some(k) => Some(CardReference { area: AreaReference::PlayerField, index: k }),
                None => None,
            },
        }
    }

    /// Press the mouse at `mouse_position`. The press is about the topmost
    /// card of the hand under the mouse, else the topmost card of the
    /// field; if that card can be summoned from where it lies, it starts to
    /// be dragged and follows the mouse on later `mouse_moved_to` calls.
    /// A card that needs a target instead starts no drag.
    pub fn mouse_pressed_at(&mut self, mouse_position: &Point)
        ensures
            old(self).press_starts_drag(*mouse_position) ==> {
                let r = old(self).press_target(*mouse_position).unwrap();
                &&& final(self).dragging_card == Some(r)
                &&& final(self).zone(r.area) == old(self).zone(r.area).update(
                    r.index as int,
                    old(self).resolve(r).unwrap().started_drag(*mouse_position),
                )
                &&& final(self).other_zones_same(*old(self), r.area)
                &&& final(self).same_apart_from_zones(*old(self))
            },
            !old(self).press_starts_drag(*mouse_position) ==> *final(self) == *old(self),
            final(self).id_zones() == old(self).id_zones(),
            old(self).wf() ==> final(self).wf(),
    {
        if let Some(reference) = self.hit_test(mouse_position) {
            let effect = match self.get_card(&reference) {
                Some(card) => get_card_drag_result(card, &reference.area),
                None => None,
            };
            if let Some(CardPlayEffect::SummonMinion) = effect {
                if let Some(cardwrapper) = self.get_card_mut(&reference) {
                    cardwrapper.drag_start(mouse_position);
                    proof {
                        self.lemma_id_zones_changed(*old(self), reference.area);
                        lemma_ids_update(
                            old(self).zone(reference.area),
                            reference.index as int,
                            old(self).resolve(reference).unwrap().started_drag(*mouse_position),
                        );
                        assert(self.id_zones() =~= old(self).id_zones());
                    }
                }
                let ghost mid = *self;
                self.dragging_card = Some(reference);
                proof {
                    assert forall|a: AreaReference| #[trigger] self.zone_vec(a) == mid.zone_vec(a) by {}
                }
            }
        }
    }

    /// The place where a card dropped at `point`, on a screen of
    /// `screen_size`, goes: in the field's band, the field before the first
    /// card whose rest position lies right of `point`. `None` elsewhere.
    fn get_area_from_point(&self, point: &Point, screen_size: &Point) -> (r: Option<CardReference>)
        ensures
            r == if in_field_band(point.y as int, screen_size.y as int) {
                Some(
                    CardReference {
                        area: AreaReference::PlayerField,
                        index: first_right_of(self.player.field@, point.x as int, 0) as usize,
                    },
                )
            } else {
                None
            },
            r matches Some(t) ==> t.index <= self.player.field@.len(),
    {
        if is_in_field_band(point.y, screen_size.y) {
            Some(
                CardReference {
                    area: AreaReference::PlayerField,
                    index: get_card_index(&self.player.field, point.x),
                },
            )
        } else {
            None
        }
    }

    /// Whether the player can play another card onto the field: the field
    /// is below its capacity.
    fn can_play_card_from_hand(&self) -> (r: bool)
        ensures
            r == (self.player.field@.len() < FIELD_CAPACITY),
    {
        self.player.field.len() < FIELD_CAPACITY
    }

    /// Move the card at `start_position` to `target_position`, in another
    /// zone, where the card goes before the card there or, at the end of
    /// the zone, after the last one.
    fn play_card_from_hand(&mut self, start_position: &CardReference, target_position: &CardReference)
        requires
            start_position.area != target_position.area,
            old(self).resolve(*start_position) is Some,
            target_position.index <= old(self).zone(target_position.area).len(),
        ensures
            final(self).zone(start_position.area) == old(self).zone(start_position.area).remove(
                start_position.index as int,
            ),
            final(self).zone(target_position.area) == old(self).zone(target_position.area).insert(
                target_position.index as int,
                old(self).resolve(*start_position).unwrap(),
            ),
            forall|a: AreaReference|
                a != start_position.area && a != target_position.area ==> #[trigger] final(self).zone_vec(a) == old(self).zone_vec(a),
            final(self).same_apart_from_zones(*old(self)),
            final(self).dragging_card == old(self).dragging_card,
            old(self).wf() ==> final(self).wf(),
    {
        if let Some(cardwrapper) = self.take_card_at(start_position) {
            let ghost mid = *self;
            let inserted = self.insert_card_at(cardwrapper, target_position);
            proof {
                assert(mid.zone_vec(target_position.area) == old(self).zone_vec(target_position.area));
                assert(inserted);
                assert forall|a: AreaReference|
                    a != start_position.area && a != target_position.area implies #[trigger] self.zone_vec(
                        a,
                    ) == old(self).zone_vec(a) by {
                    assert(mid.zone_vec(a) == old(self).zone_vec(a));
                }
                assert(self.zone_vec(start_position.area) == mid.zone_vec(start_position.area));
            }
        }
    }

    /// Release the mouse on a screen of `screen_size`. A card being dragged
    /// stops being dragged; if it came from the hand and is dropped in the
    /// field's band while the field is below capacity, it moves to the field
    /// (see `drop_target`) and the hand and the field are laid out anew.
    /// Otherwise it stays where it was dropped, in its zone.
    pub fn mouse_released(&mut self, screen_size: &Point)
        ensures
            final(self).dragging_card is None,
            final(self).same_apart_from_zones(*old(self)),
            old(self).wf() ==> final(self).wf(),
            forall|a: AreaReference| #[trigger] final(self).zone(a) == old(self).released_zone(
                *screen_size,
                a,
            ),
    {
        if let Some(reference) = self.dragging_card {
            self.dragging_card = None;
            let ghost cleared = *self;
            let mut position: Option<Point> = None;
            if let Some(cardwrapper) = self.get_card_mut(&reference) {
                cardwrapper.dragging = false;
                position = Some(cardwrapper.current_position);
            }
            proof {
                if position is Some {
                    self.lemma_id_zones_changed(cleared, reference.area);
                    lemma_ids_update(
                        old(self).zone(reference.area),
                        reference.index as int,
                        old(self).resolve(reference).unwrap().with_dragging(false),
                    );
                    assert(self.id_zones() =~= old(self).id_zones());
                    assert forall|a: AreaReference| a != reference.area implies #[trigger] self.zone_vec(a)
                        == old(self).zone_vec(a) by {
                        assert(cleared.zone_vec(a) == old(self).zone_vec(a));
                    }
                } else {
                    assert forall|a: AreaReference| #[trigger] self.zone_vec(a) == old(self).zone_vec(
                        a,
                    ) by {
                        assert(cleared.zone_vec(a) == old(self).zone_vec(a));
                    }
                }
            }
            let mut target: Option<CardReference> = None;
            if let Some(position) = position {
                if self.can_play_card_from_hand() {
                    if let Some(t) = self.get_area_from_point(&position, screen_size) {
                        if reference.area == AreaReference::PlayerHand && t.area
                            == AreaReference::PlayerField {
                            target = Some(t);
                        }
                    }
                }
            }
            proof {
                if position is Some {
                    assert(old(self).dragged() == Some(reference));
                    assert(position == Some(old(self).resolve(reference).unwrap().current_position));
                    if reference.area == AreaReference::PlayerHand {
                        assert(self.zone_vec(AreaReference::PlayerField) == old(self).zone_vec(
                            AreaReference::PlayerField,
                        ));
                    }
                }
                assert(target == old(self).drop_target(*screen_size));
            }
            if let Some(target) = target {
                let ghost before_move = *self;
                self.play_card_from_hand(&reference, &target);
                let ghost moved = *self;
                self.update_card_origins(screen_size);
                proof {
                    assert(moved.zone_vec(AreaReference::OpponentHand) == before_move.zone_vec(
                        AreaReference::OpponentHand,
                    ));
                    assert(moved.zone_vec(AreaReference::OpponentField) == before_move.zone_vec(
                        AreaReference::OpponentField,
                    ));
                    assert(old(self).wf() ==> moved.wf());
                    assert(self.id_zones() == moved.id_zones());
                    assert(before_move.zone(AreaReference::PlayerHand).remove(reference.index as int)
                        =~= old(self).zone(AreaReference::PlayerHand).remove(reference.index as int));
                    assert(before_move.zone(AreaReference::PlayerField) == old(self).zone(
                        AreaReference::PlayerField,
                    ));
                }
            }
        }
    }

    /// Advance the cards of the four zones by `delta_millis` milliseconds,
    /// once per tick: each card that is not being dragged moves toward its
    /// rest position.
    pub fn update_cards(&mut self, delta_millis: u64)
        ensures
            forall|a: AreaReference| #[trigger] final(self).zone(a) == old(self).zone(a).map_values(
                |c: CardWrapper| c.bounced(delta_millis),
            ),
            final(self).same_apart_from_zones(*old(self)),
            final(self).dragging_card == old(self).dragging_card,
            final(self).id_zones() == old(self).id_zones(),
            old(self).wf() ==> final(self).wf(),
    {
        update_list(&mut self.player.hand, delta_millis);
        update_list(&mut self.player.field, delta_millis);
        update_list(&mut self.opponent.hand, delta_millis);
        update_list(&mut self.opponent.field, delta_millis);
        proof {
            lemma_ids_bounced(old(self).player.hand@, delta_millis);
            lemma_ids_bounced(old(self).player.field@, delta_millis);
            lemma_ids_bounced(old(self).opponent.hand@, delta_millis);
            lemma_ids_bounced(old(self).opponent.field@, delta_millis);
            assert(self.id_zones() =~= old(self).id_zones());
        }
    }
}

} // verus!
