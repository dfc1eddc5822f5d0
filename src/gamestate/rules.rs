use vstd::prelude::*;

use super::AreaReference;
use crate::card_wrapper::CardWrapper;
use crate::cards::{Card, CardPlayEffect};
use crate::point::Point;

verus! {

/// The index of the topmost card of `list[0..upto]` that lies under `p`:
/// the one with the highest index, as later cards are drawn on top.
pub open spec fn topmost_hit(list: Seq<CardWrapper>, p: Point, upto: int) -> Option<int>
    decreases upto,
{
    if upto <= 0 {
        None
    } else if list[upto - 1].spec_contains(p) {
        Some(upto - 1)
    } else {
        topmost_hit(list, p, upto - 1)
    }
}

pub(crate) proof fn lemma_topmost_hit_in_range(list: Seq<CardWrapper>, p: Point, upto: int)
    ensures
        topmost_hit(list, p, upto) matches Some(k) ==> 0 <= k < upto && list[k].spec_contains(p),
    decreases upto,
{
    if upto > 0 && !list[upto - 1].spec_contains(p) {
        lemma_topmost_hit_in_range(list, p, upto - 1);
    }
}

/// What dragging a card out of `area` does, by the card's play effects
/// from the `from`-th on: the first effect that applies there. Summoning
/// applies only to a card dragged out of the player's hand; any other
/// effect applies anywhere.
pub open spec fn drag_result(effects: Seq<CardPlayEffect>, area: AreaReference, from: int) -> Option<
    CardPlayEffect,
>
    decreases effects.len() - from,
{
    if from < 0 || from >= effects.len() {
        None
    } else {
        match effects[from] {
            CardPlayEffect::SummonMinion => if area == AreaReference::PlayerHand {
                Some(CardPlayEffect::SummonMinion)
            } else {
                drag_result(effects, area, from + 1)
            },
            e => Some(e),
        }
    }
}

/// The index of the first card of `list`, from the `from`-th on, whose rest
/// position lies right of `x`; the length of `list` if there is none.
pub open spec fn first_right_of(list: Seq<CardWrapper>, x: int, from: int) -> int
    decreases list.len() - from,
{
    if from < 0 || from >= list.len() {
        list.len() as int
    } else if list[from].position.x > x {
        from
    } else {
        first_right_of(list, x, from + 1)
    }
}

/// A point at height `py` on a screen `sy` high lies in the field's band:
/// `py / sy` is strictly between one half and three quarters.
pub open spec fn in_field_band(py: int, sy: int) -> bool {
    ||| (sy > 0 && sy < 2 * py && 4 * py < 3 * sy)
    ||| (sy < 0 && 2 * py < sy && 3 * sy < 4 * py)
}

/// The index of the topmost card of `list` under `p`.
pub(crate) fn topmost_card_at(list: &Vec<CardWrapper>, p: &Point) -> (r: Option<usize>)
    ensures
        r is Some <==> topmost_hit(list@, *p, list@.len() as int) is Some,
        r is Some ==> topmost_hit(list@, *p, list@.len() as int) == Some(r.unwrap() as int),
{
    let mut i: usize = list.len();
    while i > 0
        invariant
            i <= list@.len(),
            topmost_hit(list@, *p, list@.len() as int) == topmost_hit(list@, *p, i as int),
        decreases i,
    {
        if list[i - 1].contains(p) {
            return Some(i - 1);
        }
        i = i - 1;
    }
    None
}

/// The index in `cards` at which a card dropped at x-coordinate `mouse_x`
/// goes: before the first card whose rest position lies right of it.
pub(crate) fn get_card_index(cards: &Vec<CardWrapper>, mouse_x: i64) -> (r: usize)
    ensures
        r == first_right_of(cards@, mouse_x as int, 0),
        r <= cards@.len(),
{
    let mut i: usize = 0;
    while i < cards.len()
        invariant
            i <= cards@.len(),
            first_right_of(cards@, mouse_x as int, 0) == first_right_of(cards@, mouse_x as int, i as int),
        decreases cards@.len() - i,
    {
        if cards[i].position.x > mouse_x {
            return i;
        }
        i = i + 1;
    }
    cards.len()
}

/// What dragging `wrapper` out of `area` does: its first play effect that
/// applies there, or `None` if it cannot be played from there.
pub fn get_card_drag_result(wrapper: &CardWrapper, area: &AreaReference) -> (r: Option<CardPlayEffect>)
    ensures
        r == drag_result(wrapper.card.spec_effects(), *area, 0),
{
    let effects = wrapper.card.play_effects();
    let mut i: usize = 0;
    while i < effects.len()
        invariant
            i <= effects@.len(),
            effects@ == wrapper.card.spec_effects(),
            drag_result(effects@, *area, 0) == drag_result(effects@, *area, i as int),
        decreases effects@.len() - i,
    {
        match effects[i] {
            CardPlayEffect::SummonMinion => {
                if *area == AreaReference::PlayerHand {
                    return Some(CardPlayEffect::SummonMinion);
                }
            },
            e => {
                return Some(e);
            },
        }
        i = i + 1;
    }
    None
}

/// Whether a point at height `py` lies in the field's band of a screen
/// `sy` high.
pub(crate) fn is_in_field_band(py: i64, sy: i64) -> (r: bool)
    ensures
        r == in_field_band(py as int, sy as int),
{
    let py = py as i128;
    let sy = sy as i128;
    (sy > 0 && sy < 2 * py && 4 * py < 3 * sy) || (sy < 0 && 2 * py < sy && 3 * sy < 4 * py)
}

} // verus!
