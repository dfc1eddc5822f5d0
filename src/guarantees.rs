use vstd::prelude::*;

use crate::card_wrapper::CardWrapper;
use crate::constants::FIELD_CAPACITY;
use crate::gamestate::{first_right_of, ids, laid_out, slot_x, AreaReference, GameState};
use crate::point::Point;

verus! {

/// In a well-formed game a card identity is found at one place at most:
/// in one zone of one player, at one index. Every operation of `GameState`
/// keeps a game well formed.
pub proof fn lemma_zone_exclusivity(g: GameState, id: u64, a: int, i: int, b: int, j: int)
    requires
        g.wf(),
        0 <= a < g.card_zones().len(),
        0 <= b < g.card_zones().len(),
        0 <= i < g.card_zones()[a].len(),
        0 <= j < g.card_zones()[b].len(),
        g.card_zones()[a][i].id == id,
        g.card_zones()[b][j].id == id,
    ensures
        a == b,
        i == j,
{
    let zs = g.id_zones();
    assert(g.card_zones().len() == 6);
    assert(forall|c: int| 0 <= c < 6 ==> #[trigger] zs[c] == ids(g.card_zones()[c]));
    assert(zs[a][i] == id);
    assert(zs[b][j] == id);
}

/// A release that moves a card from the hand to the field takes exactly one
/// card out of the hand and puts exactly one onto the field: together they
/// hold as many cards as before.
pub proof fn lemma_move_preserves_count(g: GameState, screen: Point)
    requires
        g.drop_target(screen) is Some,
    ensures
        g.released_zone(screen, AreaReference::PlayerHand).len() == g.zone(
            AreaReference::PlayerHand,
        ).len() - 1,
        g.released_zone(screen, AreaReference::PlayerField).len() == g.zone(
            AreaReference::PlayerField,
        ).len() + 1,
        g.released_zone(screen, AreaReference::PlayerHand).len() + g.released_zone(
            screen,
            AreaReference::PlayerField,
        ).len() == g.zone(AreaReference::PlayerHand).len() + g.zone(
            AreaReference::PlayerField,
        ).len(),
{
    let r = g.dragged().unwrap();
    assert(r.area == AreaReference::PlayerHand);
    assert(r.index < g.zone(AreaReference::PlayerHand).len());
    let t = g.drop_target(screen).unwrap();
    assert(t.index <= g.zone(AreaReference::PlayerField).len()) by {
        lemma_first_right_of_bounded(
            g.zone(AreaReference::PlayerField),
            g.resolve(r).unwrap().current_position.x as int,
            0,
        );
    }
}

proof fn lemma_first_right_of_bounded(list: Seq<CardWrapper>, x: int, from: int)
    requires
        0 <= from,
    ensures
        0 <= first_right_of(list, x, from) <= list.len(),
    decreases list.len() - from,
{
    if from < list.len() && list[from].position.x <= x {
        lemma_first_right_of_bounded(list, x, from + 1);
    }
}

/// With a full field no release moves a card, wherever it is dropped, and
/// every zone keeps its length.
pub proof fn lemma_capacity_enforced(g: GameState, screen: Point)
    requires
        g.zone(AreaReference::PlayerField).len() == FIELD_CAPACITY,
    ensures
        g.drop_target(screen) is None,
        forall|a: AreaReference| #[trigger] g.released_zone(screen, a).len() == g.zone(a).len(),
{
}

/// The layout of a zone of `n` cards depends on its inputs alone: the
/// leftmost card stands at `width / 2 - (n * spacing - spacing) / 2`, each
/// further card `spacing` right of the one before, all at `y`; and laying
/// out a zone again changes nothing. Stated where no coordinate saturates.
pub proof fn lemma_layout_determinism(list: Seq<CardWrapper>, y: i64, spacing: i64, width: i64)
    requires
        forall|k: int|
            0 <= k < list.len() ==> i64::MIN <= #[trigger] slot_x(
                width as int,
                list.len() as int,
                spacing as int,
                k,
            ) <= i64::MAX,
    ensures
        laid_out(list, y, spacing, width).len() == list.len(),
        list.len() > 0 ==> laid_out(list, y, spacing, width)[0].position.x == width / 2 - ((
        list.len() * spacing) - spacing) / 2,
        forall|k: int|
            0 <= k < list.len() - 1 ==> #[trigger] laid_out(list, y, spacing, width)[k
                + 1].position.x == laid_out(list, y, spacing, width)[k].position.x + spacing,
        forall|k: int|
            0 <= k < list.len() ==> #[trigger] laid_out(list, y, spacing, width)[k].position.y == y,
        laid_out(laid_out(list, y, spacing, width), y, spacing, width) == laid_out(
            list,
            y,
            spacing,
            width,
        ),
{
    let n = list.len() as int;
    let l = laid_out(list, y, spacing, width);
    if n > 0 {
        assert(slot_x(width as int, n, spacing as int, 0) == width / 2 - ((n * spacing) - spacing)
            / 2);
    }
    assert forall|k: int| 0 <= k < n - 1 implies #[trigger] l[k + 1].position.x == l[k].position.x
        + spacing by {
        assert(i64::MIN <= slot_x(width as int, n, spacing as int, k) <= i64::MAX);
        assert(i64::MIN <= slot_x(width as int, n, spacing as int, k + 1) <= i64::MAX);
        assert((k + 1) * spacing == k * spacing + spacing) by (nonlinear_arith);
    }
    assert(laid_out(l, y, spacing, width) =~= l);
}

} // verus!
