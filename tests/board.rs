use cardgame::{
    AreaReference, BuffCard, Card, CardKind, CardPlayEffect, CardReference, CardWrapper,
    DamageSpellCard, GameState, GenericMinion, LightElemental, Player, Point, ResourceType,
    CARD_HEIGHT, CARD_IN_HAND_SPACING, CARD_ON_FIELD_SPACING, FIELD_CAPACITY, TARGET_EVERYTHING,
    TARGET_OPPONENTMINION, TARGET_OWNMINION,
};
use cardgame::VecUtils;

fn screen() -> Point {
    Point::new(1280, 960)
}

fn minion() -> CardKind {
    CardKind::LightElemental(LightElemental { health: 3 })
}

/// A game whose player has `n` cards of `card` in hand, laid out on the
/// screen, and resting on their slots.
fn game_with_hand(n: usize, card: fn() -> CardKind) -> GameState {
    let mut g = GameState::new(Player::new("player"), Player::new("opponent"));
    for _ in 0..n {
        g.player.deck.push(card());
    }
    for _ in 0..n {
        g.draw_card();
    }
    settle(&mut g);
    g
}

/// Lay the zones out and let every card reach its rest position.
fn settle(g: &mut GameState) {
    g.update_card_origins(&screen());
    for c in g.player.hand.iter_mut() {
        c.update(1000);
    }
    for c in g.player.field.iter_mut() {
        c.update(1000);
    }
}

fn drag(g: &mut GameState, from: Point, to: Point) {
    g.mouse_pressed_at(&from);
    g.mouse_moved_to(&to);
    g.mouse_released(&screen());
}

fn all_ids(g: &GameState) -> Vec<u64> {
    let mut v = Vec::new();
    for z in [
        &g.player.hand,
        &g.player.field,
        &g.player.graveyard,
        &g.opponent.hand,
        &g.opponent.field,
        &g.opponent.graveyard,
    ] {
        for c in z.iter() {
            v.push(c.id);
        }
    }
    v
}

fn distinct(v: &[u64]) -> bool {
    for i in 0..v.len() {
        for j in 0..i {
            if v[i] == v[j] {
                return false;
            }
        }
    }
    true
}

#[test]
fn drag_hand_card_to_empty_field() {
    let mut g = game_with_hand(5, minion);
    assert_eq!(g.player.hand.len(), 5);
    assert_eq!(g.player.field.len(), 0);
    let dragged_id = g.player.hand[2].id;
    let p = g.player.hand[2].current_position;
    g.mouse_pressed_at(&p);
    assert_eq!(
        g.dragging_card,
        Some(CardReference { area: AreaReference::PlayerHand, index: 2 })
    );
    assert!(g.player.hand[2].dragging);
    g.mouse_moved_to(&Point::new(640, 600));
    assert_eq!(g.player.hand[2].current_position, Point::new(640, 600));
    g.mouse_released(&screen());
    assert_eq!(g.player.hand.len(), 4);
    assert_eq!(g.player.field.len(), 1);
    assert_eq!(g.player.field[0].id, dragged_id);
    assert!(!g.player.field[0].dragging);
    assert_eq!(g.dragging_card, None);
    // the field was laid out anew: one card in the middle of the screen
    assert_eq!(g.player.field[0].position, Point::new(640, (960 + CARD_HEIGHT) / 2));
    assert!(distinct(&all_ids(&g)));
}

#[test]
fn full_field_rejects_move() {
    let mut g = game_with_hand(3, minion);
    for id in 100..107 {
        g.player.deck.push(minion());
        g.player.draw_and_play_card(id);
    }
    assert_eq!(g.player.field.len(), FIELD_CAPACITY);
    settle(&mut g);
    for drop_x in [100, 640, 1200] {
        let p = g.player.hand[1].current_position;
        drag(&mut g, p, Point::new(drop_x, 600));
        assert_eq!(g.player.hand.len(), 3);
        assert_eq!(g.player.field.len(), 7);
        assert_eq!(g.dragging_card, None);
        settle(&mut g);
    }
}

#[test]
fn release_outside_band_leaves_zones() {
    let mut g = game_with_hand(3, minion);
    let rest = g.player.hand[0].position;
    let p = g.player.hand[0].current_position;
    // y-factor 192 / 960 = 0.2
    drag(&mut g, p, Point::new(700, 192));
    assert_eq!(g.player.hand.len(), 3);
    assert_eq!(g.player.field.len(), 0);
    assert_eq!(g.player.hand[0].position, rest);
    assert!(!g.player.hand[0].dragging);
    assert_eq!(g.player.hand[0].current_position, Point::new(700, 192));
    // the card drifts back toward its old slot
    g.player.hand[0].update(100);
    let c = g.player.hand[0].current_position;
    assert_eq!(c.x, 700 + (rest.x - 700) / 2);
    assert_eq!(c.y, 192 + (rest.y - 192) / 2);
    g.player.hand[0].update(1000);
    assert_eq!(g.player.hand[0].current_position, rest);
}

#[test]
fn move_keeps_total_count() {
    let mut g = game_with_hand(4, minion);
    let before = g.player.hand.len() + g.player.field.len();
    let p = g.player.hand[0].current_position;
    drag(&mut g, p, Point::new(10, 500));
    assert_eq!(g.player.hand.len(), 3);
    assert_eq!(g.player.field.len(), 1);
    assert_eq!(g.player.hand.len() + g.player.field.len(), before);
}

#[test]
fn drop_goes_before_first_card_right_of_it() {
    let mut g = game_with_hand(4, minion);
    for _ in 0..2 {
        let p = g.player.hand[0].current_position;
        drag(&mut g, p, Point::new(640, 600));
        settle(&mut g);
    }
    assert_eq!(g.player.field.len(), 2);
    let left = g.player.field[0].id;
    let right = g.player.field[1].id;
    // field slots at 553 and 728: a drop at 600 goes between them
    assert_eq!(g.player.field[0].position.x, 553);
    assert_eq!(g.player.field[1].position.x, 728);
    let moved = g.player.hand[0].id;
    let p = g.player.hand[0].current_position;
    drag(&mut g, p, Point::new(600, 600));
    assert_eq!(g.player.field.len(), 3);
    assert_eq!(g.player.field[0].id, left);
    assert_eq!(g.player.field[1].id, moved);
    assert_eq!(g.player.field[2].id, right);
    // a drop right of every card appends
    settle(&mut g);
    let moved = g.player.hand[0].id;
    let p = g.player.hand[0].current_position;
    drag(&mut g, p, Point::new(1279, 600));
    assert_eq!(g.player.field[3].id, moved);
    assert!(distinct(&all_ids(&g)));
}

#[test]
fn field_band_is_open() {
    // exactly one half and exactly three quarters are outside the band
    for (y, moves) in [(480, false), (481, true), (719, true), (720, false)] {
        let mut g = game_with_hand(1, minion);
        let p = g.player.hand[0].current_position;
        drag(&mut g, p, Point::new(640, y));
        assert_eq!(g.player.field.len() == 1, moves);
    }
}

#[test]
fn spell_does_not_start_drag() {
    let mut g = game_with_hand(2, || CardKind::DamageSpell(DamageSpellCard {}));
    let p = g.player.hand[1].current_position;
    g.mouse_pressed_at(&p);
    assert_eq!(g.dragging_card, None);
    assert!(!g.player.hand[1].dragging);
}

#[test]
fn field_minion_is_not_draggable() {
    let mut g = game_with_hand(1, minion);
    let p = g.player.hand[0].current_position;
    drag(&mut g, p, Point::new(640, 600));
    settle(&mut g);
    let q = g.player.field[0].current_position;
    g.mouse_pressed_at(&q);
    assert_eq!(g.dragging_card, None);
    assert!(!g.player.field[0].dragging);
}

#[test]
fn press_hits_topmost_card() {
    let mut g = game_with_hand(3, minion);
    // hand slots at 540, 640, 740, 150 wide: 600 lies on cards 0 and 1
    assert_eq!(g.player.hand[0].position.x, 540);
    g.mouse_pressed_at(&Point::new(600, 860));
    assert_eq!(
        g.dragging_card,
        Some(CardReference { area: AreaReference::PlayerHand, index: 1 })
    );
}

#[test]
fn press_on_empty_board_does_nothing() {
    let mut g = game_with_hand(2, minion);
    g.mouse_pressed_at(&Point::new(5, 5));
    assert_eq!(g.dragging_card, None);
    g.mouse_moved_to(&Point::new(50, 50));
    g.mouse_released(&screen());
    assert_eq!(g.player.hand.len(), 2);
}

#[test]
fn stale_drag_reference_is_abandoned() {
    let mut g = game_with_hand(2, minion);
    g.dragging_card = Some(CardReference { area: AreaReference::PlayerHand, index: 9 });
    g.mouse_moved_to(&Point::new(640, 600));
    g.mouse_released(&screen());
    assert_eq!(g.dragging_card, None);
    assert_eq!(g.player.hand.len(), 2);
    assert_eq!(g.player.field.len(), 0);
}

#[test]
fn layout_formula() {
    let mut g = game_with_hand(5, minion);
    g.update_card_origins(&screen());
    // 1280 / 2 - (5 * 100 - 100) / 2 = 440
    let xs: Vec<i64> = g.player.hand.iter().map(|c| c.position.x).collect();
    assert_eq!(xs, vec![440, 540, 640, 740, 840]);
    for c in g.player.hand.iter() {
        assert_eq!(c.position.y, 960 - CARD_HEIGHT / 2);
    }
    // laying out twice gives the same positions
    g.update_card_origins(&screen());
    let again: Vec<i64> = g.player.hand.iter().map(|c| c.position.x).collect();
    assert_eq!(again, xs);
}

#[test]
fn layout_of_list() {
    let mut list = vec![
        CardWrapper::new(minion(), 1),
        CardWrapper::new(minion(), 2),
    ];
    cardgame::update_positions_of_list(&mut list, 500, CARD_ON_FIELD_SPACING, &screen());
    // 640 - (2 * 175 - 175) / 2 = 553 (87.5 rounded down)
    assert_eq!(list[0].position, Point::new(553, 500));
    assert_eq!(list[1].position, Point::new(728, 500));
    cardgame::update_positions_of_list(&mut list, 7, CARD_IN_HAND_SPACING, &Point::new(101, 0));
    // 101 / 2 - (200 - 100) / 2 = 0
    assert_eq!(list[0].position, Point::new(0, 7));
    assert_eq!(list[1].position, Point::new(100, 7));
    let mut empty: Vec<CardWrapper> = Vec::new();
    cardgame::update_positions_of_list(&mut empty, 0, 100, &screen());
    assert!(empty.is_empty());
}

#[test]
fn layout_saturates() {
    let mut list = vec![
        CardWrapper::new(minion(), 1),
        CardWrapper::new(minion(), 2),
        CardWrapper::new(minion(), 3),
    ];
    cardgame::update_positions_of_list(&mut list, 0, i64::MAX, &Point::new(i64::MAX, 0));
    assert_eq!(list[0].position.x, -(1i64 << 62));
    assert_eq!(list[1].position.x, (1i64 << 62) - 1);
    assert_eq!(list[2].position.x, i64::MAX);
}

#[test]
fn insert_bounds() {
    let mut g = game_with_hand(2, minion);
    let at = |index| CardReference { area: AreaReference::OpponentField, index };
    assert!(!g.insert_card_at(CardWrapper::new(minion(), 50), &at(1)));
    assert_eq!(g.opponent.field.len(), 0);
    assert!(g.insert_card_at(CardWrapper::new(minion(), 51), &at(0)));
    assert!(g.insert_card_at(CardWrapper::new(minion(), 52), &at(1)));
    assert!(g.insert_card_at(CardWrapper::new(minion(), 53), &at(0)));
    let ids: Vec<u64> = g.opponent.field.iter().map(|c| c.id).collect();
    assert_eq!(ids, vec![53, 51, 52]);
    assert!(!g.insert_card_at(CardWrapper::new(minion(), 54), &at(4)));
    assert_eq!(g.opponent.field.len(), 3);
}

#[test]
fn take_and_get() {
    let mut g = game_with_hand(3, minion);
    let ids: Vec<u64> = g.player.hand.iter().map(|c| c.id).collect();
    let r = CardReference { area: AreaReference::PlayerHand, index: 1 };
    assert_eq!(g.get_card(&r).map(|c| c.id), Some(ids[1]));
    assert!(g.get_card(&CardReference { area: AreaReference::PlayerHand, index: 3 }).is_none());
    assert!(g.get_card(&CardReference { area: AreaReference::OpponentHand, index: 0 }).is_none());
    let taken = g.take_card_at(&r).map(|c| c.id);
    assert_eq!(taken, Some(ids[1]));
    let rest: Vec<u64> = g.player.hand.iter().map(|c| c.id).collect();
    assert_eq!(rest, vec![ids[0], ids[2]]);
    assert!(g.take_card_at(&CardReference { area: AreaReference::PlayerHand, index: 2 }).is_none());
    assert_eq!(g.player.hand.len(), 2);
    if let Some(c) = g.get_card_mut(&CardReference { area: AreaReference::PlayerHand, index: 0 }) {
        c.dragging = true;
    }
    assert!(g.player.hand[0].dragging);
    assert!(g.get_card_mut(&CardReference { area: AreaReference::PlayerField, index: 0 }).is_none());
}

#[test]
fn drawn_cards_have_distinct_ids() {
    let g = game_with_hand(6, minion);
    let ids = all_ids(&g);
    assert_eq!(ids, vec![0, 1, 2, 3, 4, 5]);
    assert_eq!(g.next_card_id, 6);
    assert!(distinct(&ids));
    assert!(g.player.deck.is_empty());
}

#[test]
fn vec_utils() {
    let mut v = vec![1, 2, 3];
    assert_eq!(VecUtils::try_remove(&mut v, 3), None);
    assert_eq!(VecUtils::try_remove(&mut v, 0), Some(1));
    assert_eq!(v, vec![2, 3]);
    assert!(VecUtils::push_or_insert(&mut v, 2, 9));
    assert!(VecUtils::push_or_insert(&mut v, 0, 7));
    assert_eq!(v, vec![7, 2, 3, 9]);
    assert!(!VecUtils::push_or_insert(&mut v, 5, 8));
    assert_eq!(v, vec![7, 2, 3, 9]);
}

#[test]
fn drag_result_by_area() {
    let w = CardWrapper::new(minion(), 0);
    assert_eq!(
        cardgame::get_card_drag_result(&w, &AreaReference::PlayerHand),
        Some(CardPlayEffect::SummonMinion)
    );
    assert_eq!(cardgame::get_card_drag_result(&w, &AreaReference::PlayerField), None);
    let s = CardWrapper::new(CardKind::Buff(BuffCard {}), 1);
    let target = cardgame::get_card_drag_result(&s, &AreaReference::PlayerField);
    match target {
        Some(CardPlayEffect::Target(t)) => {
            assert_eq!(t.bits, TARGET_OWNMINION | TARGET_OPPONENTMINION)
        }
        _ => panic!("a buff card targets"),
    }
}

#[test]
fn card_capabilities() {
    let m = GenericMinion {
        name: String::from("Generic minion"),
        attack: 5,
        health: 4,
        cost: vec![(ResourceType::Red, 3)],
    };
    assert_eq!(m.name(), "Generic minion");
    assert_eq!(m.attack(), Some(5));
    assert_eq!(m.health(), Some(4));
    assert_eq!(m.cost(), vec![(ResourceType::Red, 3)]);
    let copy = m.clone_box();
    assert_eq!(copy.name(), "Generic minion");
    assert_eq!(copy.cost(), vec![(ResourceType::Red, 3)]);
    let e = LightElemental { health: 7 };
    assert_eq!(e.attack(), Some(7));
    assert_eq!(e.health(), Some(7));
    assert_eq!(e.description(), "Will always have the same\nattack as health.");
    let d = DamageSpellCard {};
    assert_eq!(d.attack(), None);
    assert_eq!(d.cost(), vec![(ResourceType::Red, 2)]);
    match d.play_effects()[0] {
        CardPlayEffect::Target(t) => assert_eq!(t.bits, TARGET_EVERYTHING),
        _ => panic!("a damage spell targets"),
    }
    assert_eq!(BuffCard {}.cost(), vec![(ResourceType::White, 1)]);
    assert_eq!(CardKind::Buff(BuffCard {}).name(), "Buff card");
}

#[test]
fn reset_deck_copies_original() {
    let mut p = Player::new("p");
    assert_eq!(p.name, "p");
    assert_eq!(p.health, 100);
    p.original_deck.push(minion());
    p.original_deck.push(CardKind::Buff(BuffCard {}));
    p.hand.push(CardWrapper::new(minion(), 9));
    p.reset_deck();
    assert!(p.hand.is_empty());
    assert_eq!(p.deck.len(), 2);
    assert_eq!(p.deck[0].name(), "Light elemental");
    assert_eq!(p.deck[1].name(), "Buff card");
    p.draw_card(4);
    assert_eq!(p.hand.len(), 1);
    assert_eq!(p.hand[0].id, 4);
    assert_eq!(p.deck.len(), 1);
    p.draw_and_play_card(5);
    assert_eq!(p.field[0].card.name(), "Buff card");
    assert!(p.deck.is_empty());
}

#[test]
fn tick_moves_resting_cards_of_every_zone() {
    let mut g = game_with_hand(2, minion);
    g.opponent.hand.push(CardWrapper::new(minion(), 40));
    g.opponent.hand[0].set_position(Point::new(200, 0));
    let p = g.player.hand[0].current_position;
    g.mouse_pressed_at(&p);
    g.mouse_moved_to(&Point::new(0, 0));
    g.player.hand[1].current_position = Point::new(0, 860);
    g.update_cards(100);
    // the dragged card stays with the mouse
    assert_eq!(g.player.hand[0].current_position, Point::new(0, 0));
    // the others cover half of the way to their slots
    assert_eq!(g.player.hand[1].current_position, Point::new(345, 860));
    assert_eq!(g.opponent.hand[0].current_position, Point::new(100, 0));
}
