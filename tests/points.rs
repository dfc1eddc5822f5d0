use cardgame::{Card, CardKind, CardWrapper, CombinedIterator, LightElemental, Point, CARD_HEIGHT, CARD_WIDTH};

fn card_at(x: i64, y: i64) -> CardWrapper {
    let mut c = CardWrapper::new(CardKind::LightElemental(LightElemental { health: 1 }), 0);
    c.current_position = Point::new(x, y);
    c
}

#[test]
fn point_arithmetic_saturates() {
    let p = Point::new(i64::MAX, i64::MIN);
    let q = Point::new(1, -1);
    assert_eq!(p.plus(q), Point::new(i64::MAX, i64::MIN));
    assert_eq!(p.minus(Point::new(-1, 1)), Point::new(i64::MAX, i64::MIN));
    assert_eq!(Point::new(3, 4).plus(Point::new(-5, 6)), Point::new(-2, 10));
    assert_eq!(Point::new(3, 4).minus(Point::new(-5, 6)), Point::new(8, -2));
    assert_eq!(Point::zero(), Point::new(0, 0));
}

#[test]
fn point_between() {
    let p = Point::new(5, 5);
    assert!(p.between(&Point::new(5, 0), &Point::new(10, 5)));
    assert!(!p.between(&Point::new(6, 0), &Point::new(10, 10)));
    assert!(!p.between(&Point::new(0, 0), &Point::new(10, 4)));
}

#[test]
fn contains_is_centered_on_display_position() {
    let mut c = card_at(100, 200);
    c.position = Point::new(1000, 1000);
    let hw = CARD_WIDTH / 2;
    let hh = CARD_HEIGHT / 2;
    assert!(c.contains(&Point::new(100 - hw, 200 - hh)));
    assert!(c.contains(&Point::new(100 + hw, 200 + hh)));
    assert!(!c.contains(&Point::new(100 + hw + 1, 200)));
    assert!(!c.contains(&Point::new(100, 200 - hh - 1)));
    assert!(!c.contains(&Point::new(1000, 1000)));
    assert_eq!(c.size(), Point::new(150, 200));
}

#[test]
fn drag_keeps_offset() {
    let mut c = card_at(100, 200);
    c.drag_start(&Point::new(90, 230));
    assert!(c.dragging);
    assert_eq!(c.drag_offset, Point::new(10, -30));
    c.mouse_moved(&Point::new(500, 500));
    assert_eq!(*c.drag_position(), Point::new(510, 470));
    // a dragged card does not bounce back
    c.update(100);
    assert_eq!(c.current_position, Point::new(510, 470));
}

#[test]
fn bounce_back_steps() {
    let mut c = card_at(0, 0);
    c.set_position(Point::new(100, -100));
    c.update(16);
    // 100 * 16 / 200 = 8
    assert_eq!(c.current_position, Point::new(8, -8));
    c.update(0);
    assert_eq!(c.current_position, Point::new(8, -8));
    let mut d = card_at(0, 0);
    d.set_position(Point::new(3, 0));
    // 3 * 1 / 200 rounds away from zero to 1
    d.update(1);
    assert_eq!(d.current_position, Point::new(1, 0));
    // a long frame never overshoots
    d.update(100000);
    assert_eq!(d.current_position, Point::new(3, 0));
    let mut e = card_at(i64::MIN, i64::MAX);
    e.set_position(Point::new(i64::MAX, i64::MIN));
    e.update(200);
    assert_eq!(e.current_position, Point::new(i64::MAX, i64::MIN));
}

#[test]
fn combined_iterator_walks_in_order() {
    let a = [1, 2];
    let b: [i32; 0] = [];
    let c = [3];
    let mut it = CombinedIterator::new(&a);
    it.and(&b).and(&c);
    assert_eq!(it.next(), Some(&1));
    assert_eq!(it.next(), Some(&2));
    assert_eq!(it.next(), Some(&3));
    assert_eq!(it.next(), None);
    assert_eq!(it.next(), None);
    let d = [4, 5];
    it.and(&d);
    assert_eq!(it.next(), Some(&4));
    assert_eq!(it.next(), Some(&5));
    assert_eq!(it.next(), None);
}

#[test]
fn combined_iterator_of_empty() {
    let e: [u8; 0] = [];
    let mut it = CombinedIterator::new(&e);
    assert_eq!(it.next(), None);
}

#[test]
fn point_from_pairs() {
    assert_eq!(Point::from((3u32, 4000000000u32)), Point::new(3, 4000000000));
    assert_eq!(Point::from((-3i32, 7i32)), Point::new(-3, 7));
}

#[test]
fn health_can_change_in_place() {
    let mut e = LightElemental { health: 4 };
    if let Some(h) = e.health_mut() {
        *h = 9;
    }
    assert_eq!(e.health(), Some(9));
    assert_eq!(e.attack(), Some(9));
    let mut k = CardKind::Buff(cardgame::BuffCard {});
    assert!(k.health_mut().is_none());
}
