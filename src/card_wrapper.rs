use vstd::prelude::*;

use crate::cards::CardKind;
use crate::constants::{BOUNCE_BACK_DIVISOR, CARD_HEIGHT, CARD_WIDTH};
use crate::point::{clamp_coord, Point};

verus! {

/// The distance that a resting card covers in `delta_millis` milliseconds
/// when `diff` separates it from its rest position: `diff * delta_millis /
/// BOUNCE_BACK_DIVISOR`, with the elapsed time clamped to
/// `BOUNCE_BACK_DIVISOR` so that a card never overshoots, and rounded away
/// from zero so that a card always settles on its rest position.
pub open spec fn bounce_step(diff: int, delta_millis: int) -> int {
    let k = if delta_millis < BOUNCE_BACK_DIVISOR {
        delta_millis
    } else {
        BOUNCE_BACK_DIVISOR as int
    };
    if diff >= 0 {
        (diff * k + BOUNCE_BACK_DIVISOR - 1) / (BOUNCE_BACK_DIVISOR as int)
    } else {
        -((-diff * k + BOUNCE_BACK_DIVISOR - 1) / (BOUNCE_BACK_DIVISOR as int))
    }
}

/// A step of the bounce-back never goes past the rest position.
proof fn lemma_bounce_step_bounded(diff: int, delta_millis: int)
    requires
        delta_millis >= 0,
    ensures
        diff >= 0 ==> 0 <= bounce_step(diff, delta_millis) <= diff,
        diff < 0 ==> diff <= bounce_step(diff, delta_millis) <= 0,
{
    let d = BOUNCE_BACK_DIVISOR as int;
    let k = if delta_millis < d {
        delta_millis
    } else {
        d
    };
    let a = if diff >= 0 {
        diff
    } else {
        -diff
    };
    assert(0 <= a * k <= a * d) by (nonlinear_arith)
        requires
            a >= 0,
            0 <= k <= d,
    ;
    assert(0 <= (a * k + d - 1) / d <= a) by (nonlinear_arith)
        requires
            0 <= a * k <= a * d,
            d == 200,
    ;
}

/// A card together with where it stands on the screen and whether it is
/// being dragged.
pub struct CardWrapper {
    /// Identity of this card instance; no two instances in a game share one.
    pub id: u64,
    /// The position that the card is currently drawn at.
    pub current_position: Point,
    /// The rest position that the layout of its zone assigned to the card.
    pub position: Point,
    /// Is this card being dragged?
    pub dragging: bool,
    /// The offset between the mouse and the center of the card, kept
    /// through a drag. Meaningless while the card is not being dragged.
    pub drag_offset: Point,
    /// The card that this wrapper holds.
    pub card: CardKind,
}

impl CardWrapper {
    /// The card with its rest position set to `p`.
    pub open spec fn with_rest(self, p: Point) -> CardWrapper {
        CardWrapper { position: p, ..self }
    }

    /// The card with `dragging` set to `d`.
    pub open spec fn with_dragging(self, d: bool) -> CardWrapper {
        CardWrapper { dragging: d, ..self }
    }

    /// A new card at 0/0, not being dragged.
    pub open spec fn fresh(card: CardKind, id: u64) -> CardWrapper {
        CardWrapper {
            id,
            current_position: Point::zero_spec(),
            position: Point::zero_spec(),
            dragging: false,
            drag_offset: Point::zero_spec(),
            card,
        }
    }

    /// The card after a drag started with the mouse at `mouse`.
    pub open spec fn started_drag(self, mouse: Point) -> CardWrapper {
        CardWrapper {
            dragging: true,
            drag_offset: Point {
                x: clamp_coord(self.current_position.x - mouse.x) as i64,
                y: clamp_coord(self.current_position.y - mouse.y) as i64,
            },
            ..self
        }
    }

    /// The card after the mouse moved to `mouse` while dragging it.
    pub open spec fn moved_to(self, mouse: Point) -> CardWrapper {
        CardWrapper {
            current_position: Point {
                x: clamp_coord(self.drag_offset.x + mouse.x) as i64,
                y: clamp_coord(self.drag_offset.y + mouse.y) as i64,
            },
            ..self
        }
    }

    /// The card after `delta_millis` milliseconds: unless it is being
    /// dragged, it moves toward its rest position by `bounce_step` on each
    /// axis.
    pub open spec fn bounced(self, delta_millis: u64) -> CardWrapper {
        if self.dragging {
            self
        } else {
            CardWrapper {
                current_position: Point {
                    x: (self.current_position.x + bounce_step(
                        self.position.x - self.current_position.x,
                        delta_millis as int,
                    )) as i64,
                    y: (self.current_position.y + bounce_step(
                        self.position.y - self.current_position.y,
                        delta_millis as int,
                    )) as i64,
                },
                ..self
            }
        }
    }

    /// `p` lies on the card as drawn: the card's size centered on its
    /// current position, borders included.
    pub open spec fn spec_contains(self, p: Point) -> bool {
        &&& self.current_position.x - CARD_WIDTH / 2 <= p.x <= self.current_position.x + CARD_WIDTH
            / 2
        &&& self.current_position.y - CARD_HEIGHT / 2 <= p.y <= self.current_position.y
            + CARD_HEIGHT / 2
    }

    /// Create a card wrapper at 0/0 for the given card.
    pub fn new(card: CardKind, id: u64) -> (r: CardWrapper)
        ensures
            r == CardWrapper::fresh(card, id),
    {
        CardWrapper {
            id,
            current_position: Point::zero(),
            position: Point::zero(),
            dragging: false,
            drag_offset: Point::zero(),
            card,
        }
    }

    /// The size of this card on the screen.
    pub fn size(&self) -> (r: Point)
        ensures
            r.x == CARD_WIDTH,
            r.y == CARD_HEIGHT,
    {
        Point::new(CARD_WIDTH, CARD_HEIGHT)
    }

    /// The position that the card is currently drawn at.
    pub fn drag_position(&self) -> (r: &Point)
        ensures
            *r == self.current_position,
    {
        &self.current_position
    }

    /// Set the rest position of the card.
    pub fn set_position(&mut self, p: Point)
        ensures
            *final(self) == old(self).with_rest(p),
    {
        self.position = p;
    }

    /// Returns true if the given point lies on the card as drawn.
    pub fn contains(&self, p: &Point) -> (r: bool)
        ensures
            r == self.spec_contains(*p),
    {
        let cx = self.current_position.x as i128;
        let cy = self.current_position.y as i128;
        let hw = (CARD_WIDTH / 2) as i128;
        let hh = (CARD_HEIGHT / 2) as i128;
        cx - hw <= p.x as i128 && p.x as i128 <= cx + hw && cy - hh <= p.y as i128 && p.y as i128
            <= cy + hh
    }

    /// Start dragging the card with the mouse at `mouse_position`; the card
    /// keeps its offset to the mouse through the drag.
    pub fn drag_start(&mut self, mouse_position: &Point)
        ensures
            *final(self) == old(self).started_drag(*mouse_position),
    {
        self.dragging = true;
        self.drag_offset = self.current_position.minus(*mouse_position);
    }

    /// Move the card along with the mouse, now at `mouse_position`.
    pub fn mouse_moved(&mut self, mouse_position: &Point)
        ensures
            *final(self) == old(self).moved_to(*mouse_position),
    {
        self.current_position = self.drag_offset.plus(*mouse_position);
    }

    /// Advance the card by `delta_millis` milliseconds: a card that is not
    /// being dragged moves toward its rest position by `bounce_step` on
    /// each axis.
    pub fn update(&mut self, delta_millis: u64)
        ensures
            *final(self) == old(self).bounced(delta_millis),
    {
        if !self.dragging {
            let x = approach(self.current_position.x, self.position.x, delta_millis);
            let y = approach(self.current_position.y, self.position.y, delta_millis);
            self.current_position = Point::new(x, y);
        }
    }
}

/// One coordinate of `current` moved toward `rest` over `delta_millis`.
fn approach(current: i64, rest: i64, delta_millis: u64) -> (r: i64)
    ensures
        r == current + bounce_step(rest - current, delta_millis as int),
{
    let d = BOUNCE_BACK_DIVISOR as i128;
    let k: i128 = if delta_millis < BOUNCE_BACK_DIVISOR as u64 {
        delta_millis as i128
    } else {
        d
    };
    let diff = rest as i128 - current as i128;
    proof {
        lemma_bounce_step_bounded(diff as int, delta_millis as int);
        assert(-0x1_0000_0000_0000_0000 < diff < 0x1_0000_0000_0000_0000);
        assert(0 <= k <= 200);
        assert(diff * k < 0x1_0000_0000_0000_0000 * 200) by (nonlinear_arith)
            requires
                diff < 0x1_0000_0000_0000_0000,
                0 <= k <= 200,
        ;
        assert(-diff * k < 0x1_0000_0000_0000_0000 * 200) by (nonlinear_arith)
            requires
                -diff < 0x1_0000_0000_0000_0000,
                0 <= k <= 200,
        ;
    }
    let step: i128 = if diff >= 0 {
        (diff * k + d - 1) / d
    } else {
        -((-diff * k + d - 1) / d)
    };
    (current as i128 + step) as i64
}

} // verus!
