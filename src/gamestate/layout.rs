use vstd::prelude::*;

use super::ids;
use crate::card_wrapper::CardWrapper;
use crate::constants::CARD_HEIGHT;
use crate::point::{clamp_coord, Point};

verus! {

/// The x-coordinate of the `k`-th of `n` cards laid out `spacing` apart,
/// centered on a screen `width` wide: the leftmost card stands at
/// `width / 2 - (n * spacing - spacing) / 2`.
pub open spec fn slot_x(width: int, n: int, spacing: int, k: int) -> int {
    width / 2 - (n * spacing - spacing) / 2 + k * spacing
}

/// The cards of `list` with the rest positions that the layout engine
/// gives them: the `k`-th at x-coordinate `slot_x(width, n, spacing, k)`,
/// saturated to `i64`, and at y-coordinate `y`.
pub open spec fn laid_out(list: Seq<CardWrapper>, y: i64, spacing: i64, width: i64) -> Seq<
    CardWrapper,
> {
    Seq::new(
        list.len(),
        |k: int|
            list[k].with_rest(
                Point {
                    x: clamp_coord(slot_x(width as int, list.len() as int, spacing as int, k)) as i64,
                    y,
                },
            ),
    )
}

/// The y-coordinate of the cards in the hand, on a screen `height` high.
pub open spec fn hand_y(height: i64) -> i64 {
    clamp_coord(height - CARD_HEIGHT / 2) as i64
}

/// The y-coordinate of the cards on the field, on a screen `height` high.
pub open spec fn field_y(height: i64) -> i64 {
    ((height + CARD_HEIGHT) / 2) as i64
}

/// `v / 2`, rounded down.
pub(crate) fn floor_half(v: i128) -> (r: i128)
    ensures
        r == v / 2,
{
    if v >= 0 {
        v / 2
    } else {
        -(-(v + 1) / 2) - 1
    }
}

/// The x-coordinate of slot `k` of `n`, saturated to `i64`.
pub(crate) fn slot_x_of(width: i64, n: usize, spacing: i64, k: usize) -> (r: i64)
    requires
        k < n,
    ensures
        r == clamp_coord(slot_x(width as int, n as int, spacing as int, k as int)),
{
    let m = (n - 1) as i128;
    let s = spacing as i128;
    let kk = k as i128;
    proof {
        assert(-0x8000_0000_0000_0000 <= s < 0x8000_0000_0000_0000);
        assert(0 <= kk <= m < 0x1_0000_0000_0000_0000);
        assert(-0x8000_0000_0000_0000_0000_0000_0000_0000 < m * s < 0x8000_0000_0000_0000_0000_0000_0000_0000)
            by (nonlinear_arith)
            requires
                0 <= m < 0x1_0000_0000_0000_0000,
                -0x8000_0000_0000_0000 <= s < 0x8000_0000_0000_0000,
        ;
        if s >= 0 {
            assert(0 <= kk * s <= m * s) by (nonlinear_arith)
                requires
                    0 <= kk <= m,
                    s >= 0,
            ;
        } else {
            assert(m * s <= kk * s <= 0) by (nonlinear_arith)
                requires
                    0 <= kk <= m,
                    s < 0,
            ;
        }
        assert(n as int * spacing as int - spacing as int == m * s) by (nonlinear_arith)
            requires
                m == n - 1,
                s == spacing,
        ;
    }
    let left = floor_half(width as i128) - floor_half(m * s);
    let x = left + kk * s;
    if x > i64::MAX as i128 {
        i64::MAX
    } else if x < i64::MIN as i128 {
        i64::MIN
    } else {
        x as i64
    }
}

/// Give the cards of `list` their rest positions: centered on a screen
/// `screen_size.x` wide, `spacing` apart from center to center, at
/// y-coordinate `position_y`.
pub fn update_positions_of_list(
    list: &mut Vec<CardWrapper>,
    position_y: i64,
    spacing: i64,
    screen_size: &Point,
)
    ensures
        final(list)@ == laid_out(old(list)@, position_y, spacing, screen_size.x),
{
    let n = list.len();
    let mut k: usize = 0;
    while k < n
        invariant
            n == old(list)@.len(),
            list@.len() == n,
            k <= n,
            forall|i: int|
                0 <= i < k ==> #[trigger] list@[i] == laid_out(old(list)@, position_y, spacing, screen_size.x)[i],
            forall|i: int| k <= i < n ==> #[trigger] list@[i] == old(list)@[i],
        decreases n - k,
    {
        let x = slot_x_of(screen_size.x, n, spacing, k);
        list[k].set_position(Point::new(x, position_y));
        k = k + 1;
    }
    proof {
        assert(list@ =~= laid_out(old(list)@, position_y, spacing, screen_size.x));
    }
}

pub(crate) proof fn lemma_ids_laid_out(list: Seq<CardWrapper>, y: i64, spacing: i64, width: i64)
    ensures
        ids(laid_out(list, y, spacing, width)) == ids(list),
{
    assert(ids(laid_out(list, y, spacing, width)) =~= ids(list));
}

} // verus!
