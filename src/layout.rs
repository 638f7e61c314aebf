use vstd::prelude::*;

use crate::entity::Side;
use crate::{WINDOW_HEIGHT, WINDOW_WIDTH};

verus! {

/// Number of dashes in the line that splits the field in two.
pub const HALFWAY_LINE_DASHES: i32 = 20;

/// A line segment between two points of the screen.
#[derive(Clone, Copy, Debug, PartialEq, Eq, Structural)]
pub struct Segment {
    pub x1: i32,
    pub y1: i32,
    pub x2: i32,
    pub y2: i32,
}

/// A rectangle of the screen: its top-left corner and its size.
#[derive(Clone, Copy, Debug, PartialEq, Eq, Structural)]
pub struct ScreenRect {
    pub x: i32,
    pub y: i32,
    pub width: u32,
    pub height: u32,
}

/// Length of one dash of the halfway line; the gaps are as long.
pub open spec fn dash_length() -> int {
    WINDOW_HEIGHT as int / (HALFWAY_LINE_DASHES * 2) as int
}

/// The `k`-th dash of the halfway line, counted from the top.
pub open spec fn dash(k: int) -> Segment {
    let x = (WINDOW_WIDTH / 2) as int - 2;
    let top = dash_length() / 2 + 2 * k * dash_length();
    Segment { x1: x as i32, y1: top as i32, x2: x as i32, y2: (top + dash_length()) as i32 }
}

/// The box in which a player's score is written: a twelfth of the width and
/// a tenth of the height, centered on a quarter (left) or three quarters
/// (right) of the width, one box height below the top.
pub open spec fn score_box_of(side: Side) -> ScreenRect {
    let w = WINDOW_WIDTH as int / 12;
    let h = WINDOW_HEIGHT as int / 10;
    let cx = match side {
        Side::Left => WINDOW_WIDTH as int / 4,
        Side::Right => WINDOW_WIDTH as int * 3 / 4,
    };
    ScreenRect { x: (cx - w / 2) as i32, y: h as i32, width: w as u32, height: h as u32 }
}

/// The dashes of the vertical line that splits the field, from top to bottom.
pub fn halfway_line_dashes() -> (r: Vec<Segment>)
    ensures
        r@.len() == HALFWAY_LINE_DASHES,
        forall|k: int| 0 <= k < HALFWAY_LINE_DASHES ==> r@[k] == dash(k),
{
    let middle_x: i32 = (WINDOW_WIDTH / 2) as i32 - 2;
    let len: i32 = WINDOW_HEIGHT as i32 / (HALFWAY_LINE_DASHES * 2);
    let margin_top: i32 = len / 2;
    assert(len == 15 && margin_top == 7);
    let mut r: Vec<Segment> = Vec::new();
    let mut k: i32 = 0;
    while k < HALFWAY_LINE_DASHES
        invariant
            0 <= k <= HALFWAY_LINE_DASHES,
            len == dash_length(),
            len == 15,
            margin_top == 7,
            middle_x == (WINDOW_WIDTH / 2) as int - 2,
            margin_top == dash_length() / 2,
            r@.len() == k,
            forall|j: int| 0 <= j < k ==> r@[j] == dash(j),
        decreases HALFWAY_LINE_DASHES - k,
    {
        assert(0 <= 2 * k * len <= 2 * HALFWAY_LINE_DASHES * 15) by (nonlinear_arith)
            requires
                0 <= k < HALFWAY_LINE_DASHES,
                len == 15,
        ;
        let top = margin_top + 2 * k * len;
        r.push(Segment { x1: middle_x, y1: top, x2: middle_x, y2: top + len });
        k = k + 1;
    }
    r
}

/// The box in which the score of the player on `side` is written.
pub fn score_box(side: Side) -> (r: ScreenRect)
    ensures
        r == score_box_of(side),
{
    let w = WINDOW_WIDTH / 12;
    let h = WINDOW_HEIGHT / 10;
    let cx = match side {
        Side::Left => WINDOW_WIDTH / 4,
        Side::Right => WINDOW_WIDTH * 3 / 4,
    };
    ScreenRect { x: (cx - w / 2) as i32, y: h as i32, width: w, height: h }
}

} // verus!
