//! Axis-aligned rectangles, the closed-edge overlap test, and the shapes of
//! the player sprite and of an obstacle pair.

use vstd::prelude::*;

use crate::GAP_CENTER_MAX;
use crate::GAP_CENTER_MIN;
use crate::PIPE_GAP;
use crate::PIPE_WIDTH;
use crate::PLAYER_CENTER_X;
use crate::PLAYER_SIZE;
use crate::SCREEN_HEIGHT;
use crate::SCREEN_WIDTH;

verus! {

/// An axis-aligned rectangle, in tenths of a pixel.  `x`, `y` is the top-left
/// corner; the y axis points down.
#[derive(Clone, Copy, PartialEq, Eq, Structural, Debug)]
pub struct Rect {
    pub x: i32,
    pub y: i32,
    pub w: i32,
    pub h: i32,
}

/// One obstacle pair: a top rectangle from the screen top down to the gap and
/// a bottom rectangle from the gap down to the screen bottom, sharing the one
/// horizontal position `x` and the one gap centre `gap_center`.
#[derive(Clone, Copy, PartialEq, Eq, Structural, Debug)]
pub struct PipePair {
    pub x: i32,
    pub gap_center: i32,
}

/// Closed-edge axis-aligned overlap: rectangles that merely touch count as
/// overlapping.
pub open spec fn rects_overlap(a: Rect, b: Rect) -> bool {
    &&& a.x <= b.x + b.w
    &&& b.x <= a.x + a.w
    &&& a.y <= b.y + b.h
    &&& b.y <= a.y + a.h
}

pub fn overlaps(a: &Rect, b: &Rect) -> (r: bool)
    ensures
        r == rects_overlap(*a, *b),
{
    (a.x as i64) <= (b.x as i64) + (b.w as i64) && (b.x as i64) <= (a.x as i64) + (a.w as i64)
        && (a.y as i64) <= (b.y as i64) + (b.h as i64) && (b.y as i64) <= (a.y as i64)
        + (a.h as i64)
}

/// The player's bounding square: centred horizontally at mid-screen and
/// vertically at `pos`.
pub open spec fn spec_player_rect(pos: int) -> Rect {
    Rect {
        x: (PLAYER_CENTER_X - PLAYER_SIZE / 2) as i32,
        y: (pos - PLAYER_SIZE / 2) as i32,
        w: PLAYER_SIZE,
        h: PLAYER_SIZE,
    }
}

pub fn player_rect(pos: i32) -> (r: Rect)
    requires
        0 <= pos <= SCREEN_HEIGHT,
    ensures
        r == spec_player_rect(pos as int),
{
    Rect {
        x: PLAYER_CENTER_X - PLAYER_SIZE / 2,
        y: pos - PLAYER_SIZE / 2,
        w: PLAYER_SIZE,
        h: PLAYER_SIZE,
    }
}

/// Bounds under which an obstacle pair's rectangles are well shaped: the pair
/// sits on screen (or just left of it, about to be retired) and its gap centre
/// leaves room for both rectangles.
pub open spec fn pipe_in_range(p: PipePair) -> bool {
    &&& -PIPE_WIDTH <= p.x <= SCREEN_WIDTH
    &&& GAP_CENTER_MIN <= p.gap_center < GAP_CENTER_MAX
}

/// The pair's top rectangle: from the screen top down to the gap's start.
pub open spec fn spec_top_rect(p: PipePair) -> Rect {
    Rect { x: p.x, y: 0, w: PIPE_WIDTH, h: (p.gap_center - PIPE_GAP / 2) as i32 }
}

pub fn top_rect(p: &PipePair) -> (r: Rect)
    requires
        pipe_in_range(*p),
    ensures
        r == spec_top_rect(*p),
{
    Rect { x: p.x, y: 0, w: PIPE_WIDTH, h: p.gap_center - PIPE_GAP / 2 }
}

/// The pair's bottom rectangle: from the gap's end down to the screen bottom.
pub open spec fn spec_bottom_rect(p: PipePair) -> Rect {
    Rect {
        x: p.x,
        y: (p.gap_center + PIPE_GAP / 2) as i32,
        w: PIPE_WIDTH,
        h: (SCREEN_HEIGHT - p.gap_center - PIPE_GAP / 2) as i32,
    }
}

pub fn bottom_rect(p: &PipePair) -> (r: Rect)
    requires
        pipe_in_range(*p),
    ensures
        r == spec_bottom_rect(*p),
{
    Rect {
        x: p.x,
        y: p.gap_center + PIPE_GAP / 2,
        w: PIPE_WIDTH,
        h: SCREEN_HEIGHT - p.gap_center - PIPE_GAP / 2,
    }
}

/// Whether the player square centred at height `pos` touches either rectangle
/// of the pair `p`.
pub open spec fn player_hits_pipe(pos: int, p: PipePair) -> bool {
    ||| rects_overlap(spec_player_rect(pos), spec_top_rect(p))
    ||| rects_overlap(spec_player_rect(pos), spec_bottom_rect(p))
}

pub fn pipe_hits_player(pos: i32, p: &PipePair) -> (r: bool)
    requires
        0 <= pos <= SCREEN_HEIGHT,
        pipe_in_range(*p),
    ensures
        r == player_hits_pipe(pos as int, *p),
{
    let pr = player_rect(pos);
    let top = top_rect(p);
    let bottom = bottom_rect(p);
    overlaps(&pr, &top) || overlaps(&pr, &bottom)
}

} // verus!
