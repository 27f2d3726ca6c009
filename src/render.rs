//! The geometry of a rendered frame: a center line, the ball, both rackets
//! and the score label.
use crate::game::{
    in_extent, MainState, Point, Screen, BALL_SIZE, BALL_SIZE_HALF, MAX_EXTENT, MIDDLE_LINE_W,
    RACKET_HEIGHT, RACKET_HEIGHT_HALF, RACKET_WIDTH, RACKET_WIDTH_HALF, UNITS_PER_PIXEL,
};
use vstd::prelude::*;
use vstd::string::StringExecFns;

verus! {

/// An axis-aligned rectangle given by its top-left corner and its size, in
/// micro-pixels.
#[derive(Clone, Copy, Debug, PartialEq, Eq, Structural)]
pub struct Rect {
    pub x: i64,
    pub y: i64,
    pub w: i64,
    pub h: i64,
}

/// What one frame draws: filled rectangles, and the score label to be centered
/// horizontally near the top.
#[derive(Debug)]
pub struct Scene {
    pub middle_line: Rect,
    pub ball: Rect,
    pub player_1: Rect,
    pub player_2: Rect,
    pub score: String,
}

pub open spec fn digit_char(d: nat) -> char {
    seq!['0', '1', '2', '3', '4', '5', '6', '7', '8', '9'][d as int]
}

/// `n` written in decimal, without sign or leading zeros.
pub open spec fn decimal(n: nat) -> Seq<char>
    decreases n,
{
    if n < 10 {
        seq![digit_char(n)]
    } else {
        decimal(n / 10).push(digit_char(n % 10))
    }
}

/// The two scores in decimal, four spaces apart.
pub open spec fn score_text(a: nat, b: nat) -> Seq<char> {
    decimal(a) + seq![' ', ' ', ' ', ' '] + decimal(b)
}

/// Relies on `ToString` for `u64`, through its `Display`, which writes an
/// unsigned integer in decimal without sign or leading zeros.
#[verifier::external_body]
fn decimal_string(n: u64) -> (r: String)
    ensures
        r@ == decimal(n as nat),
{
    n.to_string()
}

/// The score label: the left score, four spaces, then the right score.
pub fn score_label(a: u64, b: u64) -> (r: String)
    ensures
        r@ == score_text(a as nat, b as nat),
{
    let mut label = decimal_string(a);
    proof {
        reveal_strlit("    ");
    }
    label.append("    ");
    let right = decimal_string(b);
    label.append(right.as_str());
    label
}

/// The top edge of the score label, in micro-pixels.
pub const SCORE_TOP: i64 = 40 * UNITS_PER_PIXEL;

/// The height of the score label's font, in pixels.
pub const SCORE_SCALE: i64 = 64;

/// Where the score label's top-left corner goes for a label `text_w`
/// micro-pixels wide: centered horizontally, `SCORE_TOP` from the top.
pub fn score_position(screen: Screen, text_w: i64) -> (r: Point)
    requires
        screen.wf(),
        0 <= text_w <= MAX_EXTENT,
    ensures
        r.x == screen.width / 2 - text_w / 2,
        r.y == SCORE_TOP,
{
    Point { x: screen.width / 2 - text_w / 2, y: SCORE_TOP }
}

/// The rectangle of a box of the given size centered on `p`.
pub open spec fn box_at(p: Point, half_w: int, half_h: int) -> Rect {
    Rect {
        x: (p.x - half_w) as i64,
        y: (p.y - half_h) as i64,
        w: (2 * half_w) as i64,
        h: (2 * half_h) as i64,
    }
}

fn centered_box(p: Point, half_w: i64, half_h: i64) -> (r: Rect)
    requires
        in_extent(p.x as int),
        in_extent(p.y as int),
        0 <= half_w <= MAX_EXTENT,
        0 <= half_h <= MAX_EXTENT,
    ensures
        r == box_at(p, half_w as int, half_h as int),
{
    Rect { x: p.x - half_w, y: p.y - half_h, w: 2 * half_w, h: 2 * half_h }
}

impl MainState {
    /// The frame to draw: a vertical line of width `MIDDLE_LINE_W` down the
    /// whole screen, its left edge half that width right of the center; the
    /// ball and both rackets as boxes centered on their positions; and the
    /// scores, left then right.
    pub fn render(&self, screen: Screen) -> (r: Scene)
        requires
            self.wf(),
            screen.wf(),
        ensures
            r.middle_line == (Rect {
                x: (screen.width / 2 + MIDDLE_LINE_W / 2) as i64,
                y: 0,
                w: MIDDLE_LINE_W,
                h: screen.height,
            }),
            r.ball == box_at(self.ball_position, BALL_SIZE_HALF as int, BALL_SIZE_HALF as int),
            r.player_1 == box_at(
                self.player_1_position,
                RACKET_WIDTH_HALF as int,
                RACKET_HEIGHT_HALF as int,
            ),
            r.player_2 == box_at(
                self.player_2_position,
                RACKET_WIDTH_HALF as int,
                RACKET_HEIGHT_HALF as int,
            ),
            r.ball.w == BALL_SIZE && r.ball.h == BALL_SIZE,
            r.player_1.w == RACKET_WIDTH && r.player_1.h == RACKET_HEIGHT,
            r.score@ == score_text(self.player_1_score as nat, self.player_2_score as nat),
    {
        Scene {
            middle_line: Rect {
                x: screen.width / 2 + MIDDLE_LINE_W / 2,
                y: 0,
                w: MIDDLE_LINE_W,
                h: screen.height,
            },
            ball: centered_box(self.ball_position, BALL_SIZE_HALF, BALL_SIZE_HALF),
            player_1: centered_box(self.player_1_position, RACKET_WIDTH_HALF, RACKET_HEIGHT_HALF),
            player_2: centered_box(self.player_2_position, RACKET_WIDTH_HALF, RACKET_HEIGHT_HALF),
            score: score_label(self.player_1_score, self.player_2_score),
        }
    }
}

} // verus!
