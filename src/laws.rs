//! What holds of every frame of play.
use crate::game::{
    abs, center, overlaps, Frame, MainState, Serve, BALL_SIZE_HALF, BALL_SPEED, RACKET_HEIGHT,
    RACKET_HEIGHT_HALF,
};
use vstd::prelude::*;

verus! {

/// On a screen at least as tall as a racket, after any frame each racket's
/// vertical center lies in `[RACKET_HEIGHT_HALF, height - RACKET_HEIGHT_HALF]`,
/// whatever the time step and the keys held.
pub proof fn lemma_rackets_stay_on_screen(s: MainState, f: Frame, left: Serve, right: Serve)
    requires
        s.wf(),
        f.screen.wf(),
        f.screen.height >= RACKET_HEIGHT,
    ensures
        RACKET_HEIGHT_HALF <= s.step(f, left, right).player_1_position.y <= f.screen.height
            - RACKET_HEIGHT_HALF,
        RACKET_HEIGHT_HALF <= s.step(f, left, right).player_2_position.y <= f.screen.height
            - RACKET_HEIGHT_HALF,
{
}

/// In one frame at most one side scores, and no score goes down.
pub proof fn lemma_at_most_one_score(s: MainState, f: Frame, left: Serve, right: Serve)
    requires
        s.wf(),
        f.screen.wf(),
        s.player_1_score < u64::MAX,
        s.player_2_score < u64::MAX,
    ensures
        s.player_1_score <= s.step(f, left, right).player_1_score,
        s.player_2_score <= s.step(f, left, right).player_2_score,
        s.step(f, left, right).player_1_score + s.step(f, left, right).player_2_score
            <= s.player_1_score + s.player_2_score + 1,
{
}

/// Right after a side scores, the ball is at the screen's center and moves at
/// `BALL_SPEED` on each axis.
pub proof fn lemma_serve_recenters(s: MainState, f: Frame, left: Serve, right: Serve)
    requires
        s.wf(),
        f.screen.wf(),
        s.player_1_score < u64::MAX,
        s.player_2_score < u64::MAX,
    ensures
        ({
            let moved = s.after_rackets(f).after_translation(f.dt as int);
            let scored = moved.after_scoring(f.screen, left, right);
            (scored.player_1_score != moved.player_1_score || scored.player_2_score
                != moved.player_2_score) ==> {
                &&& scored.ball_position == center(f.screen)
                &&& abs(scored.ball_velocity.x as int) == BALL_SPEED
                &&& abs(scored.ball_velocity.y as int) == BALL_SPEED
            }
        }),
{
}

/// After a wall bounce the vertical velocity points back into the field:
/// down off the top wall, up off the bottom one. After a racket collision the
/// horizontal velocity points away from that racket.
pub proof fn lemma_bounce_signs(s: MainState, f: Frame, left: Serve, right: Serve)
    requires
        s.wf(),
        s.ball_velocity.x != 0,
        s.ball_velocity.y != 0,
        f.screen.wf(),
        s.player_1_score < u64::MAX,
        s.player_2_score < u64::MAX,
    ensures
        ({
            let scored = s.after_rackets(f).after_translation(f.dt as int).after_scoring(
                f.screen,
                left,
                right,
            );
            let bounced = scored.after_bounce(f.screen.height as int);
            let r = s.step(f, left, right);
            &&& scored.ball_position.y < BALL_SIZE_HALF ==> r.ball_velocity.y > 0
            &&& (scored.ball_position.y >= BALL_SIZE_HALF && scored.ball_position.y
                > f.screen.height - BALL_SIZE_HALF) ==> r.ball_velocity.y < 0
            &&& (overlaps(bounced.ball_position, bounced.player_1_position) && !overlaps(
                bounced.ball_position,
                bounced.player_2_position,
            )) ==> r.ball_velocity.x > 0
            &&& overlaps(bounced.ball_position, bounced.player_2_position)
                ==> r.ball_velocity.x < 0
        }),
{
}

/// Forcing the ball away from the rackets twice, with the ball where it was,
/// gives the same state as forcing it once.
pub proof fn lemma_collision_idempotent(s: MainState)
    requires
        s.wf(),
    ensures
        s.after_collision().after_collision() == s.after_collision(),
{
}


/// A frame in which no time passes, played again on the same screen, changes
/// nothing: once the ball lies between the side edges, forcing the wall and
/// racket directions a second time leaves the state as it was.
pub proof fn lemma_still_frame_idempotent(
    s: MainState,
    f: Frame,
    left: Serve,
    right: Serve,
    again_left: Serve,
    again_right: Serve,
)
    requires
        s.wf(),
        f.screen.wf(),
        f.dt == 0,
        f.screen.height >= RACKET_HEIGHT,
        0 <= s.ball_position.x <= f.screen.width,
        s.player_1_score < u64::MAX,
        s.player_2_score < u64::MAX,
    ensures
        s.step(f, left, right).step(f, again_left, again_right) == s.step(f, left, right),
{
}

} // verus!
