use pong::game::{
    clamp, intersects, move_racket, randomize_vec, serve_velocity_of, signed_velocity, Frame, Keys, MainState, Point, Screen,
    Serve, Velocity, BALL_SPEED, UNITS_PER_PIXEL,
};
use pong::render::{score_label, score_position, Rect, SCORE_TOP};

const PX: i64 = UNITS_PER_PIXEL;

fn screen() -> Screen {
    Screen { width: 1000 * PX, height: 800 * PX }
}

fn no_keys() -> Keys {
    Keys { player_1_up: false, player_1_down: false, player_2_up: false, player_2_down: false }
}

fn frame(dt: u32, keys: Keys) -> Frame {
    Frame { dt, keys, screen: screen() }
}

fn game(ball: Point, velocity: Velocity) -> MainState {
    let mut g = MainState::with_serve(screen(), Serve { x_positive: true, y_positive: true });
    g.ball_position = ball;
    g.ball_velocity = velocity;
    g
}

fn px(x: i64, y: i64) -> Point {
    Point { x: x * PX, y: y * PX }
}

#[test]
fn clamp_below_above_inside() {
    let mut v: i64 = -5;
    clamp(&mut v, 0, 10);
    assert_eq!(v, 0);
    let mut v: i64 = 15;
    clamp(&mut v, 0, 10);
    assert_eq!(v, 10);
    let mut v: i64 = 7;
    clamp(&mut v, 0, 10);
    assert_eq!(v, 7);
}

#[test]
fn racket_held_up_for_a_second_clamps_to_half_height() {
    let mut y: i64 = 400 * PX;
    move_racket(&mut y, true, false, 1_000_000, 800 * PX);
    assert_eq!(y, 50 * PX);
}

#[test]
fn racket_held_up_through_update_clamps() {
    let mut g = game(px(500, 400), Velocity { x: 300, y: 300 });
    let keys = Keys { player_1_up: true, ..no_keys() };
    g.update(frame(1_000_000, keys));
    assert_eq!(g.player_1_position, px(50, 50));
    assert_eq!(g.player_2_position, px(950, 400));
}

#[test]
fn racket_moves_down_and_clamps_at_bottom() {
    let mut y: i64 = 400 * PX;
    move_racket(&mut y, false, true, 100_000, 800 * PX);
    assert_eq!(y, 450 * PX);
    move_racket(&mut y, false, true, 1_000_000, 800 * PX);
    assert_eq!(y, 750 * PX);
}

#[test]
fn both_keys_held_cancel() {
    let mut y: i64 = 60 * PX;
    move_racket(&mut y, true, true, 1_000_000, 800 * PX);
    assert_eq!(y, 60 * PX);
}

#[test]
fn ball_past_left_edge_scores_for_right_side() {
    let mut g = game(px(5, 400), Velocity { x: -300, y: 0 });
    g.update_with_serves(
        frame(100_000, no_keys()),
        Serve { x_positive: true, y_positive: false },
        Serve { x_positive: false, y_positive: false },
    );
    assert_eq!(g.ball_position, px(500, 400));
    assert_eq!(g.ball_velocity, Velocity { x: 300, y: -300 });
    assert_eq!(g.player_2_score, 1);
    assert_eq!(g.player_1_score, 0);
}

#[test]
fn ball_past_left_edge_random_serve() {
    let mut g = game(px(5, 400), Velocity { x: -300, y: 0 });
    g.update(frame(100_000, no_keys()));
    assert_eq!(g.ball_position, px(500, 400));
    assert_eq!(g.ball_velocity.x.abs(), 300);
    assert_eq!(g.ball_velocity.y.abs(), 300);
    assert_eq!((g.player_1_score, g.player_2_score), (0, 1));
}

#[test]
fn ball_past_right_edge_scores_for_left_side() {
    let mut g = game(px(995, 400), Velocity { x: 300, y: 300 });
    g.update_with_serves(
        frame(100_000, no_keys()),
        Serve { x_positive: true, y_positive: true },
        Serve { x_positive: false, y_positive: true },
    );
    assert_eq!(g.ball_position, px(500, 400));
    assert_eq!(g.ball_velocity, Velocity { x: -300, y: 300 });
    assert_eq!((g.player_1_score, g.player_2_score), (1, 0));
}

#[test]
fn ball_in_play_moves_by_velocity() {
    let mut g = game(px(500, 400), Velocity { x: 300, y: -300 });
    g.update(frame(100_000, no_keys()));
    assert_eq!(g.ball_position, px(530, 370));
    assert_eq!(g.ball_velocity, Velocity { x: 300, y: -300 });
    assert_eq!((g.player_1_score, g.player_2_score), (0, 0));
}

#[test]
fn bounce_off_top_wall_points_down() {
    let mut g = game(px(500, 20), Velocity { x: 300, y: -300 });
    g.update(frame(100_000, no_keys()));
    assert_eq!(g.ball_position, px(530, 15));
    assert_eq!(g.ball_velocity, Velocity { x: 300, y: 300 });
}

#[test]
fn bounce_off_bottom_wall_points_up() {
    let mut g = game(px(500, 780), Velocity { x: -300, y: 300 });
    g.update(frame(100_000, no_keys()));
    assert_eq!(g.ball_position, px(470, 785));
    assert_eq!(g.ball_velocity, Velocity { x: -300, y: -300 });
}

#[test]
fn left_racket_sends_ball_right_and_forcing_is_idempotent() {
    let mut g = game(px(70, 400), Velocity { x: -300, y: 300 });
    g.collide();
    assert_eq!(g.ball_velocity, Velocity { x: 300, y: 300 });
    let once = g;
    g.collide();
    assert_eq!(g, once);
}

#[test]
fn right_racket_sends_ball_left() {
    let mut g = game(px(940, 400), Velocity { x: 300, y: -300 });
    g.update(frame(0, no_keys()));
    assert_eq!(g.ball_velocity, Velocity { x: -300, y: -300 });
    assert_eq!(g.ball_position, px(940, 400));
}

#[test]
fn boxes_overlap_only_when_they_do() {
    assert!(intersects(px(70, 400), px(50, 400)));
    assert!(!intersects(px(75, 400), px(50, 400)));
    assert!(!intersects(px(50, 465), px(50, 400)));
    assert!(intersects(px(50, 464), px(50, 400)));
}

#[test]
fn new_game_layout() {
    let g = MainState::with_serve(screen(), Serve { x_positive: false, y_positive: true });
    assert_eq!(g.player_1_position, px(50, 400));
    assert_eq!(g.player_2_position, px(950, 400));
    assert_eq!(g.ball_position, px(500, 400));
    assert_eq!(g.ball_velocity, Velocity { x: -300, y: 300 });
    assert_eq!((g.player_1_score, g.player_2_score), (0, 0));
    let r = MainState::new(screen());
    assert_eq!(r.ball_position, px(500, 400));
    assert_eq!(r.ball_velocity.x.abs(), BALL_SPEED);
    assert_eq!(r.ball_velocity.y.abs(), BALL_SPEED);
}

#[test]
fn serve_directions() {
    assert_eq!(
        serve_velocity_of(Serve { x_positive: true, y_positive: false }),
        Velocity { x: 300, y: -300 }
    );
    let mut g = game(px(10, 10), Velocity { x: 0, y: 0 });
    g.serve(screen(), Serve { x_positive: false, y_positive: false });
    assert_eq!(g.ball_position, px(500, 400));
    assert_eq!(g.ball_velocity, Velocity { x: -300, y: -300 });
}

#[test]
fn scene_geometry_and_label() {
    let mut g = game(px(500, 400), Velocity { x: 300, y: 300 });
    g.player_1_score = 3;
    g.player_2_score = 12;
    let s = g.render(screen());
    assert_eq!(s.middle_line, Rect { x: 501 * PX, y: 0, w: 2 * PX, h: 800 * PX });
    assert_eq!(s.ball, Rect { x: 485 * PX, y: 385 * PX, w: 30 * PX, h: 30 * PX });
    assert_eq!(s.player_1, Rect { x: 40 * PX, y: 350 * PX, w: 20 * PX, h: 100 * PX });
    assert_eq!(s.player_2, Rect { x: 940 * PX, y: 350 * PX, w: 20 * PX, h: 100 * PX });
    assert_eq!(s.score, "3    12");
}

#[test]
fn label_of_fresh_game() {
    let g = game(px(500, 400), Velocity { x: 300, y: 300 });
    assert_eq!(g.render(screen()).score, "0    0");
}

#[test]
fn signed_velocity_follows_each_sign() {
    assert_eq!(signed_velocity(true, false, 7, 9), Velocity { x: 7, y: -9 });
    assert_eq!(signed_velocity(false, true, 7, 9), Velocity { x: -7, y: 9 });
    assert_eq!(signed_velocity(false, false, 0, 4), Velocity { x: 0, y: -4 });
}

#[test]
fn randomize_vec_keeps_magnitudes() {
    let mut v = Velocity { x: 10, y: 5 };
    randomize_vec(&mut v, BALL_SPEED, 120);
    assert_eq!(v.x.abs(), BALL_SPEED);
    assert_eq!(v.y.abs(), 120);
}

#[test]
fn score_label_spacing_and_digits() {
    assert_eq!(score_label(0, 0), "0    0");
    assert_eq!(score_label(10, 907), "10    907");
    assert_eq!(score_label(u64::MAX, 1), "18446744073709551615    1");
}

#[test]
fn score_label_is_centered_near_the_top() {
    let p = score_position(screen(), 120 * PX);
    assert_eq!(p, Point { x: 440 * PX, y: SCORE_TOP });
    assert_eq!(SCORE_TOP, 40 * PX);
    let p = score_position(Screen { width: 300 * PX, height: 200 * PX }, 0);
    assert_eq!(p, px(150, 40));
}

#[test]
fn still_frame_twice_changes_nothing() {
    let mut g = game(px(70, 400), Velocity { x: -300, y: -300 });
    g.player_1_position = px(50, 60);
    g.ball_position = px(70, 10);
    g.update(frame(0, no_keys()));
    let once = g;
    assert_eq!(once.player_1_position, px(50, 60));
    assert_eq!(once.ball_position, px(70, 15));
    assert_eq!(once.ball_velocity, Velocity { x: 300, y: 300 });
    g.update(frame(0, no_keys()));
    assert_eq!(g, once);
}
