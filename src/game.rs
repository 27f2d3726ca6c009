use vstd::prelude::*;

verus! {

/// Micro-pixels in one pixel.
pub const UNITS_PER_PIXEL: i64 = 1_000_000;

pub const WINDOW_WIDTH: i64 = 1000 * UNITS_PER_PIXEL;
pub const WINDOW_HEIGHT: i64 = 800 * UNITS_PER_PIXEL;
pub const PADDING: i64 = 40 * UNITS_PER_PIXEL;
pub const MIDDLE_LINE_W: i64 = 2 * UNITS_PER_PIXEL;
pub const RACKET_HEIGHT: i64 = 100 * UNITS_PER_PIXEL;
pub const RACKET_WIDTH: i64 = 20 * UNITS_PER_PIXEL;
pub const RACKET_HEIGHT_HALF: i64 = 50 * UNITS_PER_PIXEL;
pub const RACKET_WIDTH_HALF: i64 = 10 * UNITS_PER_PIXEL;
pub const BALL_SIZE: i64 = 30 * UNITS_PER_PIXEL;
pub const BALL_SIZE_HALF: i64 = 15 * UNITS_PER_PIXEL;
/// Racket speed, in pixels per second.
pub const PLAYER_SPEED: i64 = 500;
/// Ball speed on each axis, in pixels per second.
pub const BALL_SPEED: i64 = 300;

/// The largest screen extent accepted, in micro-pixels (a million pixels).
pub const MAX_EXTENT: i64 = 1_000_000 * UNITS_PER_PIXEL;

/// A position, in micro-pixels.
#[derive(Clone, Copy, Debug, PartialEq, Eq, Structural)]
pub struct Point {
    pub x: i64,
    pub y: i64,
}

/// A velocity, in pixels per second.
#[derive(Clone, Copy, Debug, PartialEq, Eq, Structural)]
pub struct Velocity {
    pub x: i64,
    pub y: i64,
}

/// The drawable surface, in micro-pixels.
#[derive(Clone, Copy, Debug, PartialEq, Eq, Structural)]
pub struct Screen {
    pub width: i64,
    pub height: i64,
}

impl Screen {
    pub open spec fn wf(self) -> bool {
        0 < self.width <= MAX_EXTENT && 0 < self.height <= MAX_EXTENT
    }
}

/// Which movement keys are held during a frame.
#[derive(Clone, Copy, Debug, PartialEq, Eq, Structural)]
pub struct Keys {
    pub player_1_up: bool,
    pub player_1_down: bool,
    pub player_2_up: bool,
    pub player_2_down: bool,
}

/// One frame's input: the time step in microseconds, the held keys and the
/// current screen.
#[derive(Clone, Copy, Debug, PartialEq, Eq, Structural)]
pub struct Frame {
    pub dt: u32,
    pub keys: Keys,
    pub screen: Screen,
}

/// The direction of a serve: whether each velocity component is positive.
#[derive(Clone, Copy, Debug, PartialEq, Eq, Structural)]
pub struct Serve {
    pub x_positive: bool,
    pub y_positive: bool,
}

/// The whole game: two rackets, the ball, and the two scores.
#[derive(Clone, Copy, Debug, PartialEq, Eq, Structural)]
pub struct MainState {
    pub player_1_position: Point,
    pub player_2_position: Point,
    pub ball_position: Point,
    pub ball_velocity: Velocity,
    pub player_1_score: u64,
    pub player_2_score: u64,
}

pub open spec fn abs(v: int) -> int {
    if v < 0 { -v } else { v }
}

pub open spec fn in_extent(v: int) -> bool {
    -MAX_EXTENT <= v <= MAX_EXTENT
}

pub open spec fn clamp_spec(v: int, low: int, high: int) -> int {
    if v < low {
        low
    } else if v > high {
        high
    } else {
        v
    }
}

/// A racket's vertical center after one frame: moved up and down by the
/// held keys, then clamped into the screen.
pub open spec fn racket_y(y: int, up: bool, down: bool, dt: int, screen_h: int) -> int {
    let moved_up = if up { y - PLAYER_SPEED * dt } else { y };
    let moved = if down { moved_up + PLAYER_SPEED * dt } else { moved_up };
    clamp_spec(moved, RACKET_HEIGHT_HALF as int, screen_h - RACKET_HEIGHT_HALF)
}

pub open spec fn serve_velocity(s: Serve) -> Velocity {
    Velocity {
        x: if s.x_positive { BALL_SPEED } else { (-BALL_SPEED) as i64 },
        y: if s.y_positive { BALL_SPEED } else { (-BALL_SPEED) as i64 },
    }
}

pub open spec fn center(screen: Screen) -> Point {
    Point { x: (screen.width / 2) as i64, y: (screen.height / 2) as i64 }
}

/// Axis-aligned overlap of the ball's box and a racket's box.
pub open spec fn overlaps(ball: Point, racket: Point) -> bool {
    &&& ball.x - BALL_SIZE_HALF < racket.x + RACKET_WIDTH_HALF
    &&& ball.x + BALL_SIZE_HALF > racket.x - RACKET_WIDTH_HALF
    &&& ball.y - BALL_SIZE_HALF < racket.y + RACKET_HEIGHT_HALF
    &&& ball.y + BALL_SIZE_HALF > racket.y - RACKET_HEIGHT_HALF
}

impl MainState {
    /// Positions stay within the accepted extent and the ball moves at no
    /// more than `BALL_SPEED` on each axis.
    pub open spec fn wf(self) -> bool {
        &&& in_extent(self.player_1_position.x as int)
        &&& in_extent(self.player_1_position.y as int)
        &&& in_extent(self.player_2_position.x as int)
        &&& in_extent(self.player_2_position.y as int)
        &&& in_extent(self.ball_position.x as int)
        &&& in_extent(self.ball_position.y as int)
        &&& abs(self.ball_velocity.x as int) <= BALL_SPEED
        &&& abs(self.ball_velocity.y as int) <= BALL_SPEED
    }

    /// The state at the start of a game on the given screen.
    pub open spec fn initial(screen: Screen, s: Serve) -> MainState {
        MainState {
            player_1_position: Point { x: (RACKET_WIDTH_HALF + PADDING) as i64, y: (screen.height / 2) as i64 },
            player_2_position: Point {
                x: (screen.width - RACKET_WIDTH_HALF - PADDING) as i64,
                y: (screen.height / 2) as i64,
            },
            ball_position: center(screen),
            ball_velocity: serve_velocity(s),
            player_1_score: 0,
            player_2_score: 0,
        }
    }

    /// Both rackets moved by the frame's keys.
    pub open spec fn after_rackets(self, f: Frame) -> MainState {
        MainState {
            player_1_position: Point {
                y: racket_y(
                    self.player_1_position.y as int,
                    f.keys.player_1_up,
                    f.keys.player_1_down,
                    f.dt as int,
                    f.screen.height as int,
                ) as i64,
                ..self.player_1_position
            },
            player_2_position: Point {
                y: racket_y(
                    self.player_2_position.y as int,
                    f.keys.player_2_up,
                    f.keys.player_2_down,
                    f.dt as int,
                    f.screen.height as int,
                ) as i64,
                ..self.player_2_position
            },
            ..self
        }
    }

    /// The ball moved by its velocity over the time step.
    pub open spec fn after_translation(self, dt: int) -> MainState {
        MainState {
            ball_position: Point {
                x: (self.ball_position.x + self.ball_velocity.x * dt) as i64,
                y: (self.ball_position.y + self.ball_velocity.y * dt) as i64,
            },
            ..self
        }
    }

    /// The ball recentered with a new velocity.
    pub open spec fn served(self, screen: Screen, s: Serve) -> MainState {
        MainState { ball_position: center(screen), ball_velocity: serve_velocity(s), ..self }
    }

    /// Past the left edge the right side scores; past the right edge the
    /// left side scores. Both checks are made, in that order.
    pub open spec fn after_scoring(self, screen: Screen, left: Serve, right: Serve) -> MainState {
        let a = if self.ball_position.x < 0 {
            MainState {
                player_2_score: (self.player_2_score + 1) as u64,
                ..self.served(screen, left)
            }
        } else {
            self
        };
        if a.ball_position.x > screen.width {
            MainState { player_1_score: (a.player_1_score + 1) as u64, ..a.served(screen, right) }
        } else {
            a
        }
    }

    /// The ball kept off the top and bottom walls, its vertical velocity
    /// pointing back into the field.
    pub open spec fn after_bounce(self, screen_h: int) -> MainState {
        if self.ball_position.y < BALL_SIZE_HALF {
            MainState {
                ball_position: Point { y: BALL_SIZE_HALF, ..self.ball_position },
                ball_velocity: Velocity {
                    y: abs(self.ball_velocity.y as int) as i64,
                    ..self.ball_velocity
                },
                ..self
            }
        } else if self.ball_position.y > screen_h - BALL_SIZE_HALF {
            MainState {
                ball_position: Point { y: (screen_h - BALL_SIZE_HALF) as i64, ..self.ball_position },
                ball_velocity: Velocity {
                    y: -abs(self.ball_velocity.y as int) as i64,
                    ..self.ball_velocity
                },
                ..self
            }
        } else {
            self
        }
    }

    /// A ball overlapping the left racket moves right; one overlapping the
    /// right racket moves left.
    pub open spec fn after_collision(self) -> MainState {
        let vx1 = if overlaps(self.ball_position, self.player_1_position) {
            abs(self.ball_velocity.x as int)
        } else {
            self.ball_velocity.x as int
        };
        let vx2 = if overlaps(self.ball_position, self.player_2_position) {
            -abs(vx1)
        } else {
            vx1
        };
        MainState { ball_velocity: Velocity { x: vx2 as i64, ..self.ball_velocity }, ..self }
    }

    /// One frame of play, with the serves used should either side score.
    pub open spec fn step(self, f: Frame, left: Serve, right: Serve) -> MainState {
        self.after_rackets(f).after_translation(f.dt as int).after_scoring(
            f.screen,
            left,
            right,
        ).after_bounce(f.screen.height as int).after_collision()
    }
}


/// Relies on rand::random::<bool>: a fair coin drawn from the thread-local
/// generator. Nothing is promised of the outcome.
#[verifier::external_body]
fn coin() -> (r: bool) {
    rand::random::<bool>()
}

/// Moves `value` into `[low, high]`: up to `low` when below it, else down to
/// `high` when above it.
pub fn clamp(value: &mut i64, low: i64, high: i64)
    ensures
        *final(value) == clamp_spec(*old(value) as int, low as int, high as int),
{
    if *value < low {
        *value = low;
    } else if *value > high {
        *value = high;
    }
}

/// Moves a racket's vertical center up and down by the held keys over `dt`
/// microseconds, then clamps it into the screen.
pub fn move_racket(y: &mut i64, up: bool, down: bool, dt: u32, screen_h: i64)
    requires
        in_extent(*old(y) as int),
        0 < screen_h <= MAX_EXTENT,
    ensures
        *final(y) == racket_y(*old(y) as int, up, down, dt as int, screen_h as int),
        in_extent(*final(y) as int),
        screen_h >= RACKET_HEIGHT ==> RACKET_HEIGHT_HALF <= *final(y) <= screen_h
            - RACKET_HEIGHT_HALF,
{
    let step: i64 = PLAYER_SPEED * dt as i64;
    let mut moved: i64 = *y;
    if up {
        moved = moved - step;
    }
    if down {
        moved = moved + step;
    }
    clamp(&mut moved, RACKET_HEIGHT_HALF, screen_h - RACKET_HEIGHT_HALF);
    *y = moved;
}

/// The velocity of a serve in the given direction.
pub fn serve_velocity_of(s: Serve) -> (r: Velocity)
    ensures
        r == serve_velocity(s),
{
    signed_velocity(s.x_positive, s.y_positive, BALL_SPEED, BALL_SPEED)
}

/// A serve direction drawn at random, each component independently.
pub fn random_serve() -> (r: Serve) {
    let x_positive = coin();
    let y_positive = coin();
    Serve { x_positive, y_positive }
}

pub open spec fn signed(positive: bool, v: int) -> int {
    if positive { v } else { -v }
}

/// A velocity of the given magnitudes on each axis, with the given signs.
pub fn signed_velocity(x_positive: bool, y_positive: bool, x: i64, y: i64) -> (r: Velocity)
    requires
        x > i64::MIN,
        y > i64::MIN,
    ensures
        r.x == signed(x_positive, x as int),
        r.y == signed(y_positive, y as int),
{
    Velocity { x: if x_positive { x } else { -x }, y: if y_positive { y } else { -y } }
}

/// Sets each component of `vec` to plus or minus the given value, the signs
/// drawn at random.
pub fn randomize_vec(vec: &mut Velocity, x: i64, y: i64)
    requires
        x > i64::MIN,
        y > i64::MIN,
    ensures
        exists|x_positive: bool, y_positive: bool|
            final(vec).x == signed(x_positive, x as int) && final(vec).y == signed(
                y_positive,
                y as int,
            ),
{
    let x_positive = coin();
    let y_positive = coin();
    *vec = signed_velocity(x_positive, y_positive, x, y);
}

/// Whether the ball's box overlaps a racket's box.
pub fn intersects(ball: Point, racket: Point) -> (r: bool)
    requires
        in_extent(ball.x as int),
        in_extent(ball.y as int),
        in_extent(racket.x as int),
        in_extent(racket.y as int),
    ensures
        r == overlaps(ball, racket),
{
    ball.x - BALL_SIZE_HALF < racket.x + RACKET_WIDTH_HALF
        && ball.x + BALL_SIZE_HALF > racket.x - RACKET_WIDTH_HALF
        && ball.y - BALL_SIZE_HALF < racket.y + RACKET_HEIGHT_HALF
        && ball.y + BALL_SIZE_HALF > racket.y - RACKET_HEIGHT_HALF
}

impl MainState {
    /// A new game on the given screen, served in the given direction: the
    /// rackets `PADDING` in from each side and vertically centered, the ball
    /// at the center, both scores zero.
    pub fn with_serve(screen: Screen, serve: Serve) -> (r: MainState)
        requires
            screen.wf(),
        ensures
            r == MainState::initial(screen, serve),
            r.wf(),
    {
        let half_w = screen.width / 2;
        let half_h = screen.height / 2;
        MainState {
            player_1_position: Point { x: RACKET_WIDTH_HALF + PADDING, y: half_h },
            player_2_position: Point { x: screen.width - RACKET_WIDTH_HALF - PADDING, y: half_h },
            ball_position: Point { x: half_w, y: half_h },
            ball_velocity: serve_velocity_of(serve),
            player_1_score: 0,
            player_2_score: 0,
        }
    }

    /// A new game on the given screen, served in a random direction.
    pub fn new(screen: Screen) -> (r: MainState)
        requires
            screen.wf(),
        ensures
            exists|s: Serve| r == MainState::initial(screen, s),
            r.wf(),
    {
        let mut ball_velocity = Velocity { x: 10, y: 5 };
        randomize_vec(&mut ball_velocity, BALL_SPEED, BALL_SPEED);
        let serve = Serve { x_positive: ball_velocity.x > 0, y_positive: ball_velocity.y > 0 };
        MainState::with_serve(screen, serve)
    }

    /// Recenters the ball on the screen and gives it the serve's velocity.
    pub fn serve(&mut self, screen: Screen, serve: Serve)
        requires
            screen.wf(),
        ensures
            *final(self) == old(self).served(screen, serve),
            final(self).ball_position == center(screen),
            abs(final(self).ball_velocity.x as int) == BALL_SPEED,
            abs(final(self).ball_velocity.y as int) == BALL_SPEED,
    {
        self.ball_position = Point { x: screen.width / 2, y: screen.height / 2 };
        self.ball_velocity = serve_velocity_of(serve);
    }

    /// Forces the ball's horizontal velocity away from any racket it overlaps.
    pub fn collide(&mut self)
        requires
            old(self).wf(),
        ensures
            *final(self) == old(self).after_collision(),
            final(self).wf(),
    {
        if intersects(self.ball_position, self.player_1_position) {
            self.ball_velocity.x = if self.ball_velocity.x < 0 {
                -self.ball_velocity.x
            } else {
                self.ball_velocity.x
            };
        }
        if intersects(self.ball_position, self.player_2_position) {
            self.ball_velocity.x = if self.ball_velocity.x < 0 {
                self.ball_velocity.x
            } else {
                -self.ball_velocity.x
            };
        }
    }

    /// Keeps the ball off the top and bottom walls. The ball may start up to
    /// one frame's travel beyond the extent that the rest of the state keeps.
    pub fn bounce(&mut self, screen_h: i64)
        requires
            (MainState {
                ball_position: Point { y: 0, ..old(self).ball_position },
                ..*old(self)
            }).wf(),
            -3 * MAX_EXTENT <= old(self).ball_position.y <= 3 * MAX_EXTENT,
            0 < screen_h <= MAX_EXTENT,
        ensures
            *final(self) == old(self).after_bounce(screen_h as int),
            final(self).wf(),
    {
        if self.ball_position.y < BALL_SIZE_HALF {
            self.ball_position.y = BALL_SIZE_HALF;
            self.ball_velocity.y = if self.ball_velocity.y < 0 {
                -self.ball_velocity.y
            } else {
                self.ball_velocity.y
            };
        } else if self.ball_position.y > screen_h - BALL_SIZE_HALF {
            self.ball_position.y = screen_h - BALL_SIZE_HALF;
            self.ball_velocity.y = if self.ball_velocity.y < 0 {
                self.ball_velocity.y
            } else {
                -self.ball_velocity.y
            };
        }
    }

    /// One frame of play. Should a side score, the ball is served with
    /// `left` when it left by the left edge and `right` by the right edge.
    pub fn update_with_serves(&mut self, frame: Frame, left: Serve, right: Serve)
        requires
            old(self).wf(),
            frame.screen.wf(),
            old(self).player_1_score < u64::MAX,
            old(self).player_2_score < u64::MAX,
        ensures
            *final(self) == old(self).step(frame, left, right),
            final(self).wf(),
    {
        let screen = frame.screen;
        move_racket(
            &mut self.player_1_position.y,
            frame.keys.player_1_up,
            frame.keys.player_1_down,
            frame.dt,
            screen.height,
        );
        move_racket(
            &mut self.player_2_position.y,
            frame.keys.player_2_up,
            frame.keys.player_2_down,
            frame.dt,
            screen.height,
        );

        let dt = frame.dt as i64;
        let vx = self.ball_velocity.x;
        let vy = self.ball_velocity.y;
        assert(-BALL_SPEED * u32::MAX <= vx * dt <= BALL_SPEED * u32::MAX) by (nonlinear_arith)
            requires
                abs(vx as int) <= BALL_SPEED,
                0 <= dt <= u32::MAX,
        ;
        assert(-BALL_SPEED * u32::MAX <= vy * dt <= BALL_SPEED * u32::MAX) by (nonlinear_arith)
            requires
                abs(vy as int) <= BALL_SPEED,
                0 <= dt <= u32::MAX,
        ;
        self.ball_position.x = self.ball_position.x + self.ball_velocity.x * dt;
        self.ball_position.y = self.ball_position.y + self.ball_velocity.y * dt;

        if self.ball_position.x < 0 {
            self.serve(screen, left);
            self.player_2_score = self.player_2_score + 1;
        }
        if self.ball_position.x > screen.width {
            self.serve(screen, right);
            self.player_1_score = self.player_1_score + 1;
        }
        self.bounce(screen.height);
        self.collide();
    }

    /// One frame of play, serving in a random direction should a side score.
    pub fn update(&mut self, frame: Frame)
        requires
            old(self).wf(),
            frame.screen.wf(),
            old(self).player_1_score < u64::MAX,
            old(self).player_2_score < u64::MAX,
        ensures
            exists|left: Serve, right: Serve| *final(self) == old(self).step(frame, left, right),
            final(self).wf(),
            final(self).player_1_position.x == old(self).player_1_position.x,
            final(self).player_2_position.x == old(self).player_2_position.x,
            frame.screen.height >= RACKET_HEIGHT ==> {
                &&& RACKET_HEIGHT_HALF <= final(self).player_1_position.y <= frame.screen.height
                    - RACKET_HEIGHT_HALF
                &&& RACKET_HEIGHT_HALF <= final(self).player_2_position.y <= frame.screen.height
                    - RACKET_HEIGHT_HALF
            },
            final(self).player_1_score <= old(self).player_1_score + 1,
            final(self).player_2_score <= old(self).player_2_score + 1,
            final(self).player_1_score + final(self).player_2_score <= old(self).player_1_score
                + old(self).player_2_score + 1,
            ({
                let scored = final(self).player_1_score != old(self).player_1_score
                    || final(self).player_2_score != old(self).player_2_score;
                (scored && frame.screen.height >= BALL_SIZE) ==> {
                    &&& final(self).ball_position == center(frame.screen)
                    &&& abs(final(self).ball_velocity.x as int) == BALL_SPEED
                    &&& abs(final(self).ball_velocity.y as int) == BALL_SPEED
                }
            }),
            ({
                let h = frame.screen.height as int;
                let nx = old(self).ball_position.x + old(self).ball_velocity.x * frame.dt;
                let ny = old(self).ball_position.y + old(self).ball_velocity.y * frame.dt;
                let n = *final(self);
                (0 <= nx <= frame.screen.width) ==> {
                    &&& n.player_1_score == old(self).player_1_score
                    &&& n.player_2_score == old(self).player_2_score
                    &&& n.ball_position.x == nx
                    &&& ny < BALL_SIZE_HALF ==> n.ball_position.y == BALL_SIZE_HALF
                        && n.ball_velocity.y == abs(old(self).ball_velocity.y as int)
                    &&& (ny >= BALL_SIZE_HALF && ny > h - BALL_SIZE_HALF) ==> n.ball_position.y
                        == h - BALL_SIZE_HALF && n.ball_velocity.y == -abs(
                        old(self).ball_velocity.y as int,
                    )
                    &&& (BALL_SIZE_HALF <= ny <= h - BALL_SIZE_HALF) ==> n.ball_position.y == ny
                        && n.ball_velocity.y == old(self).ball_velocity.y
                    &&& overlaps(n.ball_position, n.player_2_position) ==> n.ball_velocity.x
                        == -abs(old(self).ball_velocity.x as int)
                    &&& (overlaps(n.ball_position, n.player_1_position) && !overlaps(
                        n.ball_position,
                        n.player_2_position,
                    )) ==> n.ball_velocity.x == abs(old(self).ball_velocity.x as int)
                    &&& (!overlaps(n.ball_position, n.player_1_position) && !overlaps(
                        n.ball_position,
                        n.player_2_position,
                    )) ==> n.ball_velocity.x == old(self).ball_velocity.x
                }
            }),
    {
        let left = random_serve();
        let right = random_serve();
        proof {
            let dt = frame.dt as int;
            let vx = self.ball_velocity.x as int;
            let vy = self.ball_velocity.y as int;
            assert(-BALL_SPEED * u32::MAX <= vx * dt <= BALL_SPEED * u32::MAX) by (nonlinear_arith)
                requires
                    abs(vx) <= BALL_SPEED,
                    0 <= dt <= u32::MAX,
            ;
            assert(-BALL_SPEED * u32::MAX <= vy * dt <= BALL_SPEED * u32::MAX) by (nonlinear_arith)
                requires
                    abs(vy) <= BALL_SPEED,
                    0 <= dt <= u32::MAX,
            ;
        }
        self.update_with_serves(frame, left, right);
    }
}

} // verus!
