//! The playfield: two paddles, one ball, four walls, the score and the pause
//! flag, advanced one fixed tick at a time.
use vstd::prelude::*;

use crate::geometry::{collide, collision_of, overlaps, Aabb, Collision, Size, Vec2};

verus! {

/// Sub-pixel units in one pixel.
pub const UNITS_PER_PIXEL: i64 = 120;

/// Fixed ticks in one second; velocities are given in units per tick.
pub const TICKS_PER_SECOND: i64 = 60;

/// Full width of the playfield.
pub const WIDTH: i64 = 800 * UNITS_PER_PIXEL;

/// Full height of the playfield.
pub const HEIGHT: i64 = 600 * UNITS_PER_PIXEL;

pub const PADDLE_WIDTH: u64 = 2400;

pub const PADDLE_HEIGHT: u64 = 12000;

/// Paddle displacement per tick while a key is held (400 pixels a second).
pub const PADDLE_SPEED: i64 = 800;

/// Highest center a paddle may reach: its top edge meets the field's top.
pub const UP_BOUND: i64 = (300 - 50) * UNITS_PER_PIXEL;

/// Lowest center a paddle may reach.
pub const DOWN_BOUND: i64 = -UP_BOUND;

/// Distance of either paddle's center from the vertical middle line.
pub const PADDLE_X: i64 = (400 - 20) * UNITS_PER_PIXEL;

/// Side of the square ball.
pub const BALL_SIZE: u64 = 3600;

pub const BALL_START_X: i64 = 0;

pub const BALL_START_Y: i64 = 0;

/// Each component of the first serve: 500 pixels a second along the
/// diagonal, rounded to whole units per tick.
pub const INITIAL_BALL_SPEED: i64 = 707;

/// Thickness of each wall.
pub const WALL_WIDTH: u64 = 1200;

/// Distance of the side walls' centers from the middle line.
pub const WALL_X: i64 = (400 + 10) * UNITS_PER_PIXEL;

/// Distance of the top and bottom walls' centers from the middle line.
pub const WALL_Y: i64 = (300 + 10) * UNITS_PER_PIXEL;

/// What a collider is, for scoring: touching `WallL` scores for the right
/// player, touching `WallR` for the left player.
#[derive(Clone, Copy, Debug, PartialEq, Eq, Structural)]
pub enum ColliderKind {
    Paddle,
    Wall,
    WallL,
    WallR,
}

/// A box the ball bounces off.
#[derive(Clone, Copy, Debug, PartialEq, Eq, Structural)]
pub struct Collider {
    pub bounds: Aabb,
    pub kind: ColliderKind,
}

/// Scores and the pause flag.
#[derive(Clone, Copy, Debug, PartialEq, Eq, Structural)]
pub struct Game {
    /// Points of the left player.
    pub p1: u64,
    /// Points of the right player.
    pub p2: u64,
    pub paused: bool,
}

/// Keys held during one tick.
#[derive(Clone, Copy, Debug, PartialEq, Eq, Structural)]
pub struct Input {
    pub p1_up: bool,
    pub p1_down: bool,
    pub p2_up: bool,
    pub p2_down: bool,
}

/// The whole simulation state. The paddles' x positions and all sizes are
/// fixed; only what changes is held here.
#[derive(Clone, Copy, Debug, PartialEq, Eq, Structural)]
pub struct Pong {
    pub game: Game,
    pub ball_pos: Vec2,
    /// Ball displacement per tick.
    pub ball_vel: Vec2,
    pub p1_y: i64,
    pub p2_y: i64,
}

pub open spec fn ball_start() -> Vec2 {
    Vec2 { x: BALL_START_X, y: BALL_START_Y }
}

pub open spec fn ball_box(pos: Vec2) -> Aabb {
    Aabb { center: pos, size: Size { w: BALL_SIZE, h: BALL_SIZE } }
}

pub open spec fn paddle_box(x: i64, y: i64) -> Aabb {
    Aabb { center: Vec2 { x, y }, size: Size { w: PADDLE_WIDTH, h: PADDLE_HEIGHT } }
}

pub open spec fn left_wall() -> Collider {
    Collider {
        bounds: Aabb {
            center: Vec2 { x: (-WALL_X) as i64, y: 0 },
            size: Size { w: WALL_WIDTH, h: HEIGHT as u64 },
        },
        kind: ColliderKind::WallL,
    }
}

pub open spec fn right_wall() -> Collider {
    Collider {
        bounds: Aabb {
            center: Vec2 { x: WALL_X, y: 0 },
            size: Size { w: WALL_WIDTH, h: HEIGHT as u64 },
        },
        kind: ColliderKind::WallR,
    }
}

pub open spec fn top_wall() -> Collider {
    Collider {
        bounds: Aabb {
            center: Vec2 { x: 0, y: WALL_Y },
            size: Size { w: WIDTH as u64, h: WALL_WIDTH },
        },
        kind: ColliderKind::Wall,
    }
}

pub open spec fn bottom_wall() -> Collider {
    Collider {
        bounds: Aabb {
            center: Vec2 { x: 0, y: (-WALL_Y) as i64 },
            size: Size { w: WIDTH as u64, h: WALL_WIDTH },
        },
        kind: ColliderKind::Wall,
    }
}

/// Everything the ball is tested against, in the order it is tested.
pub open spec fn colliders_of(s: Pong) -> Seq<Collider> {
    seq![
        Collider { bounds: paddle_box((-PADDLE_X) as i64, s.p1_y), kind: ColliderKind::Paddle },
        Collider { bounds: paddle_box(PADDLE_X, s.p2_y), kind: ColliderKind::Paddle },
        left_wall(),
        right_wall(),
        top_wall(),
        bottom_wall(),
    ]
}

pub open spec fn clamp(v: int, low: int, high: int) -> int {
    if v < low {
        low
    } else if v > high {
        high
    } else {
        v
    }
}

/// +1 for up, -1 for down, 0 for both or neither.
pub open spec fn direction(up: bool, down: bool) -> int {
    (if up { 1int } else { 0int }) - (if down { 1int } else { 0int })
}

/// Where a paddle at `y` goes in one unpaused tick toward `dir`.
pub open spec fn paddle_target(y: int, dir: int) -> int {
    clamp(y + dir * PADDLE_SPEED, DOWN_BOUND as int, UP_BOUND as int)
}

/// The state at the start of a match.
pub open spec fn initial() -> Pong {
    Pong {
        game: Game { p1: 0, p2: 0, paused: true },
        ball_pos: ball_start(),
        ball_vel: Vec2 { x: INITIAL_BALL_SPEED, y: INITIAL_BALL_SPEED },
        p1_y: 0,
        p2_y: 0,
    }
}

/// Both components of `pos + vel * dt` fit in `i64`.
pub open spec fn advance_fits(pos: Vec2, vel: Vec2, dt: int) -> bool {
    i64::MIN <= pos.x + vel.x * dt <= i64::MAX && i64::MIN <= pos.y + vel.y * dt <= i64::MAX
}

pub open spec fn advanced(pos: Vec2, vel: Vec2, dt: int) -> Vec2 {
    Vec2 { x: (pos.x + vel.x * dt) as i64, y: (pos.y + vel.y * dt) as i64 }
}

/// The ball after one tick of motion: unmoved while paused.
pub open spec fn ball_moved(s: Pong) -> Pong {
    if s.game.paused {
        s
    } else {
        Pong { ball_pos: advanced(s.ball_pos, s.ball_vel, 1), ..s }
    }
}

/// Any key of a player clears the pause; the paddle then moves unless paused.
pub open spec fn after_keys(paused: bool, up: bool, down: bool) -> bool {
    paused && !up && !down
}

pub open spec fn p1_moved(s: Pong, up: bool, down: bool) -> Pong {
    let paused = after_keys(s.game.paused, up, down);
    Pong {
        game: Game { paused, ..s.game },
        p1_y: if paused { s.p1_y } else { paddle_target(s.p1_y as int, direction(up, down)) as i64 },
        ..s
    }
}

pub open spec fn p2_moved(s: Pong, up: bool, down: bool) -> Pong {
    let paused = after_keys(s.game.paused, up, down);
    Pong {
        game: Game { paused, ..s.game },
        p2_y: if paused { s.p2_y } else { paddle_target(s.p2_y as int, direction(up, down)) as i64 },
        ..s
    }
}

/// The velocity after contact on `side`: the component toward that side
/// flips sign; a velocity already moving away, or an `Inside` contact, is kept.
pub open spec fn bounced(v: Vec2, side: Collision) -> Vec2 {
    match side {
        Collision::Left => if v.x > 0 { Vec2 { x: (-v.x) as i64, y: v.y } } else { v },
        Collision::Right => if v.x < 0 { Vec2 { x: (-v.x) as i64, y: v.y } } else { v },
        Collision::Top => if v.y < 0 { Vec2 { x: v.x, y: (-v.y) as i64 } } else { v },
        Collision::Bottom => if v.y > 0 { Vec2 { x: v.x, y: (-v.y) as i64 } } else { v },
        Collision::Inside => v,
    }
}

pub open spec fn speed_sq(v: Vec2) -> int {
    v.x * v.x + v.y * v.y
}

/// Touching `c` ends the rally.
pub open spec fn scores_event(s: Pong, c: Collider) -> bool {
    collision_of(ball_box(s.ball_pos), c.bounds) is Some && (c.kind == ColliderKind::WallL
        || c.kind == ColliderKind::WallR)
}

/// The state after testing the ball against one collider.
pub open spec fn touched(s: Pong, c: Collider) -> Pong {
    match collision_of(ball_box(s.ball_pos), c.bounds) {
        None => s,
        Some(side) => Pong {
            game: Game {
                p1: if c.kind == ColliderKind::WallR { (s.game.p1 + 1) as u64 } else { s.game.p1 },
                p2: if c.kind == ColliderKind::WallL { (s.game.p2 + 1) as u64 } else { s.game.p2 },
                paused: s.game.paused,
            },
            ball_vel: bounced(s.ball_vel, side),
            ..s
        },
    }
}

/// The state after testing the ball against the first `n` of `cs`.
pub open spec fn after_first(s: Pong, cs: Seq<Collider>, n: nat) -> Pong
    decreases n,
{
    if n == 0 {
        s
    } else {
        touched(after_first(s, cs, (n - 1) as nat), cs[n - 1])
    }
}

/// Score events raised while testing against the first `n` of `cs`.
pub open spec fn events_in_first(s: Pong, cs: Seq<Collider>, n: nat) -> nat
    decreases n,
{
    if n == 0 {
        0
    } else {
        events_in_first(s, cs, (n - 1) as nat) + if scores_event(
            after_first(s, cs, (n - 1) as nat),
            cs[n - 1],
        ) {
            1nat
        } else {
            0nat
        }
    }
}

pub open spec fn collided(s: Pong) -> Pong {
    after_first(s, colliders_of(s), 6)
}

pub open spec fn collision_events(s: Pong) -> nat {
    events_in_first(s, colliders_of(s), 6)
}

/// Consuming score events: any pending event pauses play and puts the ball
/// back at the start, keeping its velocity.
pub open spec fn reset_after(s: Pong, events: nat) -> Pong {
    if events > 0 {
        Pong { game: Game { paused: true, ..s.game }, ball_pos: ball_start(), ..s }
    } else {
        s
    }
}

/// The state before the collision pass of a tick.
pub open spec fn moved(s: Pong, i: Input) -> Pong {
    p2_moved(p1_moved(ball_moved(s), i.p1_up, i.p1_down), i.p2_up, i.p2_down)
}

/// One whole tick.
pub open spec fn ticked(s: Pong, i: Input) -> Pong {
    let m = moved(s, i);
    reset_after(collided(m), collision_events(m))
}

impl Pong {
    /// Paddles within their bounds; velocity components that can flip sign.
    pub open spec fn wf(self) -> bool {
        DOWN_BOUND <= self.p1_y <= UP_BOUND && DOWN_BOUND <= self.p2_y <= UP_BOUND
            && self.ball_vel.x > i64::MIN && self.ball_vel.y > i64::MIN
    }

    /// The scores can take every increment of one tick.
    pub open spec fn score_room(self) -> bool {
        self.game.p1 + 6 <= u64::MAX && self.game.p2 + 6 <= u64::MAX
    }

    /// The ball can take its next step.
    pub open spec fn can_move(self) -> bool {
        !self.game.paused ==> advance_fits(self.ball_pos, self.ball_vel, 1)
    }
}

/// The ball's position after `dt` ticks at velocity `vel`.
pub fn advance(pos: Vec2, vel: Vec2, dt: i64) -> (r: Vec2)
    requires
        advance_fits(pos, vel, dt as int),
    ensures
        r == advanced(pos, vel, dt as int),
        r.x == pos.x + vel.x * dt,
        r.y == pos.y + vel.y * dt,
{
    let dt = dt as i128;
    let vx = vel.x as i128;
    let vy = vel.y as i128;
    assert(-0x4000_0000_0000_0000_0000_0000_0000_0000 <= vx * dt <= 0x4000_0000_0000_0000_0000_0000_0000_0000)
        by (nonlinear_arith)
        requires
            -0x8000_0000_0000_0000 <= vx <= 0x7fff_ffff_ffff_ffff,
            -0x8000_0000_0000_0000 <= dt <= 0x7fff_ffff_ffff_ffff,
    ;
    assert(-0x4000_0000_0000_0000_0000_0000_0000_0000 <= vy * dt <= 0x4000_0000_0000_0000_0000_0000_0000_0000)
        by (nonlinear_arith)
        requires
            -0x8000_0000_0000_0000 <= vy <= 0x7fff_ffff_ffff_ffff,
            -0x8000_0000_0000_0000 <= dt <= 0x7fff_ffff_ffff_ffff,
    ;
    Vec2 { x: (pos.x as i128 + vx * dt) as i64, y: (pos.y as i128 + vy * dt) as i64 }
}

/// The velocity after a contact on `side` (see `bounced`). Speed is kept
/// exactly.
pub fn bounce(v: Vec2, side: Collision) -> (r: Vec2)
    requires
        v.x > i64::MIN,
        v.y > i64::MIN,
    ensures
        r == bounced(v, side),
        speed_sq(r) == speed_sq(v),
        r.x == v.x || r.x == -v.x,
        r.y == v.y || r.y == -v.y,
        r.x > i64::MIN,
        r.y > i64::MIN,
{
    let mut r = v;
    match side {
        Collision::Left => if v.x > 0 {
            r.x = -v.x;
        },
        Collision::Right => if v.x < 0 {
            r.x = -v.x;
        },
        Collision::Top => if v.y < 0 {
            r.y = -v.y;
        },
        Collision::Bottom => if v.y > 0 {
            r.y = -v.y;
        },
        Collision::Inside => {},
    }
    assert((-v.x) * (-v.x) == v.x * v.x) by (nonlinear_arith);
    assert((-v.y) * (-v.y) == v.y * v.y) by (nonlinear_arith);
    r
}

/// The center a paddle at `y` moves to in one tick toward `dir`, kept
/// within `[DOWN_BOUND, UP_BOUND]`.
pub fn paddle_step(y: i64, dir: i8) -> (r: i64)
    ensures
        r == paddle_target(y as int, dir as int),
        DOWN_BOUND <= r <= UP_BOUND,
{
    let t = y as i128 + dir as i128 * (PADDLE_SPEED as i128);
    if t < DOWN_BOUND as i128 {
        DOWN_BOUND
    } else if t > UP_BOUND as i128 {
        UP_BOUND
    } else {
        t as i64
    }
}

/// +1 for up, -1 for down, 0 for both or neither.
pub fn key_direction(up: bool, down: bool) -> (r: i8)
    ensures
        r == direction(up, down),
{
    let mut d: i8 = 0;
    if up {
        d = d + 1;
    }
    if down {
        d = d - 1;
    }
    d
}

impl Pong {
    /// A new match: no points, paused, ball at the start with its first
    /// serve, both paddles centered.
    pub fn new() -> (r: Pong)
        ensures
            r == initial(),
            r.wf(),
    {
        Pong {
            game: Game { p1: 0, p2: 0, paused: true },
            ball_pos: Vec2 { x: BALL_START_X, y: BALL_START_Y },
            ball_vel: Vec2 { x: INITIAL_BALL_SPEED, y: INITIAL_BALL_SPEED },
            p1_y: 0,
            p2_y: 0,
        }
    }

    /// The ball's bounding box.
    pub fn ball_bounds(&self) -> (r: Aabb)
        ensures
            r == ball_box(self.ball_pos),
    {
        Aabb { center: self.ball_pos, size: Size { w: BALL_SIZE, h: BALL_SIZE } }
    }

    /// The paddles and the four walls, in the order the ball is tested
    /// against them.
    pub fn colliders(&self) -> (r: Vec<Collider>)
        ensures
            r@ == colliders_of(*self),
    {
        let paddle = Size { w: PADDLE_WIDTH, h: PADDLE_HEIGHT };
        let side = Size { w: WALL_WIDTH, h: HEIGHT as u64 };
        let flat = Size { w: WIDTH as u64, h: WALL_WIDTH };
        let mut r: Vec<Collider> = Vec::new();
        r.push(
            Collider {
                bounds: Aabb { center: Vec2 { x: -PADDLE_X, y: self.p1_y }, size: paddle },
                kind: ColliderKind::Paddle,
            },
        );
        r.push(
            Collider {
                bounds: Aabb { center: Vec2 { x: PADDLE_X, y: self.p2_y }, size: paddle },
                kind: ColliderKind::Paddle,
            },
        );
        r.push(
            Collider {
                bounds: Aabb { center: Vec2 { x: -WALL_X, y: 0 }, size: side },
                kind: ColliderKind::WallL,
            },
        );
        r.push(
            Collider {
                bounds: Aabb { center: Vec2 { x: WALL_X, y: 0 }, size: side },
                kind: ColliderKind::WallR,
            },
        );
        r.push(
            Collider {
                bounds: Aabb { center: Vec2 { x: 0, y: WALL_Y }, size: flat },
                kind: ColliderKind::Wall,
            },
        );
        r.push(
            Collider {
                bounds: Aabb { center: Vec2 { x: 0, y: -WALL_Y }, size: flat },
                kind: ColliderKind::Wall,
            },
        );
        assert(r@ =~= colliders_of(*self));
        r
    }

    /// Tests the ball against one collider: on contact, scores for the
    /// player a scoring wall belongs to and bounces the ball. Returns whether
    /// a score event was raised.
    pub fn touch(&mut self, c: &Collider) -> (scored: bool)
        requires
            old(self).wf(),
            old(self).game.p1 < u64::MAX,
            old(self).game.p2 < u64::MAX,
        ensures
            *final(self) == touched(*old(self), *c),
            scored == scores_event(*old(self), *c),
            final(self).wf(),
            final(self).game.p1 <= old(self).game.p1 + 1,
            final(self).game.p2 <= old(self).game.p2 + 1,
    {
        let ball = self.ball_bounds();
        match collide(&ball, &c.bounds) {
            None => false,
            Some(side) => {
                let mut scored = false;
                if c.kind == ColliderKind::WallL {
                    self.game.p2 = self.game.p2 + 1;
                    scored = true;
                }
                if c.kind == ColliderKind::WallR {
                    self.game.p1 = self.game.p1 + 1;
                    scored = true;
                }
                self.ball_vel = bounce(self.ball_vel, side);
                scored
            },
        }
    }

    /// Tests the ball against every collider, none skipped, and returns how
    /// many score events were raised.
    pub fn check_for_collisions(&mut self) -> (events: u32)
        requires
            old(self).wf(),
            old(self).score_room(),
        ensures
            *final(self) == collided(*old(self)),
            events == collision_events(*old(self)),
            final(self).wf(),
            speed_sq(final(self).ball_vel) == speed_sq(old(self).ball_vel),
            final(self).game.p1 == old(self).game.p1 + if collision_of(
                ball_box(old(self).ball_pos),
                right_wall().bounds,
            ) is Some {
                1int
            } else {
                0int
            },
            final(self).game.p2 == old(self).game.p2 + if collision_of(
                ball_box(old(self).ball_pos),
                left_wall().bounds,
            ) is Some {
                1int
            } else {
                0int
            },
    {
        proof {
            lemma_pass_keeps_speed(*self, colliders_of(*self), 6);
            lemma_pass_scores(*self);
        }
        let cs = self.colliders();
        let ghost s0 = *self;
        let mut events: u32 = 0;
        let mut i: usize = 0;
        while i < cs.len()
            invariant
                cs@ == colliders_of(s0),
                0 <= i <= cs.len(),
                *self == after_first(s0, cs@, i as nat),
                events == events_in_first(s0, cs@, i as nat),
                events <= i,
                self.wf(),
                self.game.p1 + 6 - i <= u64::MAX,
                self.game.p2 + 6 - i <= u64::MAX,
            decreases cs.len() - i,
        {
            let scored = self.touch(&cs[i]);
            if scored {
                events = events + 1;
            }
            i = i + 1;
        }
        events
    }

    /// Moves the ball by one tick of its velocity, unless paused.
    pub fn move_ball(&mut self)
        requires
            old(self).can_move(),
        ensures
            *final(self) == ball_moved(*old(self)),
    {
        if !self.game.paused {
            self.ball_pos = advance(self.ball_pos, self.ball_vel, 1);
        }
    }

    /// The left player's keys: either one clears the pause; unless still
    /// paused, the paddle then moves toward the held key, kept in bounds.
    pub fn move_p1(&mut self, up: bool, down: bool)
        ensures
            *final(self) == p1_moved(*old(self), up, down),
            DOWN_BOUND <= old(self).p1_y <= UP_BOUND ==> DOWN_BOUND <= final(self).p1_y
                <= UP_BOUND,
    {
        if up || down {
            self.game.paused = false;
        }
        if !self.game.paused {
            self.p1_y = paddle_step(self.p1_y, key_direction(up, down));
        }
    }

    /// The right player's keys, as `move_p1`.
    pub fn move_p2(&mut self, up: bool, down: bool)
        ensures
            *final(self) == p2_moved(*old(self), up, down),
            DOWN_BOUND <= old(self).p2_y <= UP_BOUND ==> DOWN_BOUND <= final(self).p2_y
                <= UP_BOUND,
    {
        if up || down {
            self.game.paused = false;
        }
        if !self.game.paused {
            self.p2_y = paddle_step(self.p2_y, key_direction(up, down));
        }
    }

    /// Consumes this tick's score events: if there was any, play pauses and
    /// the ball goes back to the start with its velocity unchanged.
    pub fn ball_collision(&mut self, events: u32)
        ensures
            *final(self) == reset_after(*old(self), events as nat),
            events > 0 ==> final(self).game.paused && final(self).ball_pos == ball_start()
                && final(self).ball_vel == old(self).ball_vel,
    {
        if events > 0 {
            self.game.paused = true;
            self.ball_pos = Vec2 { x: BALL_START_X, y: BALL_START_Y };
        }
    }

    /// Whether `tick` may be called: paddles in bounds, room in the scores
    /// and in the coordinates for the next step.
    pub fn can_tick(&self) -> (r: bool)
        ensures
            r == (self.wf() && self.score_room() && self.can_move()),
    {
        let paddles = DOWN_BOUND <= self.p1_y && self.p1_y <= UP_BOUND && DOWN_BOUND <= self.p2_y
            && self.p2_y <= UP_BOUND;
        let vel = self.ball_vel.x > i64::MIN && self.ball_vel.y > i64::MIN;
        let scores = self.game.p1 <= u64::MAX - 6 && self.game.p2 <= u64::MAX - 6;
        let fits = if self.game.paused {
            true
        } else {
            let x = self.ball_pos.x as i128 + self.ball_vel.x as i128;
            let y = self.ball_pos.y as i128 + self.ball_vel.y as i128;
            i64::MIN as i128 <= x && x <= i64::MAX as i128 && i64::MIN as i128 <= y && y
                <= i64::MAX as i128
        };
        paddles && vel && scores && fits
    }

    /// One fixed tick: the ball moves, then the paddles, then the ball is
    /// tested against every collider, then score events are consumed.
    pub fn tick(&mut self, input: Input)
        requires
            old(self).wf(),
            old(self).score_room(),
            old(self).can_move(),
        ensures
            *final(self) == ticked(*old(self), input),
            final(self).wf(),
            collision_events(moved(*old(self), input)) > 0 ==> final(self).game.paused
                && final(self).ball_pos == ball_start(),
            old(self).game.paused && input == no_input() && old(self).ball_pos == ball_start()
                ==> *final(self) == *old(self),
            old(self).game.paused && old(self).ball_pos == ball_start() ==> *final(self) == moved(
                *old(self),
                input,
            ),
    {
        proof {
            if old(self).game.paused && old(self).ball_pos == ball_start() {
                lemma_start_touches_nothing(moved(*old(self), input));
            }
            if old(self).game.paused && input == no_input() && old(self).ball_pos == ball_start() {
                lemma_idle_keeps_state(*old(self), 1);
                reveal_with_fuel(idle_run, 2);
            }
        }
        self.move_ball();
        self.move_p1(input.p1_up, input.p1_down);
        self.move_p2(input.p2_up, input.p2_down);
        let events = self.check_for_collisions();
        self.ball_collision(events);
    }
}

/// No keys held.
pub open spec fn no_input() -> Input {
    Input { p1_up: false, p1_down: false, p2_up: false, p2_down: false }
}

/// The state after ticking through `inputs` in order.
pub open spec fn run(s: Pong, inputs: Seq<Input>) -> Pong
    decreases inputs.len(),
{
    if inputs.len() == 0 {
        s
    } else {
        ticked(run(s, inputs.drop_last()), inputs.last())
    }
}

/// The state after `n` ticks with no key held.
pub open spec fn idle_run(s: Pong, n: nat) -> Pong
    decreases n,
{
    if n == 0 {
        s
    } else {
        ticked(idle_run(s, (n - 1) as nat), no_input())
    }
}

/// A bounce keeps the speed, on every side.
pub proof fn lemma_bounce_keeps_speed(v: Vec2, side: Collision)
    requires
        v.x > i64::MIN,
        v.y > i64::MIN,
    ensures
        speed_sq(bounced(v, side)) == speed_sq(v),
{
    assert((-v.x) * (-v.x) == v.x * v.x) by (nonlinear_arith);
    assert((-v.y) * (-v.y) == v.y * v.y) by (nonlinear_arith);
}

/// Over any run of collider tests each velocity component keeps its
/// magnitude, so the speed is kept whatever the ball touched.
pub proof fn lemma_pass_keeps_speed(s: Pong, cs: Seq<Collider>, n: nat)
    requires
        s.ball_vel.x > i64::MIN,
        s.ball_vel.y > i64::MIN,
        n <= cs.len(),
    ensures
        after_first(s, cs, n).ball_vel.x == s.ball_vel.x || after_first(s, cs, n).ball_vel.x
            == -s.ball_vel.x,
        after_first(s, cs, n).ball_vel.y == s.ball_vel.y || after_first(s, cs, n).ball_vel.y
            == -s.ball_vel.y,
        speed_sq(after_first(s, cs, n).ball_vel) == speed_sq(s.ball_vel),
    decreases n,
{
    if n > 0 {
        lemma_pass_keeps_speed(s, cs, (n - 1) as nat);
    }
    let v = after_first(s, cs, n).ball_vel;
    assert((-s.ball_vel.x) * (-s.ball_vel.x) == s.ball_vel.x * s.ball_vel.x) by (nonlinear_arith);
    assert((-s.ball_vel.y) * (-s.ball_vel.y) == s.ball_vel.y * s.ball_vel.y) by (nonlinear_arith);
    assert(v.x * v.x == s.ball_vel.x * s.ball_vel.x);
    assert(v.y * v.y == s.ball_vel.y * s.ball_vel.y);
}

/// A ball that comes in over the right wall's left edge is sent back if it
/// moves right, and is left alone if it already moves left.
pub proof fn lemma_right_wall_reflects(s: Pong)
    requires
        s.ball_vel.x > i64::MIN,
        collision_of(ball_box(s.ball_pos), right_wall().bounds) == Some(Collision::Left),
    ensures
        s.ball_vel.x > 0 ==> touched(s, right_wall()).ball_vel.x == -s.ball_vel.x,
        s.ball_vel.x <= 0 ==> touched(s, right_wall()).ball_vel.x == s.ball_vel.x,
        touched(s, right_wall()).ball_vel.y == s.ball_vel.y,
{
}

/// Touching the left wall scores one for the right player only; touching the
/// right wall one for the left player only; anything else scores nothing.
pub proof fn lemma_scoring_exclusive(s: Pong, c: Collider)
    requires
        s.game.p1 < u64::MAX,
        s.game.p2 < u64::MAX,
    ensures
        c.kind == ColliderKind::WallL ==> touched(s, c).game.p1 == s.game.p1 && touched(
            s,
            c,
        ).game.p2 == s.game.p2 + if collision_of(ball_box(s.ball_pos), c.bounds) is Some {
            1int
        } else {
            0int
        },
        c.kind == ColliderKind::WallR ==> touched(s, c).game.p2 == s.game.p2 && touched(
            s,
            c,
        ).game.p1 == s.game.p1 + if collision_of(ball_box(s.ball_pos), c.bounds) is Some {
            1int
        } else {
            0int
        },
        c.kind != ColliderKind::WallL && c.kind != ColliderKind::WallR ==> touched(s, c).game.p1
            == s.game.p1 && touched(s, c).game.p2 == s.game.p2,
{
}

/// In one collision pass the left player gains a point exactly when the
/// ball touches the right wall, and the right player exactly when it touches
/// the left wall.
pub proof fn lemma_pass_scores(s: Pong)
    requires
        s.score_room(),
    ensures
        collided(s).game.p1 == s.game.p1 + if collision_of(
            ball_box(s.ball_pos),
            right_wall().bounds,
        ) is Some {
            1int
        } else {
            0int
        },
        collided(s).game.p2 == s.game.p2 + if collision_of(
            ball_box(s.ball_pos),
            left_wall().bounds,
        ) is Some {
            1int
        } else {
            0int
        },
{
    reveal_with_fuel(after_first, 7);
    let cs = colliders_of(s);
    assert(cs[2] == left_wall());
    assert(cs[3] == right_wall());
    assert(cs[0].kind == ColliderKind::Paddle);
    assert(cs[1].kind == ColliderKind::Paddle);
    assert(cs[4].kind == ColliderKind::Wall);
    assert(cs[5].kind == ColliderKind::Wall);
}

/// After a tick in which a point was scored, play is paused and the ball is
/// back at the start, keeping the velocity that the bounces left it with.
pub proof fn lemma_score_resets(s: Pong, i: Input)
    requires
        collision_events(moved(s, i)) > 0,
    ensures
        ticked(s, i).game.paused,
        ticked(s, i).ball_pos == ball_start(),
        ticked(s, i).ball_vel == collided(moved(s, i)).ball_vel,
{
}

/// Paddles in bounds stay in bounds through one tick.
pub proof fn lemma_tick_keeps_paddles(s: Pong, i: Input)
    requires
        DOWN_BOUND <= s.p1_y <= UP_BOUND,
        DOWN_BOUND <= s.p2_y <= UP_BOUND,
    ensures
        DOWN_BOUND <= ticked(s, i).p1_y <= UP_BOUND,
        DOWN_BOUND <= ticked(s, i).p2_y <= UP_BOUND,
{
    reveal_with_fuel(after_first, 7);
}

/// Paddles in bounds stay in bounds through any sequence of inputs.
pub proof fn lemma_paddles_in_bounds(s: Pong, inputs: Seq<Input>)
    requires
        DOWN_BOUND <= s.p1_y <= UP_BOUND,
        DOWN_BOUND <= s.p2_y <= UP_BOUND,
    ensures
        DOWN_BOUND <= run(s, inputs).p1_y <= UP_BOUND,
        DOWN_BOUND <= run(s, inputs).p2_y <= UP_BOUND,
    decreases inputs.len(),
{
    if inputs.len() > 0 {
        lemma_paddles_in_bounds(s, inputs.drop_last());
        lemma_tick_keeps_paddles(run(s, inputs.drop_last()), inputs.last());
    }
}

/// A ball at the start touches nothing, whatever the paddles' positions.
pub proof fn lemma_start_touches_nothing(s: Pong)
    requires
        s.ball_pos == ball_start(),
    ensures
        collided(s) == s,
        collision_events(s) == 0,
{
    reveal_with_fuel(after_first, 7);
    reveal_with_fuel(events_in_first, 7);
    let cs = colliders_of(s);
    let b = ball_box(s.ball_pos);
    assert forall|k: int| 0 <= k < 6 implies collision_of(b, #[trigger] cs[k].bounds) is None by {
        assert(!overlaps(b, cs[k].bounds));
    }
    assert(after_first(s, cs, 1) == s);
    assert(after_first(s, cs, 2) == s);
    assert(after_first(s, cs, 3) == s);
    assert(after_first(s, cs, 4) == s);
    assert(after_first(s, cs, 5) == s);
}

/// While paused with the ball at the start and no key held, any number of
/// ticks leaves the whole state as it was.
pub proof fn lemma_idle_keeps_state(s: Pong, n: nat)
    requires
        s.game.paused,
        s.ball_pos == ball_start(),
    ensures
        idle_run(s, n) == s,
    decreases n,
{
    if n > 0 {
        lemma_idle_keeps_state(s, (n - 1) as nat);
        assert(moved(s, no_input()) == s);
        lemma_start_touches_nothing(s);
    }
}

} // verus!
