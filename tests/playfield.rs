use pong::geometry::{collide, Collision, Vec2};
use pong::game::{
    advance, bounce, key_direction, paddle_step, ColliderKind, Input, Pong, BALL_START_X,
    BALL_START_Y, DOWN_BOUND, INITIAL_BALL_SPEED, PADDLE_SPEED, UP_BOUND,
};

fn idle() -> Input {
    Input { p1_up: false, p1_down: false, p2_up: false, p2_down: false }
}

fn v(x: i64, y: i64) -> Vec2 {
    Vec2 { x, y }
}

fn speed_sq(v: Vec2) -> i128 {
    (v.x as i128) * (v.x as i128) + (v.y as i128) * (v.y as i128)
}

#[test]
fn new_match_is_paused_at_center() {
    let p = Pong::new();
    assert_eq!(p.game.p1, 0);
    assert_eq!(p.game.p2, 0);
    assert!(p.game.paused);
    assert_eq!(p.ball_pos, v(BALL_START_X, BALL_START_Y));
    assert_eq!(p.ball_vel, v(INITIAL_BALL_SPEED, INITIAL_BALL_SPEED));
    assert_eq!(p.p1_y, 0);
    assert_eq!(p.p2_y, 0);
}

#[test]
fn colliders_are_paddles_then_walls() {
    let p = Pong::new();
    let cs = p.colliders();
    assert_eq!(cs.len(), 6);
    assert_eq!(cs[0].kind, ColliderKind::Paddle);
    assert_eq!(cs[0].bounds.center, v(-45600, 0));
    assert_eq!(cs[1].bounds.center, v(45600, 0));
    assert_eq!(cs[2].kind, ColliderKind::WallL);
    assert_eq!(cs[2].bounds.center, v(-49200, 0));
    assert_eq!(cs[3].kind, ColliderKind::WallR);
    assert_eq!(cs[3].bounds.center, v(49200, 0));
    assert_eq!(cs[4].bounds.center, v(0, 37200));
    assert_eq!(cs[5].bounds.center, v(0, -37200));
    assert_eq!(cs[4].kind, ColliderKind::Wall);
    assert_eq!(cs[5].kind, ColliderKind::Wall);
}

#[test]
fn advance_adds_velocity_times_delta() {
    assert_eq!(advance(v(10, -20), v(3, -4), 5), v(25, -40));
    assert_eq!(advance(v(10, -20), v(3, -4), 0), v(10, -20));
    assert_eq!(advance(v(0, 0), v(i64::MAX, i64::MIN), 1), v(i64::MAX, i64::MIN));
}

#[test]
fn bounce_flips_only_toward_side() {
    assert_eq!(bounce(v(5, 7), Collision::Left), v(-5, 7));
    assert_eq!(bounce(v(-5, 7), Collision::Left), v(-5, 7));
    assert_eq!(bounce(v(-5, 7), Collision::Right), v(5, 7));
    assert_eq!(bounce(v(5, 7), Collision::Right), v(5, 7));
    assert_eq!(bounce(v(5, -7), Collision::Top), v(5, 7));
    assert_eq!(bounce(v(5, 7), Collision::Top), v(5, 7));
    assert_eq!(bounce(v(5, 7), Collision::Bottom), v(5, -7));
    assert_eq!(bounce(v(5, -7), Collision::Bottom), v(5, -7));
    assert_eq!(bounce(v(5, -7), Collision::Inside), v(5, -7));
}

#[test]
fn bounce_keeps_speed_on_every_side() {
    let sides = [
        Collision::Left,
        Collision::Right,
        Collision::Top,
        Collision::Bottom,
        Collision::Inside,
    ];
    for vel in [v(707, 707), v(-1000, 3), v(0, -9), v(i64::MAX, -i64::MAX)] {
        for side in sides {
            assert_eq!(speed_sq(bounce(vel, side)), speed_sq(vel));
        }
    }
}

#[test]
fn right_wall_sends_back_rightward_ball_only() {
    let mut p = Pong::new();
    p.game.paused = false;
    // ball's right edge 600 units past the wall's left edge, well within it
    p.ball_pos = v(49200 - 600 - 1800 + 600, 0);
    let wall = p.colliders()[3];
    assert_eq!(collide(&p.ball_bounds(), &wall.bounds), Some(Collision::Left));
    p.ball_vel = v(1000, 50);
    let mut q = p;
    q.touch(&wall);
    assert_eq!(q.ball_vel, v(-1000, 50));
    p.ball_vel = v(-1000, 50);
    let mut q = p;
    q.touch(&wall);
    assert_eq!(q.ball_vel, v(-1000, 50));
}

#[test]
fn left_wall_scores_for_right_player_only() {
    let mut p = Pong::new();
    p.ball_pos = v(-48000, 0);
    p.ball_vel = v(-1000, 0);
    let scored = p.touch(&p.colliders()[2]);
    assert!(scored);
    assert_eq!(p.game.p1, 0);
    assert_eq!(p.game.p2, 1);
}

#[test]
fn right_wall_scores_for_left_player_only() {
    let mut p = Pong::new();
    p.ball_pos = v(48000, 0);
    p.ball_vel = v(1000, 0);
    let events = p.check_for_collisions();
    assert_eq!(events, 1);
    assert_eq!(p.game.p1, 1);
    assert_eq!(p.game.p2, 0);
}

#[test]
fn top_wall_bounces_without_scoring() {
    let mut p = Pong::new();
    p.ball_pos = v(0, 35000);
    p.ball_vel = v(300, 400);
    let events = p.check_for_collisions();
    assert_eq!(events, 0);
    assert_eq!(p.ball_vel, v(300, -400));
    assert_eq!((p.game.p1, p.game.p2), (0, 0));
}

#[test]
fn paddle_bounces_ball_back() {
    let mut p = Pong::new();
    // ball's left edge 100 units into the left paddle's right edge
    p.ball_pos = v(-45600 + 1200 + 1800 - 100, 0);
    p.ball_vel = v(-1000, 20);
    let events = p.check_for_collisions();
    assert_eq!(events, 0);
    assert_eq!(p.ball_vel, v(1000, 20));
}

#[test]
fn score_event_pauses_and_recenters() {
    let mut p = Pong::new();
    p.game.paused = false;
    p.ball_pos = v(1234, -567);
    p.ball_vel = v(-1000, 3);
    p.ball_collision(2);
    assert!(p.game.paused);
    assert_eq!(p.ball_pos, v(BALL_START_X, BALL_START_Y));
    assert_eq!(p.ball_vel, v(-1000, 3));
}

#[test]
fn no_score_event_changes_nothing() {
    let mut p = Pong::new();
    p.game.paused = false;
    p.ball_pos = v(1234, -567);
    let before = p;
    p.ball_collision(0);
    assert_eq!(p, before);
}

#[test]
fn paddle_step_clamps() {
    assert_eq!(paddle_step(0, 1), PADDLE_SPEED);
    assert_eq!(paddle_step(0, -1), -PADDLE_SPEED);
    assert_eq!(paddle_step(0, 0), 0);
    assert_eq!(paddle_step(UP_BOUND - 10, 1), UP_BOUND);
    assert_eq!(paddle_step(DOWN_BOUND + 10, -1), DOWN_BOUND);
    assert_eq!(paddle_step(i64::MAX, 1), UP_BOUND);
    assert_eq!(paddle_step(i64::MIN, -1), DOWN_BOUND);
}

#[test]
fn key_direction_values() {
    assert_eq!(key_direction(true, false), 1);
    assert_eq!(key_direction(false, true), -1);
    assert_eq!(key_direction(true, true), 0);
    assert_eq!(key_direction(false, false), 0);
}

#[test]
fn paddles_stay_in_bounds_under_long_input() {
    let mut p = Pong::new();
    for k in 0..200 {
        let up = k % 50 < 40;
        p.tick(Input { p1_up: up, p1_down: !up, p2_up: !up, p2_down: up });
        // keep the ball out of play so that only the paddles matter
        p.ball_pos = v(0, 0);
        p.game.paused = false;
        assert!(DOWN_BOUND <= p.p1_y && p.p1_y <= UP_BOUND);
        assert!(DOWN_BOUND <= p.p2_y && p.p2_y <= UP_BOUND);
    }
    for _ in 0..100 {
        p.tick(Input { p1_up: true, p1_down: false, p2_up: false, p2_down: true });
        p.ball_pos = v(0, 0);
    }
    assert_eq!(p.p1_y, UP_BOUND);
    assert_eq!(p.p2_y, DOWN_BOUND);
}

#[test]
fn paddles_frozen_while_paused() {
    let mut p = Pong::new();
    p.move_p1(false, false);
    p.move_p2(false, false);
    assert_eq!((p.p1_y, p.p2_y), (0, 0));
    assert!(p.game.paused);
}

#[test]
fn ball_scores_on_right_wall_end_to_end() {
    let mut p = Pong::new();
    p.game.paused = false;
    // x = 396.5 pixels at 120 units a pixel; 500 pixels a second is 1000 units a tick
    p.ball_pos = v(47580, 0);
    p.ball_vel = v(1000, 0);
    p.tick(idle());
    assert_eq!(p.game.p1, 1);
    assert_eq!(p.game.p2, 0);
    assert!(p.game.paused);
    assert_eq!(p.ball_pos, v(0, 0));
    // the 30-pixel ball spans the 10-pixel wall, so the contact is Inside and
    // the right paddle is touched from its right with the ball moving away:
    // no bounce applies
    assert_eq!(p.ball_vel, v(1000, 0));
}

#[test]
fn ball_bounces_and_scores_in_one_tick() {
    let mut p = Pong::new();
    p.game.paused = false;
    // after moving, the ball's right edge is 600 units into the right wall
    p.ball_pos = v(48000 - 600 - 1000, 0);
    p.ball_vel = v(1000, 0);
    p.p2_y = 20000;
    p.tick(idle());
    assert_eq!(p.game.p1, 1);
    assert!(p.game.paused);
    assert_eq!(p.ball_pos, v(0, 0));
    assert_eq!(p.ball_vel, v(-1000, 0));
}

#[test]
fn paused_without_input_stays_put() {
    let mut p = Pong::new();
    let start = p;
    for _ in 0..120 {
        p.tick(idle());
    }
    assert_eq!(p, start);
}

#[test]
fn first_key_unpauses_and_ball_moves_next_tick() {
    let mut p = Pong::new();
    p.tick(Input { p1_up: true, p1_down: false, p2_up: false, p2_down: false });
    assert!(!p.game.paused);
    assert_eq!(p.ball_pos, v(0, 0));
    assert_eq!(p.p1_y, PADDLE_SPEED);
    p.tick(idle());
    assert_eq!(p.ball_pos, v(INITIAL_BALL_SPEED, INITIAL_BALL_SPEED));
    assert!(!p.game.paused);
}

#[test]
fn can_tick_reports_limits() {
    let mut p = Pong::new();
    assert!(p.can_tick());
    p.p1_y = UP_BOUND + 1;
    assert!(!p.can_tick());
    p.p1_y = 0;
    p.game.p2 = u64::MAX;
    assert!(!p.can_tick());
    p.game.p2 = 0;
    p.ball_vel = v(i64::MIN, 0);
    assert!(!p.can_tick());
    p.ball_vel = v(1, 0);
    p.ball_pos = v(i64::MAX, 0);
    // paused: the ball does not move, so the position may sit at the limit
    assert!(p.can_tick());
    p.game.paused = false;
    assert!(!p.can_tick());
}
