//! Whole-match behaviour: construction, input mapping, convergence under a
//! held key, scoring through a full tick, and configuration validation.

use pong::config::Config;
use pong::game::{Input, Match};
use pong::geometry::Rect;
use pong::paddle::{Direction, Paddle, Side};

fn standard() -> Config {
    Config::standard()
}

fn idle_input() -> Input {
    Input { left_up: false, left_down: false, right_up: false, right_down: false }
}

#[test]
fn fresh_match_layout() {
    let c = standard();
    let m = Match::new_with(&c, 0);
    assert_eq!(m.left.rect, Rect { x: 55_000, y: 277_500, w: 8_000, h: 45_000 });
    assert_eq!(m.right.rect, Rect { x: 737_000, y: 277_500, w: 8_000, h: 45_000 });
    assert_eq!(m.ball.rect, Rect { x: 404_000, y: 296_000, w: 8_000, h: 8_000 });
    assert_eq!(m.ball.vx, 1_500);
    assert_eq!(m.ball.vy, 0);
    assert_eq!(m.left.score, 0);
    assert_eq!(m.right.score, 0);
    assert!(!m.finished);
}

#[test]
fn random_match_serve_stays_in_band() {
    let c = standard();
    let m = Match::new(&c);
    assert!(-1_000 <= m.ball.vy && m.ball.vy <= 1_000);
    assert_eq!(m.ball.vx, 1_500);
    assert_eq!(m.left.score, 0);
    assert_eq!(m.right.score, 0);
}

#[test]
fn held_up_key_converges_to_the_top_and_stays() {
    let c = standard();
    let mut m = Match::new_with(&c, 0);
    let input = Input { left_up: true, ..idle_input() };
    // 111 ticks of 2.5 pixels cover the 277.5 pixel start offset
    for _ in 0..120 {
        m.tick_with(input, 0);
    }
    assert_eq!(m.left.rect.y, 0);
    for _ in 0..10 {
        m.tick_with(input, 0);
    }
    assert_eq!(m.left.rect.y, 0);
    // the right paddle never moved
    assert_eq!(m.right.rect.y, 277_500);
}

#[test]
fn held_down_key_converges_to_the_bottom_and_stays() {
    let c = standard();
    let mut m = Match::new_with(&c, 0);
    let input = Input { right_down: true, ..idle_input() };
    for _ in 0..120 {
        m.tick_with(input, 0);
    }
    assert_eq!(m.right.rect.y, 555_000);
    m.tick_with(input, 0);
    assert_eq!(m.right.rect.y, 555_000);
}

#[test]
fn up_wins_when_both_keys_are_held() {
    let c = standard();
    let mut m = Match::new_with(&c, 0);
    let input = Input { left_up: true, left_down: true, ..idle_input() };
    m.tick_with(input, 0);
    assert_eq!(m.left.rect.y, 277_500 - 2_500);
    assert_eq!(m.left.direction, Direction::Up);
}

#[test]
fn single_down_key_moves_down() {
    let c = standard();
    let mut m = Match::new_with(&c, 0);
    let input = Input { left_down: true, ..idle_input() };
    m.tick_with(input, 0);
    assert_eq!(m.left.rect.y, 277_500 + 2_500);
}

#[test]
fn direction_resets_every_tick() {
    let c = standard();
    let mut m = Match::new_with(&c, 0);
    m.tick_with(Input { left_up: true, ..idle_input() }, 0);
    assert_eq!(m.left.direction, Direction::Up);
    m.tick_with(idle_input(), 0);
    assert_eq!(m.left.direction, Direction::Idle);
    assert_eq!(m.left.rect.y, 275_000);
}

#[test]
fn left_boundary_crossing_scores_through_a_full_tick() {
    let c = standard();
    let mut m = Match::new_with(&c, 0);
    m.ball.rect.x = 0;
    m.ball.rect.y = 150_000;
    m.ball.vx = -1_500;
    let quit = m.tick_with(idle_input(), 7);
    assert!(!quit);
    assert_eq!(m.left.score, 1);
    assert_eq!(m.right.score, 0);
    assert_eq!(m.ball.vx, -1_500);
    assert_eq!(m.ball.vy, 7);
    assert_eq!(m.ball.rect.x, 402_500);
    assert_eq!(m.ball.rect.y, 296_007);
}

#[test]
fn finished_flag_signals_quit_but_the_update_still_runs() {
    let c = standard();
    let mut m = Match::new_with(&c, 0);
    assert!(!m.tick_with(idle_input(), 0));
    m.finished = true;
    let y_before = m.left.rect.y;
    let quit = m.tick_with(Input { left_up: true, ..idle_input() }, 0);
    assert!(quit);
    assert_eq!(m.left.rect.y, y_before - 2_500);
}

#[test]
fn random_tick_moves_the_paddle_deterministically() {
    let c = standard();
    let mut m = Match::new(&c);
    let quit = m.tick(Input { left_up: true, ..idle_input() });
    assert!(!quit);
    assert_eq!(m.left.rect.y, 275_000);
}

#[test]
fn paddles_build_on_their_own_sides() {
    let c = standard();
    let left = Paddle::new(&c, Side::Left);
    let right = Paddle::new(&c, Side::Right);
    assert_eq!(left.rect.x, 55_000);
    assert_eq!(right.rect.x, 737_000);
    assert_eq!(left.rect.y, right.rect.y);
    assert_eq!(left.score, 0);
    assert_eq!(left.direction, Direction::Idle);
}

#[test]
fn paddle_at_the_top_stays_at_the_top_under_up() {
    let c = standard();
    let mut p = Paddle::new(&c, Side::Left);
    p.rect.y = 0;
    p.set_direction(Direction::Up);
    p.tick(&c);
    assert_eq!(p.rect.y, 0);
}

#[test]
fn rect_accessors_expose_the_boxes() {
    let c = standard();
    let m = Match::new_with(&c, 0);
    assert_eq!(m.left.rect(), m.left.rect);
    assert_eq!(m.ball.rect(), m.ball.rect);
}

#[test]
fn overlap_test_is_inclusive_of_touching_edges() {
    let a = Rect { x: 0, y: 0, w: 10, h: 10 };
    let touching = Rect { x: 10, y: 0, w: 10, h: 10 };
    let apart = Rect { x: 11, y: 0, w: 10, h: 10 };
    assert!(a.overlaps(&touching));
    assert!(!a.overlaps(&apart));
    assert!(a.overlaps(&a));
}

#[test]
fn config_validation_accepts_the_reference_constants() {
    let r = Config::new(800_000, 600_000, 8_000, 8_000, 8_000, 45_000, 55_000, 2_500, 1_500);
    assert_eq!(r, Some(Config::standard()));
}

#[test]
fn config_validation_rejects_bad_dimensions() {
    // a ball that cannot move
    assert_eq!(Config::new(800_000, 600_000, 8_000, 8_000, 8_000, 45_000, 55_000, 2_500, 0), None);
    // a paddle taller than the screen
    assert_eq!(
        Config::new(800_000, 40_000, 8_000, 8_000, 8_000, 45_000, 55_000, 2_500, 1_500),
        None
    );
    // a screen too short to hold the serve band
    assert_eq!(Config::new(800_000, 9_000, 8_000, 8_000, 8_000, 4_000, 5_000, 2_500, 1_500), None);
    // paddles that do not fit beside their offset
    assert_eq!(
        Config::new(60_000, 600_000, 8_000, 8_000, 8_000, 45_000, 55_000, 2_500, 1_500),
        None
    );
}
