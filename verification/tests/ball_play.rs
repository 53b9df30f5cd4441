//! Ball behaviour: wall reflection, scoring resets, paddle deflection,
//! free flight.

use pong::ball::Ball;
use pong::config::Config;
use pong::geometry::Rect;

fn standard() -> Config {
    Config::standard()
}

fn ball_at(x: i64, y: i64, vx: i64, vy: i64) -> Ball {
    Ball { rect: Rect { x, y, w: 8_000, h: 8_000 }, vx, vy }
}

#[test]
fn wall_reflection_flips_vy_before_integration() {
    let c = standard();
    // a ball at y = 0 moving up at 3 pixels per tick leaves with vy = +3,
    // magnitude preserved, and the flipped velocity moves it this tick
    let mut b = ball_at(400_000, 0, 1_500, -3_000);
    let mut ls = 0u32;
    let mut rs = 0u32;
    b.tick(&c, &mut ls, &mut rs, 0);
    assert_eq!(b.vy, 3_000);
    assert_eq!(b.rect.y, 3_000);
    assert_eq!(b.rect.x, 401_500);
    assert_eq!(ls, 0);
    assert_eq!(rs, 0);
}

#[test]
fn bottom_wall_reflects_too() {
    let c = standard();
    let mut b = ball_at(400_000, 592_000, 1_500, 2_000);
    let mut ls = 0u32;
    let mut rs = 0u32;
    b.tick(&c, &mut ls, &mut rs, 0);
    assert_eq!(b.vy, -2_000);
    assert_eq!(b.rect.y, 590_000);
}

#[test]
fn wall_contact_flips_even_when_moving_away() {
    let c = standard();
    // position is never clamped: touching the top wall while moving down
    // still flips the velocity, so the ball overshoots for one tick and
    // swings back on the next
    let mut b = ball_at(400_000, 0, 1_500, 500);
    let mut ls = 0u32;
    let mut rs = 0u32;
    b.tick(&c, &mut ls, &mut rs, 0);
    assert_eq!(b.vy, -500);
    assert_eq!(b.rect.y, -500);
    b.tick(&c, &mut ls, &mut rs, 0);
    assert_eq!(b.vy, 500);
    assert_eq!(b.rect.y, 0);
}

#[test]
fn crossing_left_boundary_scores_for_left_player() {
    let c = standard();
    let mut b = ball_at(-500, 300_000, -1_500, 100);
    let mut ls = 3u32;
    let mut rs = 5u32;
    b.tick(&c, &mut ls, &mut rs, 42);
    assert_eq!(ls, 4);
    assert_eq!(rs, 5);
    // re-served at the center (offset by half the ball size), moving away
    // from the scoring side, then one integration step
    assert_eq!(b.vx, -1_500);
    assert_eq!(b.vy, 42);
    assert_eq!(b.rect.x, 404_000 - 1_500);
    assert_eq!(b.rect.y, 296_000 + 42);
}

#[test]
fn crossing_right_boundary_scores_for_right_player() {
    let c = standard();
    let mut b = ball_at(792_000, 300_000, 1_500, -100);
    let mut ls = 0u32;
    let mut rs = 0u32;
    b.tick(&c, &mut ls, &mut rs, -7);
    assert_eq!(ls, 0);
    assert_eq!(rs, 1);
    assert_eq!(b.vx, 1_500);
    assert_eq!(b.vy, -7);
    assert_eq!(b.rect.x, 404_000 + 1_500);
    assert_eq!(b.rect.y, 296_000 - 7);
}

#[test]
fn center_hit_sends_the_ball_out_flat() {
    let c = standard();
    let paddle = Rect { x: 55_000, y: 100_000, w: 8_000, h: 45_000 };
    // contact offset exactly one half: ball.y + 8000 - 100000 = 26500,
    // half of paddle_h + ball_h = 53000, so phi = 0 and the ball leaves
    // horizontally whatever its speed was
    let mut b = ball_at(55_000, 118_500, 1_500, 900);
    b.check_collision(&c, paddle);
    assert_eq!(b.vx, -1_500);
    assert_eq!(b.vy, 0);
    // position untouched by a deflection
    assert_eq!(b.rect.x, 55_000);
    assert_eq!(b.rect.y, 118_500);
}

#[test]
fn bottom_edge_hit_deflects_steeply_down() {
    let c = standard();
    let paddle = Rect { x: 55_000, y: 100_000, w: 8_000, h: 45_000 };
    // contact offset 1: phi = pi/4, sin = 704653 micro, speed 1500, so
    // vy = 1500 * 704653 / 1e6 = 1056
    let mut b = ball_at(55_000, 145_000, 1_500, 0);
    b.check_collision(&c, paddle);
    assert_eq!(b.vx, -1_500);
    assert_eq!(b.vy, 1_056);
}

#[test]
fn top_edge_hit_deflects_steeply_up() {
    let c = standard();
    let paddle = Rect { x: 55_000, y: 100_000, w: 8_000, h: 45_000 };
    // contact offset 0: phi = -pi/4, vy = -1056 for speed 1500
    let mut b = ball_at(55_000, 92_000, 1_500, 0);
    b.check_collision(&c, paddle);
    assert_eq!(b.vx, -1_500);
    assert_eq!(b.vy, -1_056);
}

#[test]
fn deflection_preserves_horizontal_speed_magnitude() {
    let c = standard();
    let paddle = Rect { x: 737_000, y: 250_000, w: 8_000, h: 45_000 };
    let mut b = ball_at(737_000, 260_000, 1_500, 700);
    b.check_collision(&c, paddle);
    assert_eq!(b.vx.abs(), 1_500);
}

#[test]
fn no_overlap_means_no_deflection() {
    let c = standard();
    let paddle = Rect { x: 55_000, y: 100_000, w: 8_000, h: 45_000 };
    let mut b = ball_at(400_000, 100_000, 1_500, 700);
    b.check_collision(&c, paddle);
    assert_eq!(b.vx, 1_500);
    assert_eq!(b.vy, 700);
}

#[test]
fn free_flight_is_pure_translation() {
    let c = standard();
    // served flat: vx = 1.5 pixels per tick, vy = 0, no paddle present
    let mut b = Ball::new_with(&c, 0);
    assert_eq!(b.rect.x, 404_000);
    assert_eq!(b.rect.y, 296_000);
    let mut ls = 0u32;
    let mut rs = 0u32;
    for _ in 0..100 {
        b.tick(&c, &mut ls, &mut rs, 0);
    }
    assert_eq!(b.rect.x, 404_000 + 100 * 1_500);
    assert_eq!(b.rect.y, 296_000);
    assert_eq!(b.vx, 1_500);
    assert_eq!(b.vy, 0);
    assert_eq!(ls, 0);
    assert_eq!(rs, 0);
}

#[test]
fn random_serve_stays_in_band() {
    let c = standard();
    for _ in 0..50 {
        let b = Ball::new(&c);
        assert!(-1_000 <= b.vy && b.vy <= 1_000);
        assert_eq!(b.vx, 1_500);
        assert_eq!(b.rect.x, 404_000);
        assert_eq!(b.rect.y, 296_000);
    }
}
