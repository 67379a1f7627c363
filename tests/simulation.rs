use blinko::ball::BlinkoBall;
use blinko::bubble::{draw_bubbles, Bubble};
use blinko::geometry::{Color, Direction};
use blinko::sim::{any_collision, Simulation, RESPAWN_R, RESPAWN_Y, START_R, START_Y, STOPPER};

#[test]
fn new_simulation_starts_top_centre_and_falling() {
    let s = Simulation::new(400);
    assert_eq!((s.ball.x, s.ball.y, s.ball.r), (400, START_Y, START_R));
    assert_eq!((s.ball.x, s.ball.y), (2 * 200, 2 * 9));
    assert!(!s.move_in_progress);
    assert_eq!(s.move_counter, 0);
    assert_eq!(s.ball.color, Color::green());
}

#[test]
fn falling_ball_moves_down_one_pixel() {
    let mut s = Simulation::new(400);
    s.step(false, 0, 400, 600);
    assert_eq!((s.ball.x, s.ball.y), (400, 20));
    assert!(!s.move_in_progress);
}

#[test]
fn collision_starts_a_deflection_to_the_drawn_side() {
    let mut right = Simulation::new(400);
    right.step(true, 0, 400, 600);
    assert_eq!((right.ball.x, right.ball.y), (402, 18));
    assert!(right.move_in_progress);
    assert_eq!(right.curr_dir, Direction::Right);
    assert_eq!(right.move_counter, 0);

    let mut left = Simulation::new(400);
    left.step(true, 1, 400, 600);
    assert_eq!((left.ball.x, left.ball.y), (398, 18));
    assert!(left.move_in_progress);
    assert_eq!(left.curr_dir, Direction::Left);
}

#[test]
fn repeated_collisions_keep_the_side() {
    let mut s = Simulation::new(400);
    s.step(true, 1, 400, 600);
    for k in 1..40u32 {
        // later draws play no part once a deflection is under way
        s.step(true, 0, 400, 600);
        assert_eq!(s.curr_dir, Direction::Left);
        assert_eq!(s.move_counter, k);
    }
    assert_eq!(s.ball.x, 400 - 2 * 40);
    assert_eq!(s.ball.y, 18);
}

#[test]
fn forced_collisions_then_a_free_tick() {
    let mut s = Simulation::new(400);
    let x0 = s.ball.x;
    for _ in 0..25 {
        s.step(true, 0, 400, 600);
    }
    // 25 pixels to the right over the first 25 ticks
    assert_eq!(s.ball.x - x0, 2 * 25);
    for _ in 25..30 {
        s.step(true, 0, 400, 600);
    }
    assert_eq!(s.ball.x - x0, 2 * 30);
    assert_eq!(s.move_counter, 29);
    let (x, y) = (s.ball.x, s.ball.y);
    s.step(false, 0, 400, 600);
    assert_eq!(s.ball.x, x);
    assert_eq!(s.ball.y, y + 2);
    assert!(!s.move_in_progress);
    assert_eq!(s.move_counter, 0);
}

#[test]
fn free_tick_before_the_stopper_keeps_deflecting() {
    let mut s = Simulation::new(400);
    for _ in 0..25 {
        s.step(true, 0, 400, 600);
    }
    assert_eq!(s.move_counter, STOPPER - 1);
    let x = s.ball.x;
    s.step(false, 0, 400, 600);
    assert_eq!(s.ball.x, x);
    assert_eq!(s.ball.y, 20);
    assert!(s.move_in_progress);
    assert_eq!(s.move_counter, STOPPER - 1);
    // the next collision goes on to the same side and reaches the stopper
    s.step(true, 1, 400, 600);
    assert_eq!(s.curr_dir, Direction::Right);
    assert_eq!(s.move_counter, STOPPER);
    s.step(false, 0, 400, 600);
    assert!(!s.move_in_progress);
    assert_eq!(s.move_counter, 0);
}

#[test]
fn ball_past_the_bottom_is_replaced() {
    let mut s = Simulation::new(400);
    s.ball = BlinkoBall::new(123, 1200, 18, Color::green());
    s.move_in_progress = true;
    s.move_counter = 3;
    s.step(false, 0, 400, 600);
    assert_eq!((s.ball.x, s.ball.y, s.ball.r), (400, RESPAWN_Y, RESPAWN_R));
    assert_eq!((s.ball.x, s.ball.y), (2 * 200, 2 * 10));
    assert!(!s.move_in_progress);
    assert_eq!(s.move_counter, 0);
}

#[test]
fn ball_on_the_bottom_edge_stays() {
    let mut s = Simulation::new(400);
    s.ball = BlinkoBall::new(123, 1198, 18, Color::green());
    s.step(false, 0, 400, 600);
    assert_eq!((s.ball.x, s.ball.y), (123, 1200));
}

#[test]
fn free_fall_through_600_ticks_resets_once() {
    let mut s = Simulation::new(400);
    assert_eq!((s.ball.x, s.ball.y), (400, 18));
    let mut resets = 0;
    let mut max_y = s.ball.y;
    for _ in 0..600 {
        let before = s.ball.y;
        let advanced = before + 2;
        if advanced > max_y {
            max_y = advanced;
        }
        s.step(false, 0, 400, 600);
        if s.ball.y < before {
            resets += 1;
            assert_eq!((s.ball.x, s.ball.y), (400, 20));
        } else {
            assert_eq!(s.ball.y, before + 2);
        }
    }
    assert!(max_y > 1200);
    assert_eq!(resets, 1);
    // 592 ticks take the ball past the bottom, 8 more follow the reset
    assert_eq!(s.ball.y, 20 + 2 * 8);
}

#[test]
fn any_collision_finds_a_touching_bubble() {
    let bubbles = vec![
        Bubble::new(0, 0, 10, Color::yellow(), 0),
        Bubble::new(100, 0, 10, Color::yellow(), 1),
    ];
    let near = BlinkoBall::new(100, 30, 20, Color::green());
    let far = BlinkoBall::new(50, 50, 20, Color::green());
    assert!(any_collision(&bubbles, &near));
    assert!(!any_collision(&bubbles, &far));
    assert!(!any_collision(&Vec::new(), &near));
}

#[test]
fn tick_without_contact_falls() {
    let bubbles = draw_bubbles(400, 600);
    let mut s = Simulation::new(400);
    s.tick(&bubbles, 400, 600);
    assert_eq!((s.ball.x, s.ball.y), (400, 20));
    assert!(!s.move_in_progress);
}

#[test]
fn tick_on_contact_deflects_to_either_side() {
    let bubbles = vec![Bubble::new(400, 30, 10, Color::yellow(), 0)];
    let mut lefts = 0;
    let mut rights = 0;
    for _ in 0..200 {
        let mut s = Simulation::new(400);
        s.tick(&bubbles, 400, 600);
        assert!(s.move_in_progress);
        assert_eq!(s.ball.y, 18);
        match s.curr_dir {
            Direction::Left => {
                assert_eq!(s.ball.x, 398);
                lefts += 1;
            }
            Direction::Right => {
                assert_eq!(s.ball.x, 402);
                rights += 1;
            }
            _ => panic!("deflection must go sideways"),
        }
    }
    assert!(lefts > 0);
    assert!(rights > 0);
}
