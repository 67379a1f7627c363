use vstd::prelude::*;
use crate::ball::{moved, BlinkoBall};
use crate::bubble::{overlaps, Bubble};
use crate::geometry::{field_units, green_rgba, Color, Direction, UNITS_PER_PIXEL};
use crate::rng::gen_range;

verus! {

/// Deflection steps after which a tick without collision ends the deflection.
pub const STOPPER: u32 = 25;

/// Height of the first ball's centre: nine pixels.
pub const START_Y: i64 = 18;

/// Radius of the first ball: nine pixels.
pub const START_R: i64 = 18;

/// Height of a replacement ball's centre: ten pixels.
pub const RESPAWN_Y: i64 = 20;

/// Radius of a replacement ball: ten pixels.
pub const RESPAWN_R: i64 = 20;

/// The ball and its deflection state between two ticks.
#[derive(PartialEq, Eq, Structural, Clone, Copy, Debug)]
pub struct Simulation {
    pub ball: BlinkoBall,
    /// Whether the ball is deflecting sideways rather than falling.
    pub move_in_progress: bool,
    /// The side of the current deflection.
    pub curr_dir: Direction,
    /// Deflection steps taken since the deflection began.
    pub move_counter: u32,
}

/// The first ball: centred across a field `w` pixels wide, near the top.
pub open spec fn start_ball(w: u32) -> BlinkoBall {
    BlinkoBall { x: w as i64, y: START_Y, r: START_R, color: green_rgba() }
}

/// The ball that replaces one that left the bottom of a field `w` pixels wide.
pub open spec fn respawn_ball(w: u32) -> BlinkoBall {
    BlinkoBall { x: w as i64, y: RESPAWN_Y, r: RESPAWN_R, color: green_rgba() }
}

/// The side a new deflection takes for a random draw from `[0, 2)`.
pub open spec fn deflect_dir(draw: i32) -> Direction {
    if draw == 0 {
        Direction::Right
    } else {
        Direction::Left
    }
}

/// A counter one step further, held at its largest value.
pub open spec fn bump(c: u32) -> u32 {
    if c < u32::MAX {
        (c + 1) as u32
    } else {
        c
    }
}

/// Whether a ball touches any of `bubbles`.
pub open spec fn hits_any(bubbles: Seq<Bubble>, b: BlinkoBall) -> bool {
    exists|i: int| 0 <= i < bubbles.len() && #[trigger] overlaps(b.x as int, b.y as int, b.r as int, bubbles[i])
}

/// One tick's movement and deflection decision, before a ball that left the
/// field is replaced.
pub open spec fn advance(s: Simulation, collided: bool, draw: i32) -> Simulation {
    if collided {
        if s.move_in_progress {
            Simulation { ball: moved(s.ball, s.curr_dir), move_counter: bump(s.move_counter), ..s }
        } else {
            Simulation {
                ball: moved(s.ball, deflect_dir(draw)),
                move_in_progress: true,
                curr_dir: deflect_dir(draw),
                ..s
            }
        }
    } else if s.move_counter >= STOPPER {
        Simulation {
            ball: moved(s.ball, Direction::Down),
            move_in_progress: false,
            move_counter: 0,
            ..s
        }
    } else {
        Simulation { ball: moved(s.ball, Direction::Down), ..s }
    }
}

/// A whole tick on a field of `w` by `h` pixels: the movement, then a fresh
/// falling ball in place of one that went past the bottom.
pub open spec fn next_state(s: Simulation, collided: bool, draw: i32, w: u32, h: u32) -> Simulation {
    let t = advance(s, collided, draw);
    if t.ball.y > field_units(h) {
        Simulation { ball: respawn_ball(w), move_in_progress: false, move_counter: 0, ..t }
    } else {
        t
    }
}

/// The state after `n` ticks in a row in which the ball collides, each
/// with random draw `draw`.
pub open spec fn after_collisions(s: Simulation, n: nat, draw: i32, w: u32, h: u32) -> Simulation
    decreases n,
{
    if n == 0 {
        s
    } else {
        next_state(after_collisions(s, (n - 1) as nat, draw, w, h), true, draw, w, h)
    }
}

/// A falling ball that collides moves one step sideways, to the side of the
/// draw, and starts deflecting.
pub proof fn lemma_collision_starts_deflection(s: Simulation, draw: i32, w: u32, h: u32)
    requires
        !s.move_in_progress,
        s.ball.y <= field_units(h),
    ensures
        ({
            let t = next_state(s, true, draw, w, h);
            &&& t.move_in_progress
            &&& t.curr_dir == deflect_dir(draw)
            &&& (t.curr_dir == Direction::Left || t.curr_dir == Direction::Right)
            &&& t.ball == moved(s.ball, t.curr_dir)
            &&& t.ball.y == s.ball.y
        }),
{
}

/// Starting from a falling ball inside the field, `n >= 1` colliding ticks
/// keep deflecting to the side chosen on the first, with `n - 1` steps
/// counted; the next tick without collision ends the deflection exactly
/// when that count has reached the stopper.
pub proof fn lemma_deflection_run(s: Simulation, n: nat, draw: i32, later_draw: i32, w: u32, h: u32)
    requires
        s.consistent(),
        !s.move_in_progress,
        s.ball.y + 2 <= field_units(h),
        1 <= n <= u32::MAX,
    ensures
        ({
            let t = after_collisions(s, n, draw, w, h);
            let u = next_state(t, false, later_draw, w, h);
            &&& t.move_in_progress
            &&& t.curr_dir == deflect_dir(draw)
            &&& t.move_counter == n - 1
            &&& t.ball.y == s.ball.y
            &&& u.move_in_progress == (n - 1 < STOPPER)
            &&& u.move_counter == (if n - 1 < STOPPER { n - 1 } else { 0 })
            &&& u.ball.y == s.ball.y + 2
        }),
    decreases n,
{
    let prev = after_collisions(s, (n - 1) as nat, draw, w, h);
    assert(after_collisions(s, n, draw, w, h) == next_state(prev, true, draw, w, h));
    if n > 1 {
        lemma_deflection_run(s, (n - 1) as nat, draw, later_draw, w, h);
    } else {
        assert(prev == s);
    }
}

/// A ball that goes past the bottom of the field is replaced, within the
/// same tick, by a fresh falling ball at the top centre.
pub proof fn lemma_exit_respawns(s: Simulation, collided: bool, draw: i32, w: u32, h: u32)
    requires
        advance(s, collided, draw).ball.y > field_units(h),
    ensures
        ({
            let t = next_state(s, collided, draw, w, h);
            &&& t.ball == respawn_ball(w)
            &&& !t.move_in_progress
            &&& t.move_counter == 0
            &&& t.consistent()
        }),
{
}

impl Simulation {
    /// A falling ball never carries a deflection count.
    pub open spec fn consistent(&self) -> bool {
        !self.move_in_progress ==> self.move_counter == 0
    }

    /// The state at the start, on a field `field_width` pixels wide.
    pub fn new(field_width: u32) -> (s: Self)
        ensures
            s == (Simulation {
                ball: start_ball(field_width),
                move_in_progress: false,
                curr_dir: Direction::Right,
                move_counter: 0,
            }),
            s.consistent(),
    {
        Simulation {
            ball: BlinkoBall::new(field_width as i64, START_Y, START_R, Color::green()),
            move_in_progress: false,
            curr_dir: Direction::Right,
            move_counter: 0,
        }
    }

    /// One tick on a field of `field_width` by `field_height` pixels, where
    /// `collided` tells whether the ball touches a bubble and `draw` is the
    /// random draw from `[0, 2)` that picks the side of a new deflection
    /// (0: right).
    pub fn step(&mut self, collided: bool, draw: i32, field_width: u32, field_height: u32)
        requires
            old(self).ball.bounded(),
        ensures
            *final(self) == next_state(*old(self), collided, draw, field_width, field_height),
            old(self).consistent() ==> final(self).consistent(),
    {
        if collided {
            if self.move_in_progress {
                self.ball.move_circle(self.curr_dir);
                if self.move_counter < u32::MAX {
                    self.move_counter = self.move_counter + 1;
                }
            } else {
                let dir = if draw == 0 {
                    Direction::Right
                } else {
                    Direction::Left
                };
                self.ball.move_circle(dir);
                self.move_in_progress = true;
                self.curr_dir = dir;
            }
        } else {
            if self.move_counter >= STOPPER {
                self.move_counter = 0;
                self.move_in_progress = false;
            }
            self.ball.move_circle(Direction::Down);
        }
        if self.ball.y > field_height as i64 * UNITS_PER_PIXEL {
            self.ball = BlinkoBall::new(field_width as i64, RESPAWN_Y, RESPAWN_R, Color::green());
            self.move_in_progress = false;
            self.move_counter = 0;
        }
    }

    /// One tick against the board `bubbles`: tests the ball against each
    /// bubble, draws a random side when a new deflection begins, and moves.
    pub fn tick(&mut self, bubbles: &Vec<Bubble>, field_width: u32, field_height: u32)
        requires
            old(self).ball.bounded(),
            forall|i: int| 0 <= i < bubbles@.len() ==> (#[trigger] bubbles@[i]).bounded(),
        ensures
            ({
                let collided = hits_any(bubbles@, old(self).ball);
                *final(self) == next_state(*old(self), collided, 0, field_width, field_height)
                    || *final(self) == next_state(*old(self), collided, 1, field_width, field_height)
            }),
            old(self).consistent() ==> final(self).consistent(),
    {
        let collided = any_collision(bubbles, &self.ball);
        let draw: i32 = if collided && !self.move_in_progress {
            gen_range(0, 2)
        } else {
            0
        };
        self.step(collided, draw, field_width, field_height);
    }
}

/// Whether `ball` touches any of `bubbles`; the scan stops at the first hit.
pub fn any_collision(bubbles: &Vec<Bubble>, ball: &BlinkoBall) -> (hit: bool)
    requires
        ball.bounded(),
        forall|i: int| 0 <= i < bubbles@.len() ==> (#[trigger] bubbles@[i]).bounded(),
    ensures
        hit == hits_any(bubbles@, *ball),
{
    let mut i: usize = 0;
    while i < bubbles.len()
        invariant
            0 <= i <= bubbles@.len(),
            ball.bounded(),
            forall|j: int| 0 <= j < bubbles@.len() ==> (#[trigger] bubbles@[j]).bounded(),
            forall|j: int|
                0 <= j < i ==> !#[trigger] overlaps(
                    ball.x as int,
                    ball.y as int,
                    ball.r as int,
                    bubbles@[j],
                ),
        decreases bubbles@.len() - i,
    {
        if bubbles[i].does_collide(ball.x, ball.y, ball.r) {
            return true;
        }
        i = i + 1;
    }
    false
}

} // verus!
