use vstd::prelude::*;
use crate::geometry::{field_units, green_rgba, in_limit, Color, Direction, STEP, UNITS_PER_PIXEL};

verus! {

/// The falling ball: centre, radius (half-pixels) and colour.
#[derive(PartialEq, Eq, Structural, Clone, Copy, Debug)]
pub struct BlinkoBall {
    pub x: i64,
    pub y: i64,
    pub r: i64,
    pub color: Color,
}

/// The ball after one step in `direction`.
pub open spec fn moved(b: BlinkoBall, direction: Direction) -> BlinkoBall {
    match direction {
        Direction::Left => BlinkoBall { x: (b.x - STEP) as i64, ..b },
        Direction::Right => BlinkoBall { x: (b.x + STEP) as i64, ..b },
        Direction::Down => BlinkoBall { y: (b.y + STEP) as i64, ..b },
        Direction::Up => BlinkoBall { y: (b.y - STEP) as i64, ..b },
    }
}

/// Whether one step in `direction` keeps the ball's edge inside a field of
/// `w` by `h` pixels.
pub open spec fn may_move(b: BlinkoBall, direction: Direction, w: u32, h: u32) -> bool {
    match direction {
        Direction::Down => b.y + STEP <= field_units(h) - b.r,
        Direction::Up => b.y - STEP >= b.r,
        Direction::Right => b.x + STEP <= field_units(w) - b.r,
        Direction::Left => b.x - STEP >= b.r,
    }
}

/// The opposite of `d` along its own axis.
pub open spec fn reversed(d: Direction) -> Direction {
    match d {
        Direction::Left => Direction::Right,
        Direction::Right => Direction::Left,
        Direction::Up => Direction::Down,
        Direction::Down => Direction::Up,
    }
}

/// One step in `d` if the field allows it; otherwise the ball stays and the
/// direction turns round.
pub open spec fn bounce(b: BlinkoBall, d: Direction, w: u32, h: u32) -> (BlinkoBall, Direction) {
    if may_move(b, d, w, h) {
        (moved(b, d), d)
    } else {
        (b, reversed(d))
    }
}

/// The demonstration ball: at (50, 50) pixels, fifteen pixels wide.
pub open spec fn demo_ball() -> BlinkoBall {
    BlinkoBall { x: 100, y: 100, r: 30, color: green_rgba() }
}

impl BlinkoBall {
    /// Centre and radius stay where arithmetic on them cannot overflow.
    pub open spec fn bounded(&self) -> bool {
        in_limit(self.x as int) && in_limit(self.y as int) && in_limit(self.r as int)
    }

    pub fn new(x: i64, y: i64, r: i64, color: Color) -> (b: Self)
        ensures
            b == (BlinkoBall { x, y, r, color }),
    {
        BlinkoBall { x, y, r, color }
    }

    /// Whether one step in `direction` keeps the ball inside the field of
    /// `field_width` by `field_height` pixels.
    pub fn can_move(&self, direction: Direction, field_width: u32, field_height: u32) -> (ok: bool)
        requires
            self.bounded(),
        ensures
            ok == may_move(*self, direction, field_width, field_height),
    {
        match direction {
            Direction::Down => self.y + STEP <= field_height as i64 * UNITS_PER_PIXEL - self.r,
            Direction::Up => self.y - STEP >= self.r,
            Direction::Right => self.x + STEP <= field_width as i64 * UNITS_PER_PIXEL - self.r,
            Direction::Left => self.x - STEP >= self.r,
        }
    }

    pub fn set_y(&mut self, y: i64)
        ensures
            *final(self) == (BlinkoBall { y, ..*old(self) }),
    {
        self.y = y;
    }

    pub fn set_x(&mut self, x: i64)
        ensures
            *final(self) == (BlinkoBall { x, ..*old(self) }),
    {
        self.x = x;
    }

    /// Moves the ball one step in `direction`.
    pub fn move_circle(&mut self, direction: Direction)
        requires
            old(self).bounded(),
        ensures
            *final(self) == moved(*old(self), direction),
    {
        match direction {
            Direction::Left => self.set_x(self.x - STEP),
            Direction::Right => self.set_x(self.x + STEP),
            Direction::Down => self.set_y(self.y + STEP),
            Direction::Up => self.set_y(self.y - STEP),
        }
    }
}

/// Turns `d` round along its own axis.
fn reverse(d: Direction) -> (r: Direction)
    ensures
        r == reversed(d),
{
    match d {
        Direction::Left => Direction::Right,
        Direction::Right => Direction::Left,
        Direction::Up => Direction::Down,
        Direction::Down => Direction::Up,
    }
}

/// One bouncing move of a demonstration ball on a field of `field_width` by
/// `field_height` pixels: first left, then down, each only where the field
/// allows and reversed where it does not. Returns the ball and the two
/// directions it would take next.
pub fn blinko_ball_movement(field_width: u32, field_height: u32) -> (res: (
    BlinkoBall,
    Direction,
    Direction,
))
    ensures
        ({
            let (b1, xd) = bounce(demo_ball(), Direction::Left, field_width, field_height);
            let (b2, yd) = bounce(b1, Direction::Down, field_width, field_height);
            res == (b2, xd, yd)
        }),
{
    let mut circle = BlinkoBall::new(100, 100, 30, Color::green());
    let mut x_direction = Direction::Left;
    let mut y_direction = Direction::Down;
    if circle.can_move(x_direction, field_width, field_height) {
        circle.move_circle(x_direction);
    } else {
        x_direction = reverse(x_direction);
    }
    if circle.can_move(y_direction, field_width, field_height) {
        circle.move_circle(y_direction);
    } else {
        y_direction = reverse(y_direction);
    }
    (circle, x_direction, y_direction)
}

} // verus!
