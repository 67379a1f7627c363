use vstd::prelude::*;
use vstd::arithmetic::div_mod::lemma_div_multiples_vanish;
use crate::geometry::{field_units, in_limit, yellow_rgba, Color, UNITS_PER_PIXEL};

verus! {

/// Radius of every bubble: five pixels.
pub const BUBBLE_R: i64 = 10;

/// Gap between the edges of neighbouring bubbles: twenty pixels.
pub const PADDING: i64 = 40;

/// Distance between the centres of neighbouring bubbles, across and up.
pub const PITCH: i64 = 60;

/// Number of bubbles in the bottom row; each row above holds one fewer,
/// down to an empty row at the top.
pub const WIDEST_ROW: i64 = 15;

/// Number of rows, the empty top row included.
pub const ROWS: i64 = 16;

/// A numbered obstacle on the board.
#[derive(PartialEq, Eq, Structural, Clone, Copy, Debug)]
pub struct Bubble {
    pub x: i64,
    pub y: i64,
    pub r: i64,
    pub color: Color,
    pub index: i32,
}

/// Whether a circle at (`x`, `y`) of radius `r` touches or overlaps `b`.
pub open spec fn overlaps(x: int, y: int, r: int, b: Bubble) -> bool {
    (b.x - x) * (b.x - x) + (b.y - y) * (b.y - y) <= (b.r + r) * (b.r + r)
}

/// Bubbles in row `row`, counted from the bottom.
pub open spec fn row_count(row: nat) -> int {
    WIDEST_ROW - row
}

/// Display index of the first bubble of row `row`: the bubbles of all rows
/// below it.
pub open spec fn row_first(row: nat) -> int
    decreases row,
{
    if row == 0 {
        0
    } else {
        row_first((row - 1) as nat) + row_count((row - 1) as nat)
    }
}

/// Width of a row of `n` bubbles, from the left edge of its first bubble to
/// the right edge of its last.
pub open spec fn row_width(n: int) -> int {
    n * PITCH - PADDING
}

/// Centre of the first bubble of a row of `n`, centred on a field `w`
/// pixels wide.
pub open spec fn row_start_x(w: u32, n: int) -> int {
    (field_units(w) - row_width(n)) / 2 + BUBBLE_R
}

/// Height of the centres of row `row` on a field `h` pixels high.
pub open spec fn row_y(h: u32, row: int) -> int {
    field_units(h) - BUBBLE_R - PADDING - row * PITCH
}

/// The bubble in column `col` of row `row` of the board for a field of `w`
/// by `h` pixels.
pub open spec fn layout_bubble(w: u32, h: u32, row: nat, col: int) -> Bubble {
    Bubble {
        x: (row_start_x(w, row_count(row)) + col * PITCH) as i64,
        y: row_y(h, row as int) as i64,
        r: BUBBLE_R,
        color: yellow_rgba(),
        index: (row_first(row) + col) as i32,
    }
}

/// The rows below row `hi` come before it, one after the other.
proof fn lemma_row_first_grows(lo: nat, hi: nat)
    requires
        lo <= hi <= ROWS,
    ensures
        row_first(lo) <= row_first(hi),
        lo < hi ==> row_first(lo) + row_count(lo) <= row_first(hi),
    decreases hi - lo,
{
    if lo < hi {
        lemma_row_first_grows(lo, (hi - 1) as nat);
    }
}

/// The board holds 15 + 14 + ... + 1 + 0 bubbles.
pub proof fn lemma_board_size()
    ensures
        row_first(ROWS as nat) == 120,
{
    reveal_with_fuel(row_first, 17);
}

/// Every non-empty row is centred: its first and last centres lie equally
/// far from the middle of the field, on either side.
pub proof fn lemma_row_centred(w: u32, h: u32, row: nat)
    requires
        row < ROWS,
        row_count(row) > 0,
    ensures
        layout_bubble(w, h, row, 0).x + layout_bubble(w, h, row, row_count(row) - 1).x
            == field_units(w),
{
    let n = row_count(row);
    let q = w - n * 30 + 20;
    assert(field_units(w) - row_width(n) == 2 * q);
    lemma_div_multiples_vanish(q, 2);
    assert(row_start_x(w, n) == q + BUBBLE_R);
}

/// A circle that just touches a bubble collides with it; one whose centre
/// lies any further away does not.
pub proof fn lemma_touching_collides(x: int, y: int, r: int, b: Bubble)
    requires
        r + b.r >= 0,
    ensures
        (b.x - x) * (b.x - x) + (b.y - y) * (b.y - y) == (b.r + r) * (b.r + r) ==> overlaps(
            x,
            y,
            r,
            b,
        ),
        (b.x - x) * (b.x - x) + (b.y - y) * (b.y - y) > (b.r + r) * (b.r + r) ==> !overlaps(
            x,
            y,
            r,
            b,
        ),
{
}

impl Bubble {
    /// Centre and radius stay where arithmetic on them cannot overflow.
    pub open spec fn bounded(&self) -> bool {
        in_limit(self.x as int) && in_limit(self.y as int) && in_limit(self.r as int)
    }

    pub fn new(x: i64, y: i64, r: i64, color: Color, index: i32) -> (b: Self)
        ensures
            b == (Bubble { x, y, r, color, index }),
    {
        Bubble { x, y, r, color, index }
    }

    /// Whether a circle at (`x`, `y`) of radius `r` touches or overlaps this
    /// bubble.
    pub fn does_collide(&self, x: i64, y: i64, r: i64) -> (hit: bool)
        requires
            self.bounded(),
            in_limit(x as int),
            in_limit(y as int),
            in_limit(r as int),
        ensures
            hit == overlaps(x as int, y as int, r as int, *self),
    {
        let dx: i128 = self.x as i128 - x as i128;
        let dy: i128 = self.y as i128 - y as i128;
        let radius_sum: i128 = self.r as i128 + r as i128;
        assert(0 <= dx * dx <= 0x1000_0000_0000_0000_0000_0000_0000_0000) by (nonlinear_arith)
            requires
                -0x2000_0000_0000_0000 <= dx <= 0x2000_0000_0000_0000,
        ;
        assert(0 <= dy * dy <= 0x1000_0000_0000_0000_0000_0000_0000_0000) by (nonlinear_arith)
            requires
                -0x2000_0000_0000_0000 <= dy <= 0x2000_0000_0000_0000,
        ;
        assert(0 <= radius_sum * radius_sum <= 0x1000_0000_0000_0000_0000_0000_0000_0000)
            by (nonlinear_arith)
            requires
                -0x2000_0000_0000_0000 <= radius_sum <= 0x2000_0000_0000_0000,
        ;
        let distance_squared: i128 = dx * dx + dy * dy;
        distance_squared <= radius_sum * radius_sum
    }
}

/// The board for a field of `field_width` by `field_height` pixels: rows of
/// 15, 14, ... 1 and 0 bubbles, bottom row first, each centred across the
/// field, numbered from 0 in the order they are laid out.
pub fn draw_bubbles(field_width: u32, field_height: u32) -> (bubbles: Vec<Bubble>)
    ensures
        bubbles@.len() == row_first(ROWS as nat),
        forall|row: nat, col: int|
            row < ROWS && 0 <= col < row_count(row) ==> bubbles@[row_first(row) + col]
                == #[trigger] layout_bubble(field_width, field_height, row, col),
        forall|k: int| 0 <= k < bubbles@.len() ==> #[trigger] bubbles@[k].index == k,
{
    let fw: i64 = field_width as i64 * UNITS_PER_PIXEL;
    let fh: i64 = field_height as i64 * UNITS_PER_PIXEL;
    let mut count: i64 = WIDEST_ROW;
    let mut y: i64 = fh - BUBBLE_R - PADDING;
    let mut index: i32 = 0;
    let mut bubbles: Vec<Bubble> = Vec::new();
    let ghost mut row: nat = 0;
    while count >= 0
        invariant
            0 <= row <= ROWS,
            count == WIDEST_ROW - row,
            fw == field_units(field_width),
            fh == field_units(field_height),
            y == row_y(field_height, row as int),
            index == row_first(row),
            bubbles@.len() == index,
            forall|rr: nat, col: int|
                rr < row && 0 <= col < row_count(rr) ==> bubbles@[row_first(rr) + col]
                    == #[trigger] layout_bubble(field_width, field_height, rr, col),
            forall|k: int| 0 <= k < bubbles@.len() ==> #[trigger] bubbles@[k].index == k,
        decreases count + 1,
    {
        let row_width: i64 = count * PITCH - PADDING;
        let start_x: i64 = (fw - row_width) / 2 + BUBBLE_R;
        assert(start_x == row_start_x(field_width, row_count(row)));
        proof {
            lemma_row_first_grows(row, ROWS as nat);
            lemma_board_size();
        }
        let mut i: i64 = 0;
        while i < count
            invariant
                0 <= i <= count,
                row < ROWS,
                count == WIDEST_ROW - row,
                start_x == row_start_x(field_width, row_count(row)),
                y == row_y(field_height, row as int),
                row_first(row) + count <= row_first(ROWS as nat),
                row_first(ROWS as nat) == 120,
                index == row_first(row) + i,
                bubbles@.len() == index,
                forall|rr: nat, col: int|
                    rr < row && 0 <= col < row_count(rr) ==> bubbles@[row_first(rr) + col]
                        == #[trigger] layout_bubble(field_width, field_height, rr, col),
                forall|col: int|
                    0 <= col < i ==> bubbles@[row_first(row) + col]
                        == #[trigger] layout_bubble(field_width, field_height, row, col),
                forall|k: int| 0 <= k < bubbles@.len() ==> #[trigger] bubbles@[k].index == k,
            decreases count - i,
        {
            let x: i64 = start_x + i * PITCH;
            let bubble = Bubble { x, y, r: BUBBLE_R, color: Color::yellow(), index };
            let ghost before = bubbles@;
            bubbles.push(bubble);
            proof {
                assert(bubbles@ == before.push(bubble));
                assert(bubble == layout_bubble(field_width, field_height, row, i as int));
                assert forall|col: int|
                    0 <= col < i + 1 implies bubbles@[row_first(row) + col]
                        == #[trigger] layout_bubble(field_width, field_height, row, col) by {
                    lemma_row_first_grows(0, row);
                    if col < i {
                        assert(bubbles@[row_first(row) + col] == before[row_first(row) + col]);
                    }
                }
                assert forall|rr: nat, col: int|
                    rr < row && 0 <= col < row_count(rr) implies bubbles@[row_first(rr) + col]
                        == #[trigger] layout_bubble(field_width, field_height, rr, col) by {
                    lemma_row_first_grows(rr, row);
                    lemma_row_first_grows(0, rr);
                    assert(bubbles@[row_first(rr) + col] == before[row_first(rr) + col]);
                }
            }
            index = index + 1;
            i = i + 1;
        }
        count = count - 1;
        y = y - PITCH;
        proof {
            row = row + 1;
        }
    }
    bubbles
}

} // verus!
