//! Screen geometry, colours and the paint commands that a frame is made of.
//!
//! Positions on the field are counted in half pixels. Every position the game
//! reaches is a whole number of half pixels (players step two pixels at a
//! time, bullets one and a half), so integers hold them exactly; a dot on the
//! screen lands on the pixel that the half-pixel position truncates to.
use vstd::prelude::*;
use crate::bits::bit;

verus! {

/// Width of the window, in pixels.
pub const SCREEN_WIDTH: i64 = 800;
/// Height of the window, in pixels.
pub const SCREEN_HEIGHT: i64 = 600;
/// Side of one dot of a bitmap, in pixels.
pub const SIZE_OF_DOT: i64 = 8;
/// Thickness of the top and bottom walls, in pixels.
pub const WALL_SIZE: i64 = 16;
/// Distance of the top wall from the top of the window (the scoreboard's height), in pixels.
pub const WALL_DISTANCE_FROM_TOP: i64 = 96;
/// Half pixels in one pixel.
pub const HALF: i64 = 2;
/// Side of one dot, in half pixels.
pub const DOT: i64 = 16;
/// Largest distance from the origin, in half pixels, at which a player may
/// stand: 2^52 half pixels, as far as a floating-point position still holds
/// every half pixel exactly.
pub const COORD_LIMIT: i64 = 0x10_0000_0000_0000;

/// An opaque red-green-blue colour.
#[derive(Clone, Copy, Debug, PartialEq, Eq, Structural)]
pub struct Rgb {
    pub r: u8,
    pub g: u8,
    pub b: u8,
}

/// Builds a colour from its three channels.
#[allow(non_snake_case)]
pub fn RGB(r: u8, g: u8, b: u8) -> (c: Rgb)
    ensures
        c == (Rgb { r, g, b }),
{
    Rgb { r, g, b }
}

/// A rectangle on the screen, in pixels: its upper left corner and its size.
#[derive(Clone, Copy, Debug, PartialEq, Eq, Structural)]
pub struct Rect {
    pub x: i32,
    pub y: i32,
    pub w: u32,
    pub h: u32,
}

/// One step of painting a frame.
#[derive(Clone, Copy, Debug, PartialEq, Eq, Structural)]
pub enum DrawCommand {
    /// Fill the whole window with a colour.
    Clear(Rgb),
    /// Fill a rectangle with a colour.
    Fill(Rgb, Rect),
}

/// The pixel that a position in half pixels falls on: the position in pixels
/// truncated toward zero, and held to the range of `i32`.
pub open spec fn pixel_of(v: int) -> i32 {
    let t = if v >= 0 { v / 2 } else { -((-v) / 2) };
    if t > i32::MAX {
        i32::MAX
    } else if t < i32::MIN {
        i32::MIN
    } else {
        t as i32
    }
}

/// Converts a position in half pixels to the pixel it falls on.
pub fn to_pixel(v: i64) -> (p: i32)
    ensures
        p == pixel_of(v as int),
{
    let t: i64 = if v >= 0 {
        v / 2
    } else {
        let m: i64 = -(v + 1);
        -(m / 2 + m % 2)
    };
    if t > i32::MAX as i64 {
        i32::MAX
    } else if t < i32::MIN as i64 {
        i32::MIN
    } else {
        t as i32
    }
}

/// Each rectangle filled with one colour, in order.
pub open spec fn fills(color: Rgb, rects: Seq<Rect>) -> Seq<DrawCommand> {
    rects.map_values(|r: Rect| DrawCommand::Fill(color, r))
}

/// Paints each rectangle in `color`, in order.
pub fn paint(color: Rgb, rects: &Vec<Rect>) -> (r: Vec<DrawCommand>)
    ensures
        r@ == fills(color, rects@),
{
    let mut out: Vec<DrawCommand> = Vec::new();
    let mut i: usize = 0;
    while i < rects.len()
        invariant
            0 <= i <= rects@.len(),
            out@ == fills(color, rects@.take(i as int)),
        decreases rects@.len() - i,
    {
        out.push(DrawCommand::Fill(color, rects[i]));
        i = i + 1;
        assert(rects@.take(i as int) =~= rects@.take(i - 1).push(rects@[i - 1]));
        assert(out@ =~= fills(color, rects@.take(i as int)));
    }
    assert(rects@.take(rects@.len() as int) =~= rects@);
    out
}

/// A position in half pixels falls on the pixel that holds it: half the
/// position rounded toward zero, whenever that pixel fits in `i32`.
pub proof fn lemma_pixel_of_halves(v: int)
    requires
        i32::MIN <= v / 2 <= i32::MAX,
        i32::MIN <= -((-v) / 2) <= i32::MAX,
    ensures
        v >= 0 ==> 2 * pixel_of(v) <= v < 2 * pixel_of(v) + 2,
        v < 0 ==> 2 * pixel_of(v) - 2 < v <= 2 * pixel_of(v),
{
}

/// The square of one dot whose upper left corner is at (`x`, `y`) half pixels.
pub open spec fn dot_at(x: int, y: int) -> Rect {
    Rect { x: pixel_of(x), y: pixel_of(y), w: 8, h: 8 }
}

/// The dots of the first `n` columns of a bitmap row drawn at (`x`, `y`):
/// column `j` is lit when bit `7 - j` of the row is set.
pub open spec fn row_dots(row: u8, x: int, y: int, n: nat) -> Seq<Rect>
    decreases n,
{
    if n == 0 {
        seq![]
    } else {
        row_dots(row, x, y, (n - 1) as nat) + if bit(row, (8 - n) as u8) {
            seq![dot_at(x + DOT * (n - 1), y)]
        } else {
            seq![]
        }
    }
}

/// The dots of the first `n` rows of a bitmap drawn with its upper left
/// corner at (`x`, `y`) half pixels, row after row, left to right.
pub open spec fn glyph_dots(rows: Seq<u8>, x: int, y: int, n: nat) -> Seq<Rect>
    decreases n,
{
    if n == 0 {
        seq![]
    } else {
        glyph_dots(rows, x, y, (n - 1) as nat) + row_dots(rows[n - 1], x, y + DOT * (n - 1), 8)
    }
}

/// The square drawn for the dot in column `j` of row `i` of a bitmap whose
/// upper left corner is at (`x`, `y`) half pixels.
pub open spec fn dot_square(x: int, y: int, i: int, j: int) -> Rect {
    Rect { x: pixel_of(x + DOT * j), y: pixel_of(y + DOT * i), w: 8, h: 8 }
}

/// Whether the dot in column `j` (0 leftmost) of bitmap row `row` is lit:
/// bit `7 - j` of the row is set.
pub open spec fn lit(row: u8, j: int) -> bool {
    (row >> ((7 - j) as u8)) & 1 == 1
}

/// Whether `r` is the square of a lit dot among the first `n` columns of a
/// bitmap row drawn at (`x`, `y`).
pub open spec fn lit_in_row(row: u8, x: int, y: int, n: nat, r: Rect) -> bool {
    exists|j: int| 0 <= j < n && lit(row, j) && r == dot_square(x, y, 0, j)
}

/// Whether `r` is the square of a lit dot among the first `n` rows of a
/// bitmap drawn with its upper left corner at (`x`, `y`).
pub open spec fn lit_in_glyph(rows: Seq<u8>, x: int, y: int, n: nat, r: Rect) -> bool {
    exists|i: int, j: int| 0 <= i < n && 0 <= j < 8 && lit(rows[i], j) && r == dot_square(x, y, i, j)
}

proof fn lemma_row_dots_exact(row: u8, x: int, y: int, n: nat)
    requires
        n <= 8,
    ensures
        forall|j: int|
            0 <= j < n && lit(row, j) ==> row_dots(row, x, y, n).contains(
                #[trigger] dot_square(x, y, 0, j),
            ),
        forall|k: int|
            0 <= k < row_dots(row, x, y, n).len() ==> lit_in_row(
                row,
                x,
                y,
                n,
                #[trigger] row_dots(row, x, y, n)[k],
            ),
    decreases n,
{
    if n > 0 {
        lemma_row_dots_exact(row, x, y, (n - 1) as nat);
        let prev = row_dots(row, x, y, (n - 1) as nat);
        let cur = row_dots(row, x, y, n);
        assert(bit(row, (8 - n) as u8) == lit(row, n - 1));
        assert forall|j: int| 0 <= j < n && lit(row, j) implies cur.contains(
            #[trigger] dot_square(x, y, 0, j),
        ) by {
            if j < n - 1 {
                let k = choose|k: int| 0 <= k < prev.len() && prev[k] == dot_square(x, y, 0, j);
                assert(cur[k] == prev[k]);
            } else {
                assert(cur[prev.len() as int] == dot_square(x, y, 0, j));
            }
        }
        assert forall|k: int| 0 <= k < cur.len() implies lit_in_row(
            row,
            x,
            y,
            n,
            #[trigger] cur[k],
        ) by {
            if k < prev.len() {
                assert(cur[k] == prev[k]);
                assert(lit_in_row(row, x, y, (n - 1) as nat, prev[k]));
                let j = choose|j: int|
                    0 <= j < n - 1 && lit(row, j) && prev[k] == dot_square(x, y, 0, j);
                assert(0 <= j < n && lit(row, j) && cur[k] == dot_square(x, y, 0, j));
            } else {
                assert(0 <= n - 1 < n && lit(row, n - 1) && cur[k] == dot_square(x, y, 0, n - 1));
            }
        }
    }
}

/// A bitmap is drawn as exactly its lit dots: for each row `i` and column `j`
/// (column 0 leftmost) whose bit `7 - j` is set, the eight-pixel square at
/// `j` dots right of and `i` dots below the corner is drawn, and every square
/// drawn is one of those.
pub proof fn lemma_glyph_dots_exact(rows: Seq<u8>, x: int, y: int, n: nat)
    requires
        n <= rows.len(),
    ensures
        forall|i: int, j: int|
            0 <= i < n && 0 <= j < 8 && lit(rows[i], j) ==> glyph_dots(rows, x, y, n).contains(
                #[trigger] dot_square(x, y, i, j),
            ),
        forall|k: int|
            0 <= k < glyph_dots(rows, x, y, n).len() ==> lit_in_glyph(
                rows,
                x,
                y,
                n,
                #[trigger] glyph_dots(rows, x, y, n)[k],
            ),
    decreases n,
{
    if n > 0 {
        lemma_glyph_dots_exact(rows, x, y, (n - 1) as nat);
        let row_y = y + DOT * (n - 1);
        lemma_row_dots_exact(rows[n - 1], x, row_y, 8);
        let prev = glyph_dots(rows, x, y, (n - 1) as nat);
        let rd = row_dots(rows[n - 1], x, row_y, 8);
        let cur = glyph_dots(rows, x, y, n);
        assert(cur == prev + rd);
        assert forall|i: int, j: int|
            0 <= i < n && 0 <= j < 8 && lit(rows[i], j) implies cur.contains(
                #[trigger] dot_square(x, y, i, j),
            ) by {
            if i < n - 1 {
                let k = choose|k: int| 0 <= k < prev.len() && prev[k] == dot_square(x, y, i, j);
                assert(cur[k] == prev[k]);
            } else {
                assert(dot_square(x, row_y, 0, j) == dot_square(x, y, i, j));
                assert(rd.contains(dot_square(x, row_y, 0, j)));
                let k = choose|k: int| 0 <= k < rd.len() && rd[k] == dot_square(x, row_y, 0, j);
                assert(cur[prev.len() + k] == rd[k]);
            }
        }
        assert forall|k: int| 0 <= k < cur.len() implies lit_in_glyph(
            rows,
            x,
            y,
            n,
            #[trigger] cur[k],
        ) by {
            if k < prev.len() {
                assert(cur[k] == prev[k]);
                assert(lit_in_glyph(rows, x, y, (n - 1) as nat, prev[k]));
                let (i, j) = choose|i: int, j: int|
                    0 <= i < n - 1 && 0 <= j < 8 && lit(rows[i], j) && prev[k] == dot_square(x, y, i, j);
                assert(0 <= i < n && 0 <= j < 8 && lit(rows[i], j) && cur[k] == dot_square(x, y, i, j));
            } else {
                assert(cur[k] == rd[k - prev.len()]);
                assert(lit_in_row(rows[n - 1], x, row_y, 8, rd[k - prev.len()]));
                let j = choose|j: int|
                    0 <= j < 8 && lit(rows[n - 1], j) && rd[k - prev.len()] == dot_square(x, row_y, 0, j);
                assert(dot_square(x, row_y, 0, j) == dot_square(x, y, n - 1, j));
                assert(0 <= n - 1 < n && 0 <= j < 8 && lit(rows[n - 1], j) && cur[k] == dot_square(
                    x,
                    y,
                    n - 1,
                    j,
                ));
            }
        }
    }
}

proof fn lemma_shift_step(r: u8, j: u8)
    by (bit_vector)
    requires
        j < 8,
    ensures
        ((r << j) >= 0x80u8) == ((r >> (7 - j) as u8) & 1 == 1),
        (r << j) << 1u8 == r << (j + 1) as u8,
{
}

/// The dots of a bitmap drawn with its upper left corner at (`x`, `y`) half
/// pixels: one eight-pixel square for each set bit, most significant bit leftmost.
pub fn dots(rows: &[u8], x: i64, y: i64) -> (r: Vec<Rect>)
    requires
        rows@.len() <= 16,
        -COORD_LIMIT <= x <= COORD_LIMIT,
        -COORD_LIMIT <= y <= COORD_LIMIT,
    ensures
        r@ == glyph_dots(rows@, x as int, y as int, rows@.len()),
{
    let mut out: Vec<Rect> = Vec::new();
    let n = rows.len();
    let mut i: usize = 0;
    while i < n
        invariant
            n == rows@.len(),
            n <= 16,
            0 <= i <= n,
            -COORD_LIMIT <= x <= COORD_LIMIT,
            -COORD_LIMIT <= y <= COORD_LIMIT,
            out@ == glyph_dots(rows@, x as int, y as int, i as nat),
        decreases n - i,
    {
        let row = rows[i];
        let mut b: u8 = row;
        let ghost before = out@;
        let row_y: i64 = y + DOT * (i as i64);
        let mut j: u8 = 0;
        assert(row << 0u8 == row) by (bit_vector);
        while j < 8
            invariant
                0 <= j <= 8,
                b == row << j,
                -COORD_LIMIT <= x <= COORD_LIMIT,
                out@ == before + row_dots(row, x as int, row_y as int, j as nat),
            decreases 8 - j,
        {
            proof {
                lemma_shift_step(row, j);
            }
            if b >= 0x80 {
                let px = to_pixel(x + DOT * (j as i64));
                let py = to_pixel(row_y);
                out.push(Rect { x: px, y: py, w: 8, h: 8 });
            }
            b = b << 1u8;
            j = j + 1;
            assert(out@ =~= before + row_dots(row, x as int, row_y as int, j as nat));
        }
        i = i + 1;
    }
    out
}

} // verus!
