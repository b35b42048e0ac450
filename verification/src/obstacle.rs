//! The bush in the middle of the field, which stops players and bullets.
use vstd::prelude::*;
use crate::geometry::{dots, fills, glyph_dots, paint, DrawCommand, Rgb, COORD_LIMIT, DOT, RGB};
use crate::sprites::{obstacle_image, obstacle_rows};

verus! {

/// Left edge of the bush, in half pixels: 32 pixels left of the middle of the window.
pub const OBSTACLE_X: i64 = 736;
/// Top edge of the bush, in half pixels: 64 pixels above the middle of the field below the scoreboard.
pub const OBSTACLE_Y: i64 = 568;
/// Width of the bush, in half pixels.
pub const OBSTACLE_W: i64 = 8 * DOT;
/// Height of the bush, in half pixels.
pub const OBSTACLE_H: i64 = 16 * DOT;

/// The bush: its colour, the upper left corner of its bitmap in half pixels,
/// and its size in dots.
#[derive(Clone, Copy, Debug, PartialEq, Eq, Structural)]
pub struct Obstacle {
    pub color: Rgb,
    pub x: i64,
    pub y: i64,
    pub w: u32,
    pub h: u32,
}

/// The bush as the game places it.
pub open spec fn the_obstacle() -> Obstacle {
    Obstacle {
        color: Rgb { r: 0x88, g: 0x99, b: 0x33 },
        x: OBSTACLE_X,
        y: OBSTACLE_Y,
        w: 8,
        h: 16,
    }
}

/// Builds the bush, in the middle of the field.
pub fn initialize_obstacle() -> (o: Obstacle)
    ensures
        o == the_obstacle(),
        o.wf(),
{
    let c = RGB(0x88, 0x99, 0x33);
    Obstacle { color: c, x: OBSTACLE_X, y: OBSTACLE_Y, w: 8, h: 16 }
}

impl Obstacle {
    /// A bush is eight dots wide and sixteen high, and lies within reach of the field.
    pub open spec fn wf(self) -> bool {
        &&& self.w == 8
        &&& self.h == 16
        &&& -COORD_LIMIT <= self.x <= COORD_LIMIT
        &&& -COORD_LIMIT <= self.y <= COORD_LIMIT
    }

    /// Width of the bush, in half pixels.
    pub open spec fn spec_truewidth(self) -> int {
        self.w * DOT
    }

    /// Height of the bush, in half pixels.
    pub open spec fn spec_trueheight(self) -> int {
        self.h * DOT
    }

    /// Width of the bush, in half pixels.
    pub fn truewidth(&self) -> (r: i64)
        ensures
            r == self.spec_truewidth(),
    {
        (self.w as i64) * DOT
    }

    /// Height of the bush, in half pixels.
    pub fn trueheight(&self) -> (r: i64)
        ensures
            r == self.spec_trueheight(),
    {
        (self.h as i64) * DOT
    }

    /// The paint commands that draw the bush: one dot for each set bit of its
    /// bitmap, in its colour.
    #[allow(non_snake_case)]
    pub fn drawOn(&self) -> (r: Vec<DrawCommand>)
        requires
            self.wf(),
        ensures
            r@ == fills(self.color, glyph_dots(obstacle_rows(), self.x as int, self.y as int, 16)),
    {
        let img = obstacle_image();
        let rects = dots(&img, self.x, self.y);
        paint(self.color, &rects)
    }
}

} // verus!
