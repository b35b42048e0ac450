//! A bullet: how it is fired, flies, bounces off the walls and strikes.
use vstd::prelude::*;
use crate::geometry::{
    pixel_of, to_pixel, DrawCommand, Rect, Rgb, DOT, HALF, SCREEN_HEIGHT, SCREEN_WIDTH, SIZE_OF_DOT,
};
use crate::obstacle::{OBSTACLE_H, OBSTACLE_W, OBSTACLE_X, OBSTACLE_Y};
use crate::sherrif::{struck, Sherrif, FIELD_BOTTOM, FIELD_TOP};

verus! {

/// How far a bullet flies per unit of velocity and step, in half pixels (one and a half pixels).
pub const BULLET_SPEED: i64 = 3;
/// Where a bullet waits when it is not in flight, on both axes, in half pixels (200 pixels off the window).
pub const PARKED: i64 = -400;

/// A bullet. Its position is the upper left corner of its one-dot square, in
/// half pixels; its velocity is in units of `BULLET_SPEED` per step.
#[derive(Clone, Copy, Debug, PartialEq, Eq, Structural)]
pub struct Bullet {
    pub x: i64,
    pub y: i64,
    pub color: Rgb,
    pub deltax: i32,
    pub deltay: i32,
    /// When the bullet last moved, in milliseconds.
    pub last_move_time: u32,
    /// The half of the field of the player who fires it.
    pub side: usize,
}

/// Builds the bullet of the player on half `side` of the field, parked off
/// the window and still.
pub fn initialize_bullet(c: Rgb, side: usize, shoot_time: u32) -> (b: Bullet)
    ensures
        b == (Bullet {
            x: PARKED,
            y: PARKED,
            color: c,
            deltax: 0,
            deltay: 0,
            last_move_time: shoot_time,
            side,
        }),
{
    let bullet = Bullet {
        color: c,
        x: PARKED,
        y: PARKED,
        deltax: 0,
        deltay: 0,
        last_move_time: shoot_time,
        side: side,
    };
    bullet
}

/// Whether a bullet at (`x`, `y`) lies within one dot of the window.
pub open spec fn in_screen(x: int, y: int) -> bool {
    !(x > (SCREEN_WIDTH + SIZE_OF_DOT) * HALF || y > (SCREEN_HEIGHT + SIZE_OF_DOT) * HALF || x < -DOT
        || y < -DOT)
}

/// Whether a bullet at (`bx`, `by`) touches the border of the target
/// rectangle (`tx`, `ty`, `tw`, `th`): its square lies in one of the four
/// edge bands, each one dot deep along one edge of the target. The bullet's
/// right side is inside the left band, its left side inside the right band,
/// its bottom inside the top band, or its top inside the bottom band, while
/// the bullet spans the target across.
pub open spec fn touches_edge(bx: int, by: int, tx: int, ty: int, tw: int, th: int) -> bool {
    ||| bx + DOT > tx && bx + DOT < tx + DOT && by < ty + th && by + DOT > ty
    ||| bx > tx + tw - DOT && bx < tx + tw && by < ty + th && by + DOT > ty
    ||| by + DOT > ty && by + DOT < ty + DOT && bx < tx + tw && bx + DOT > tx
    ||| by > ty + th - DOT && by < ty + th && bx < tx + tw && bx + DOT > tx
}

/// Whether a bullet at (`bx`, `by`) touches the border of the bush.
pub open spec fn touches_bush(bx: int, by: int) -> bool {
    touches_edge(bx, by, OBSTACLE_X as int, OBSTACLE_Y as int, OBSTACLE_W as int, OBSTACLE_H as int)
}

/// Whether a bullet at (`bx`, `by`) touches the border of player `s`.
pub open spec fn touches_sherrif(bx: int, by: int, s: Sherrif) -> bool {
    touches_edge(bx, by, s.x as int, s.y as int, s.spec_truewidth(), s.spec_trueheight())
}

/// Where the bullet is after one step of flight.
pub open spec fn next_x(b: Bullet) -> int {
    b.x + BULLET_SPEED * b.deltax
}

/// Where the bullet is after one step of flight.
pub open spec fn next_y(b: Bullet) -> int {
    b.y + BULLET_SPEED * b.deltay
}

/// Whether the bullet meets a wall after one step of flight.
pub open spec fn meets_wall(b: Bullet) -> bool {
    next_y(b) <= FIELD_TOP || next_y(b) >= FIELD_BOTTOM
}

/// The bullet, the left player and the right player after one step of
/// flight of bullet `b` between players `s0` and `s1`. The bullet flies one
/// step and turns back vertically on meeting a wall. A bullet that touches
/// the opposing player strikes it once. When the bullet touches the bush or
/// the opposing player, it is parked off the window and stilled, and its
/// owner is no longer shooting.
pub open spec fn spec_bullet_step(b: Bullet, s0: Sherrif, s1: Sherrif) -> (Bullet, Sherrif, Sherrif) {
    let nx = next_x(b);
    let ny = next_y(b);
    let ndy = if meets_wall(b) { -b.deltay } else { b.deltay as int };
    let opp = if b.side == 0 { s1 } else { s0 };
    let own = if b.side == 0 { s0 } else { s1 };
    let strikes = touches_sherrif(nx, ny, opp);
    let opp2 = if strikes { struck(opp, 1) } else { opp };
    let hit = touches_bush(nx, ny) || strikes;
    let b2 = if hit {
        Bullet { x: PARKED, y: PARKED, deltax: 0, deltay: 0, ..b }
    } else {
        Bullet { x: nx as i64, y: ny as i64, deltay: ndy as i32, ..b }
    };
    let own2 = if hit { Sherrif { isshooting: false, ..own } } else { own };
    if b.side == 0 {
        (b2, own2, opp2)
    } else {
        (b2, opp2, own2)
    }
}

/// Whether one step of flight of `b` between `s0` and `s1` keeps every
/// number it computes within its type: the new position within `i64`, the
/// turned velocity within `i32`, and a struck opposing player's hits within `i32`.
pub open spec fn bullet_step_in_range(b: Bullet, s0: Sherrif, s1: Sherrif) -> bool {
    let opp = if b.side == 0 { s1 } else { s0 };
    &&& b.side < 2
    &&& i64::MIN <= next_x(b) <= i64::MAX
    &&& i64::MIN <= next_y(b) <= i64::MAX
    &&& meets_wall(b) ==> b.deltay > i32::MIN
    &&& touches_sherrif(next_x(b), next_y(b), opp) ==> opp.hits < i32::MAX
}

/// A bullet that touches the bush or the opposing player leaves the window
/// and stands still, and its owner may fire again.
pub proof fn lemma_spent_bullet_leaves_window(b: Bullet, s0: Sherrif, s1: Sherrif)
    requires
        b.side < 2,
        touches_bush(next_x(b), next_y(b)) || touches_sherrif(
            next_x(b),
            next_y(b),
            if b.side == 0 { s1 } else { s0 },
        ),
    ensures
        !in_screen(spec_bullet_step(b, s0, s1).0.x as int, spec_bullet_step(b, s0, s1).0.y as int),
        spec_bullet_step(b, s0, s1).0.deltax == 0,
        spec_bullet_step(b, s0, s1).0.deltay == 0,
        b.side == 0 ==> !spec_bullet_step(b, s0, s1).1.isshooting,
        b.side == 1 ==> !spec_bullet_step(b, s0, s1).2.isshooting,
{
}

/// A bullet's step is one of two things. Either it is spent: parked off the
/// window and still. Or it flies exactly one step of its velocity, keeping its
/// horizontal velocity, and its vertical velocity turns back when the step
/// reaches the top wall (at or above `FIELD_TOP`) or the bottom wall (at or
/// below `FIELD_BOTTOM`) and is kept otherwise. A bullet whose next square
/// overlaps neither the bush nor the opposing player is never spent.
pub proof fn lemma_bullet_flies_and_bounces(b: Bullet, s0: Sherrif, s1: Sherrif)
    requires
        b.side < 2,
        s0.wf(),
        s1.wf(),
        i64::MIN <= b.x + BULLET_SPEED * b.deltax <= i64::MAX,
        i64::MIN <= b.y + BULLET_SPEED * b.deltay <= i64::MAX,
        b.deltay > i32::MIN,
    ensures
        ({
            let r = spec_bullet_step(b, s0, s1).0;
            let nx = b.x + BULLET_SPEED * b.deltax;
            let ny = b.y + BULLET_SPEED * b.deltay;
            let flies = r.x == nx && r.y == ny && r.deltax == b.deltax && r.deltay == if ny
                <= FIELD_TOP || ny >= FIELD_BOTTOM {
                -b.deltay
            } else {
                b.deltay as int
            };
            let spent = r.x == PARKED && r.y == PARKED && r.deltax == 0 && r.deltay == 0;
            let opp = if b.side == 0 { s1 } else { s0 };
            let clear_of_bush = !(nx < OBSTACLE_X + OBSTACLE_W && nx + DOT > OBSTACLE_X && ny
                < OBSTACLE_Y + OBSTACLE_H && ny + DOT > OBSTACLE_Y);
            let clear_of_opp = !(nx < opp.x + opp.w * DOT && nx + DOT > opp.x && ny < opp.y + opp.h
                * DOT && ny + DOT > opp.y);
            &&& flies || spent
            &&& clear_of_bush && clear_of_opp ==> flies
            &&& r.side == b.side && r.color == b.color && r.last_move_time == b.last_move_time
        }),
{
}

/// A bullet's step scores at most one hit, and only on the opposing player,
/// and only by being spent: a bullet that flies on leaves both players as they
/// were; a spent bullet frees its owner to fire again; and a spent bullet
/// whose next square does not overlap the bush has struck the opponent. (A
/// still bullet already parked off the window counts as flying on.)
pub proof fn lemma_bullet_scores_once(b: Bullet, s0: Sherrif, s1: Sherrif)
    requires
        b.side < 2,
        s0.wf(),
        s1.wf(),
        i64::MIN <= b.x + BULLET_SPEED * b.deltax <= i64::MAX,
        i64::MIN <= b.y + BULLET_SPEED * b.deltay <= i64::MAX,
        b.deltay > i32::MIN,
        (if b.side == 0 { s1 } else { s0 }).hits < i32::MAX,
    ensures
        ({
            let f = spec_bullet_step(b, s0, s1);
            let r = f.0;
            let own_before = if b.side == 0 { s0 } else { s1 };
            let opp_before = if b.side == 0 { s1 } else { s0 };
            let own = if b.side == 0 { f.1 } else { f.2 };
            let opp = if b.side == 0 { f.2 } else { f.1 };
            let nx = b.x + BULLET_SPEED * b.deltax;
            let ny = b.y + BULLET_SPEED * b.deltay;
            let spent = r.x == PARKED && r.y == PARKED && r.deltax == 0 && r.deltay == 0;
            let parked_still = nx == PARKED && ny == PARKED && b.deltax == 0 && b.deltay == 0;
            let clear_of_bush = !(nx < OBSTACLE_X + OBSTACLE_W && nx + DOT > OBSTACLE_X && ny
                < OBSTACLE_Y + OBSTACLE_H && ny + DOT > OBSTACLE_Y);
            &&& opp_before.hits <= opp.hits <= opp_before.hits + 1
            &&& own.hits == own_before.hits
            &&& opp.hits == opp_before.hits + 1 ==> spent && opp.ishit
            &&& opp.hits == opp_before.hits ==> opp == opp_before
            &&& spent && !parked_still && clear_of_bush ==> opp.hits == opp_before.hits + 1
            &&& !spent ==> own == own_before && opp == opp_before
            &&& spent && !parked_still ==> own == (Sherrif { isshooting: false, ..own_before })
        }),
{
}

/// The paint commands that draw a bullet: its square in its colour when it
/// lies within one dot of the window, else nothing.
pub open spec fn bullet_paint(b: Bullet) -> Seq<DrawCommand> {
    if in_screen(b.x as int, b.y as int) {
        seq![
            DrawCommand::Fill(
                b.color,
                Rect { x: pixel_of(b.x as int), y: pixel_of(b.y as int), w: 8, h: 8 },
            ),
        ]
    } else {
        seq![]
    }
}

/// Whether a bullet at (`bx`, `by`) touches the border of the bush.
fn bullet_touches_bush(bx: i64, by: i64) -> (hit: bool)
    ensures
        hit == touches_bush(bx as int, by as int),
{
    let mut hit = false;
    if bx > OBSTACLE_X - DOT && bx < OBSTACLE_X && by < OBSTACLE_Y + OBSTACLE_H && by
        > OBSTACLE_Y - DOT {
        hit = true;
    }
    if bx > OBSTACLE_X + OBSTACLE_W - DOT && bx < OBSTACLE_X + OBSTACLE_W && by < OBSTACLE_Y
        + OBSTACLE_H && by > OBSTACLE_Y - DOT {
        hit = true;
    }
    if by > OBSTACLE_Y - DOT && by < OBSTACLE_Y && bx < OBSTACLE_X + OBSTACLE_W && bx
        > OBSTACLE_X - DOT {
        hit = true;
    }
    if by > OBSTACLE_Y + OBSTACLE_H - DOT && by < OBSTACLE_Y + OBSTACLE_H && bx < OBSTACLE_X
        + OBSTACLE_W && bx > OBSTACLE_X - DOT {
        hit = true;
    }
    hit
}

/// Strikes player `target` once when a bullet at (`bx`, `by`) touches its
/// border, and tells whether it did.
fn strike(target: &mut Sherrif, bx: i64, by: i64) -> (hit: bool)
    requires
        old(target).wf(),
        touches_sherrif(bx as int, by as int, *old(target)) ==> old(target).hits < i32::MAX,
    ensures
        hit == touches_sherrif(bx as int, by as int, *old(target)),
        *final(target) == if hit {
            struck(*old(target), 1)
        } else {
            *old(target)
        },
        final(target).wf(),
{
    let ox = target.x;
    let oy = target.y;
    let ow = target.truewidth();
    let oh = target.trueheight();
    let hit = (bx > ox - DOT && bx < ox && by < oy + oh && by > oy - DOT) || (bx > ox + ow - DOT
        && bx < ox + ow && by < oy + oh && by > oy - DOT) || (by > oy - DOT && by < oy && bx < ox
        + ow && bx > ox - DOT) || (by > oy + oh - DOT && by < oy + oh && bx < ox + ow && bx > ox
        - DOT);
    if hit {
        target.hit();
    }
    hit
}

impl Bullet {
    /// Whether the bullet lies within one dot of the window.
    #[allow(non_snake_case)]
    pub fn isInScreen(&self) -> (r: bool)
        ensures
            r == in_screen(self.x as int, self.y as int),
            r == (-16 <= self.x <= 1616 && -16 <= self.y <= 1216),
    {
        if self.x > (SCREEN_WIDTH + SIZE_OF_DOT) * HALF || self.y > (SCREEN_HEIGHT + SIZE_OF_DOT)
            * HALF || self.x < -DOT || self.y < -DOT {
            return false;
        }
        true
    }

    /// Moves the bullet one step between the two players, as
    /// `spec_bullet_step` says, and gives the players back.
    pub fn move_bullet(&mut self, sherrifs: [Sherrif; 2]) -> (r: [Sherrif; 2])
        requires
            sherrifs[0].wf(),
            sherrifs[1].wf(),
            bullet_step_in_range(*old(self), sherrifs[0], sherrifs[1]),
        ensures
            (*final(self), r[0], r[1]) == spec_bullet_step(*old(self), sherrifs[0], sherrifs[1]),
            r[0].wf(),
            r[1].wf(),
    {
        let mut sherrifs = sherrifs;
        self.x = self.x + BULLET_SPEED * (self.deltax as i64);
        self.y = self.y + BULLET_SPEED * (self.deltay as i64);
        if self.y <= FIELD_TOP || self.y >= FIELD_BOTTOM {
            self.deltay = -self.deltay;
        }
        let bx = self.x;
        let by = self.y;
        let mut hit = bullet_touches_bush(bx, by);
        let opposing_index = 1 - self.side;
        let mut opposing_sherrif = sherrifs[opposing_index];
        if strike(&mut opposing_sherrif, bx, by) {
            hit = true;
        }
        sherrifs[opposing_index] = opposing_sherrif;
        if hit {
            self.x = PARKED;
            self.y = PARKED;
            self.deltax = 0;
            self.deltay = 0;
            let own_index = self.side;
            let mut own = sherrifs[own_index];
            own.isshooting = false;
            sherrifs[own_index] = own;
        }
        sherrifs
    }

    /// Fires the bullet from (`x`, `y`) half pixels with velocity
    /// (`deltax`, `deltay`) at time `shoot_time`.
    pub fn shoot(&mut self, x: i64, y: i64, deltax: i32, deltay: i32, shoot_time: u32)
        ensures
            *final(self) == (Bullet {
                x,
                y,
                deltax,
                deltay,
                last_move_time: shoot_time,
                ..*old(self)
            }),
    {
        self.x = x;
        self.y = y;
        self.deltax = deltax;
        self.deltay = deltay;
        self.last_move_time = shoot_time;
    }

    /// The paint commands that draw the bullet, as `bullet_paint` says.
    #[allow(non_snake_case)]
    pub fn drawOn(&self) -> (r: Vec<DrawCommand>)
        ensures
            r@ == bullet_paint(*self),
    {
        let mut out: Vec<DrawCommand> = Vec::new();
        if self.isInScreen() {
            let r = Rect { x: to_pixel(self.x), y: to_pixel(self.y), w: 8, h: 8 };
            out.push(DrawCommand::Fill(self.color, r));
        }
        assert(out@ =~= bullet_paint(*self));
        out
    }
}

} // verus!
