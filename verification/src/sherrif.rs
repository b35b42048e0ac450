//! A player: where it stands, how it walks, aims and is struck.
use vstd::prelude::*;
use crate::geometry::{
    dots, fills, glyph_dots, paint, DrawCommand, Rgb, COORD_LIMIT, DOT, HALF, SCREEN_HEIGHT,
    WALL_DISTANCE_FROM_TOP, WALL_SIZE,
};
use crate::obstacle::{OBSTACLE_H, OBSTACLE_W, OBSTACLE_X, OBSTACLE_Y};
use crate::sprites::{lemma_standing_bitmap_unique, pose_rows, sherrif_image, Pose, LEFT};

verus! {

/// How far a player moves per unit of direction and step, in half pixels (two pixels).
pub const PLAYER_SPEED: i64 = 4;
/// The topmost position a player may stand at, in half pixels: just below the top wall.
pub const FIELD_TOP: i64 = (WALL_SIZE + WALL_DISTANCE_FROM_TOP) * HALF;
/// The bottom of the field, in half pixels: the top of the bottom wall.
pub const FIELD_BOTTOM: i64 = (SCREEN_HEIGHT - WALL_SIZE) * HALF;
/// The width of one half of the field, in half pixels (400 pixels).
pub const HALF_FIELD: i64 = 800;

/// A player. Positions are the upper left corner of its bitmap, in half
/// pixels; times are in milliseconds.
#[derive(Clone, Copy, Debug, PartialEq, Eq, Structural)]
pub struct Sherrif {
    pub color: Rgb,
    pub x: i64,
    pub y: i64,
    /// Width of the bitmap, in dots.
    pub w: u32,
    /// Height of the bitmap, in dots.
    pub h: u32,
    /// The bitmap the player shows.
    pub pose: Pose,
    /// When the player last took a step.
    pub prevstep: u32,
    /// When the standing and walking bitmaps last swapped.
    pub prevswap: u32,
    pub iswalking: bool,
    /// How long each walking bitmap shows.
    pub swaptime: u32,
    pub isaiming: bool,
    /// The vertical direction last asked for: 1 down, -1 up, 0 level.
    pub vertical_movement: i32,
    /// The half of the field the player keeps to.
    pub side: usize,
    /// How many times the player has been struck.
    pub hits: i32,
    /// Whether the player's bullet is in flight.
    pub isshooting: bool,
    /// Whether the player was struck during this turn.
    pub ishit: bool,
}

impl Sherrif {
    /// A player is eight dots wide and sixteen high, keeps to one of the two
    /// halves of the field, faces one of three vertical directions, and stands
    /// within reach of the field.
    pub open spec fn wf(self) -> bool {
        &&& self.w == 8
        &&& self.h == 16
        &&& self.side < 2
        &&& -1 <= self.vertical_movement <= 1
        &&& -COORD_LIMIT <= self.x <= COORD_LIMIT
        &&& -COORD_LIMIT <= self.y <= COORD_LIMIT
    }

    /// Width of the player, in half pixels.
    pub open spec fn spec_truewidth(self) -> int {
        self.w * DOT
    }

    /// Height of the player, in half pixels.
    pub open spec fn spec_trueheight(self) -> int {
        self.h * DOT
    }

    /// Whether the player stands between the walls, in its own half of the field.
    pub open spec fn on_own_half(self) -> bool {
        &&& FIELD_TOP <= self.y <= FIELD_BOTTOM - self.spec_trueheight()
        &&& self.side * HALF_FIELD <= self.x <= (self.side + 1) * HALF_FIELD - self.spec_truewidth()
    }

    /// Whether the player's bitmap overlaps the bush.
    pub open spec fn overlaps_bush(self) -> bool {
        &&& self.x < OBSTACLE_X + OBSTACLE_W
        &&& self.x + self.spec_truewidth() > OBSTACLE_X
        &&& self.y < OBSTACLE_Y + OBSTACLE_H
        &&& self.y + self.spec_trueheight() > OBSTACLE_Y
    }
}

/// The position (`x`, `y`) of a player of the given size and half of the
/// field after it is held between the walls and within its half, in that order:
/// top, bottom, left, right.
pub open spec fn keep_on_field(side: int, width: int, height: int, x: int, y: int) -> (int, int) {
    let y1 = if y < FIELD_TOP { FIELD_TOP as int } else { y };
    let y2 = if y1 > FIELD_BOTTOM - height { FIELD_BOTTOM - height } else { y1 };
    let x1 = if x < side * HALF_FIELD { side * HALF_FIELD } else { x };
    let x2 = if x1 > (side + 1) * HALF_FIELD - width { (side + 1) * HALF_FIELD - width } else { x1 };
    (x2, y2)
}

/// The position (`x`, `y`) of a player of the given size after it is pushed
/// back out of the bush. Each of the bush's four edges is a band one dot deep;
/// a player whose leading side lies inside a band is set back against that
/// edge. The bands are tried in turn, left, right, top, bottom, each on the
/// position the previous ones left.
pub open spec fn push_out_of_bush(width: int, height: int, x: int, y: int) -> (int, int) {
    let ox = OBSTACLE_X as int;
    let oy = OBSTACLE_Y as int;
    let ow = OBSTACLE_W as int;
    let oh = OBSTACLE_H as int;
    let x1 = if x + width > ox && x + width < ox + DOT && y < oy + oh && y + height > oy {
        ox - width
    } else {
        x
    };
    let x2 = if x1 > ox + ow - DOT && x1 < ox + ow && y < oy + oh && y + height > oy {
        ox + ow
    } else {
        x1
    };
    let y1 = if y + height > oy && y + height < oy + DOT && x2 < ox + ow && x2 + width > ox {
        oy - height
    } else {
        y
    };
    let y2 = if y1 > oy + oh - DOT && y1 < oy + oh && x2 < ox + ow && x2 + width > ox {
        oy + oh
    } else {
        y1
    };
    (x2, y2)
}

/// The sign of `d`: 1, -1 or 0.
pub open spec fn direction(d: int) -> i32 {
    if d > 0 {
        1
    } else if d < 0 {
        -1i32
    } else {
        0
    }
}

/// A player after it is asked to move by (`dx`, `dy`) units at time `ticks`.
/// A player whose bullet is in flight does nothing. An aiming player only
/// turns to the vertical direction asked for. Any other player turns that way,
/// walks (when either unit is not zero) `PLAYER_SPEED` half pixels per unit,
/// is held on its half of the field and pushed out of the bush, and records
/// `ticks` as the time of its last step.
pub open spec fn spec_move(s: Sherrif, dx: int, dy: int, ticks: u32) -> Sherrif {
    if s.isshooting {
        s
    } else if s.isaiming {
        Sherrif { vertical_movement: direction(dy), ..s }
    } else {
        let walking = dx != 0 || dy != 0;
        let x0 = if walking { s.x + PLAYER_SPEED * dx } else { s.x as int };
        let y0 = if walking { s.y + PLAYER_SPEED * dy } else { s.y as int };
        let held = keep_on_field(s.side as int, s.spec_truewidth(), s.spec_trueheight(), x0, y0);
        let pushed = push_out_of_bush(s.spec_truewidth(), s.spec_trueheight(), held.0, held.1);
        Sherrif {
            vertical_movement: direction(dy),
            iswalking: walking,
            x: pushed.0 as i64,
            y: pushed.1 as i64,
            prevstep: ticks,
            ..s
        }
    }
}

impl Sherrif {
    /// Width of the player, in half pixels.
    pub fn truewidth(&self) -> (r: i64)
        ensures
            r == self.spec_truewidth(),
    {
        (self.w as i64) * DOT
    }

    /// Height of the player, in half pixels.
    pub fn trueheight(&self) -> (r: i64)
        ensures
            r == self.spec_trueheight(),
    {
        (self.h as i64) * DOT
    }

    /// Moves the player by (`deltax`, `deltay`) units at time `ticks`, as
    /// `spec_move` says. A player that walks, or stands still without aiming
    /// or shooting, ends between the walls in its own half of the field.
    #[allow(non_snake_case)]
    pub fn Move(&mut self, deltax: i32, deltay: i32, ticks: u32)
        requires
            old(self).wf(),
        ensures
            *final(self) == spec_move(*old(self), deltax as int, deltay as int, ticks),
            final(self).wf(),
            !old(self).isshooting && !old(self).isaiming ==> final(self).on_own_half(),
    {
        if self.isshooting {
            return;
        }
        if deltay > 0 {
            self.vertical_movement = 1;
        } else if deltay < 0 {
            self.vertical_movement = -1;
        } else {
            self.vertical_movement = 0;
        }
        if self.isaiming {
            return;
        }
        let mut x: i64 = self.x;
        let mut y: i64 = self.y;
        if deltax != 0 || deltay != 0 {
            self.iswalking = true;
            x = x + PLAYER_SPEED * (deltax as i64);
            y = y + PLAYER_SPEED * (deltay as i64);
        } else {
            self.iswalking = false;
        }
        let width = self.truewidth();
        let height = self.trueheight();
        let side = self.side as i64;
        // keep the player off the walls and on its own half
        if y < FIELD_TOP {
            y = FIELD_TOP;
        }
        if y > FIELD_BOTTOM - height {
            y = FIELD_BOTTOM - height;
        }
        if x < side * HALF_FIELD {
            x = side * HALF_FIELD;
        }
        if x > (side + 1) * HALF_FIELD - width {
            x = (side + 1) * HALF_FIELD - width;
        }
        // push the player back out of the bush
        if x + width > OBSTACLE_X && x + width < OBSTACLE_X + DOT && y < OBSTACLE_Y + OBSTACLE_H
            && y + height > OBSTACLE_Y {
            x = OBSTACLE_X - width;
        }
        if x > OBSTACLE_X + OBSTACLE_W - DOT && x < OBSTACLE_X + OBSTACLE_W && y < OBSTACLE_Y
            + OBSTACLE_H && y + height > OBSTACLE_Y {
            x = OBSTACLE_X + OBSTACLE_W;
        }
        if y + height > OBSTACLE_Y && y + height < OBSTACLE_Y + DOT && x < OBSTACLE_X + OBSTACLE_W
            && x + width > OBSTACLE_X {
            y = OBSTACLE_Y - height;
        }
        if y > OBSTACLE_Y + OBSTACLE_H - DOT && y < OBSTACLE_Y + OBSTACLE_H && x < OBSTACLE_X
            + OBSTACLE_W && x + width > OBSTACLE_X {
            y = OBSTACLE_Y + OBSTACLE_H;
        }
        self.x = x;
        self.y = y;
        self.prevstep = ticks;
    }
}

/// The bitmap an aiming player shows for its vertical direction.
pub open spec fn aiming_pose(vertical_movement: i32) -> Pose {
    if vertical_movement > 0 {
        Pose::ShootDown
    } else if vertical_movement < 0 {
        Pose::ShootUp
    } else {
        Pose::ShootStraight
    }
}

/// A player after its bitmap is brought up to date at time `ticks`. A player
/// whose bullet is in flight keeps its bitmap. An aiming player shows the
/// aiming bitmap for its vertical direction. Any other player, once its
/// `swaptime` has passed since the last swap, records the swap and shows the
/// walking bitmap if it is walking and was standing, else the standing one.
pub open spec fn spec_step_cycle(s: Sherrif, ticks: u32) -> Sherrif {
    if s.isshooting {
        s
    } else if s.isaiming {
        Sherrif { pose: aiming_pose(s.vertical_movement), ..s }
    } else if ticks >= s.prevswap + s.swaptime {
        Sherrif {
            prevswap: ticks,
            pose: if s.iswalking && s.pose == Pose::Stand {
                Pose::Walk
            } else {
                Pose::Stand
            },
            ..s
        }
    } else {
        s
    }
}

/// Whether `spec_step_cycle` can run without its time sum leaving `u32`.
pub open spec fn step_cycle_in_range(s: Sherrif) -> bool {
    !s.isshooting && !s.isaiming ==> s.prevswap + s.swaptime <= u32::MAX
}

/// A player after being struck `n` times: its count of hits grows by `n`,
/// and it shows the struck bitmap.
pub open spec fn struck(s: Sherrif, n: int) -> Sherrif {
    Sherrif { hits: (s.hits + n) as i32, pose: Pose::Hit, ishit: true, ..s }
}

/// The paint commands that draw a player: one dot in its colour for each set
/// bit of the bitmap of its pose and side, with the bitmap's upper left corner
/// at the player's position.
pub open spec fn sherrif_paint(s: Sherrif) -> Seq<DrawCommand> {
    fills(s.color, glyph_dots(pose_rows(s.pose, s.side), s.x as int, s.y as int, 16))
}

fn same_rows(a: &[u8; 16], b: &[u8; 16]) -> (r: bool)
    ensures
        r == (a@ == b@),
{
    let mut i: usize = 0;
    while i < 16
        invariant
            0 <= i <= 16,
            forall|k: int| 0 <= k < i ==> a@[k] == b@[k],
        decreases 16 - i,
    {
        if a[i] != b[i] {
            return false;
        }
        i = i + 1;
    }
    assert(a@ =~= b@);
    true
}

/// Builds a player of colour `c` at (`posx`, `posy`) half pixels, keeping to
/// half `side` of the field, created at time `creation_time`. It stands
/// still, has not been struck, and swaps walking bitmaps every 400
/// milliseconds on the left and every 380 on the right.
pub fn initialize_sherrif(c: Rgb, posx: i64, posy: i64, creation_time: u32, side: usize) -> (s: Sherrif)
    requires
        side < 2,
        -COORD_LIMIT <= posx <= COORD_LIMIT,
        -COORD_LIMIT <= posy <= COORD_LIMIT,
    ensures
        s.wf(),
        s == (Sherrif {
            color: c,
            x: posx,
            y: posy,
            w: 8,
            h: 16,
            pose: Pose::Stand,
            prevstep: creation_time,
            prevswap: creation_time,
            iswalking: false,
            swaptime: if side == LEFT { 400 } else { 380 },
            isaiming: false,
            vertical_movement: 0,
            side,
            hits: 0,
            isshooting: false,
            ishit: false,
        }),
{
    let swaptime: u32 = if side == LEFT { 400 } else { 380 };
    Sherrif {
        color: c,
        x: posx,
        y: posy,
        w: 8,
        h: 16,
        pose: Pose::Stand,
        prevstep: creation_time,
        prevswap: creation_time,
        iswalking: false,
        side: side,
        isaiming: false,
        swaptime: swaptime,
        vertical_movement: 0,
        hits: 0,
        isshooting: false,
        ishit: false,
    }
}

impl Sherrif {
    /// Brings the player's bitmap up to date at time `ticks`, as
    /// `spec_step_cycle` says.
    pub fn step_cycle_handler(&mut self, ticks: u32)
        requires
            old(self).wf(),
            step_cycle_in_range(*old(self)),
        ensures
            *final(self) == spec_step_cycle(*old(self), ticks),
            final(self).wf(),
    {
        if self.isshooting {
            return;
        }
        if self.isaiming {
            if self.vertical_movement > 0 {
                self.pose = Pose::ShootDown;
            } else if self.vertical_movement < 0 {
                self.pose = Pose::ShootUp;
            } else {
                self.pose = Pose::ShootStraight;
            }
        } else {
            if ticks >= self.prevswap + self.swaptime {
                self.prevswap = ticks;
                if self.iswalking {
                    let current = sherrif_image(self.pose, self.side);
                    let standing = sherrif_image(Pose::Stand, self.side);
                    proof {
                        lemma_standing_bitmap_unique(self.pose, self.side);
                    }
                    if same_rows(&current, &standing) {
                        self.pose = Pose::Walk;
                    } else {
                        self.pose = Pose::Stand;
                    }
                } else {
                    self.pose = Pose::Stand;
                }
            }
        }
    }

    /// Records that a bullet struck the player: one more hit, and the struck bitmap.
    pub fn hit(&mut self)
        requires
            old(self).wf(),
            old(self).hits < i32::MAX,
        ensures
            *final(self) == struck(*old(self), 1),
            final(self).wf(),
    {
        self.hits += 1;
        self.pose = Pose::Hit;
        self.ishit = true;
    }

    /// The paint commands that draw the player, as `sherrif_paint` says.
    #[allow(non_snake_case)]
    pub fn drawOn(&self) -> (r: Vec<DrawCommand>)
        requires
            self.wf(),
        ensures
            r@ == sherrif_paint(*self),
    {
        let img = sherrif_image(self.pose, self.side);
        let rects = dots(&img, self.x, self.y);
        paint(self.color, &rects)
    }
}

/// Moving keeps a player well formed, on its side, with its hits; a player
/// on its own half of the field stays there, and one that walks or stands
/// without aiming or shooting ends there.
pub proof fn lemma_move_keeps_on_own_half(s: Sherrif, dx: int, dy: int, ticks: u32)
    requires
        s.wf(),
    ensures
        spec_move(s, dx, dy, ticks).wf(),
        spec_move(s, dx, dy, ticks).side == s.side,
        spec_move(s, dx, dy, ticks).hits == s.hits,
        s.on_own_half() ==> spec_move(s, dx, dy, ticks).on_own_half(),
        !s.isshooting && !s.isaiming ==> spec_move(s, dx, dy, ticks).on_own_half(),
{
}

/// How a player's bitmap changes over time. A player whose bullet is in
/// flight keeps it. An aiming player shows the aiming bitmap for its
/// direction: down when its vertical direction is positive, up when negative,
/// straight when level. Any other player keeps its bitmap until `swaptime`
/// has passed since the last swap; then it records the swap and, while
/// walking, alternates between the standing and the walking bitmap, and
/// otherwise stands. Nothing else about the player changes.
pub proof fn lemma_step_cycle_poses(s: Sherrif, ticks: u32)
    ensures
        ({
            let r = spec_step_cycle(s, ticks);
            &&& r == (Sherrif { pose: r.pose, prevswap: r.prevswap, ..s })
            &&& s.isshooting ==> r == s
            &&& !s.isshooting && s.isaiming ==> r.prevswap == s.prevswap && r.pose == if s.vertical_movement > 0 {
                Pose::ShootDown
            } else if s.vertical_movement < 0 {
                Pose::ShootUp
            } else {
                Pose::ShootStraight
            }
            &&& !s.isshooting && !s.isaiming && ticks < s.prevswap + s.swaptime ==> r == s
            &&& !s.isshooting && !s.isaiming && ticks >= s.prevswap + s.swaptime ==> {
                &&& r.prevswap == ticks
                &&& s.iswalking && s.pose == Pose::Stand ==> r.pose == Pose::Walk
                &&& s.iswalking && s.pose == Pose::Walk ==> r.pose == Pose::Stand
                &&& !s.iswalking ==> r.pose == Pose::Stand
                &&& r.pose == Pose::Stand || r.pose == Pose::Walk
            }
        }),
{
}

/// A player standing clear of the bush on its own half of the field that
/// steps at most one unit moves at most `PLAYER_SPEED` half pixels along the
/// axis it steps on: a step sideways leaves its height alone, and a step up or
/// down changes its height by at most one step, whatever the bush does.
pub proof fn lemma_move_step_is_short(s: Sherrif, dx: int, dy: int, ticks: u32)
    requires
        s.wf(),
        s.on_own_half(),
        !s.overlaps_bush(),
        -1 <= dx <= 1,
        -1 <= dy <= 1,
    ensures
        dy == 0 ==> spec_move(s, dx, dy, ticks).y == s.y,
        dy == 0 ==> -PLAYER_SPEED <= spec_move(s, dx, dy, ticks).x - s.x <= PLAYER_SPEED,
        dx == 0 ==> -PLAYER_SPEED <= spec_move(s, dx, dy, ticks).y - s.y <= PLAYER_SPEED,
{
}

/// What a move does, in terms of the player before it. A player whose
/// bullet is in flight does not change. Any other player turns to the
/// vertical direction asked for (down for positive `dy`, up for negative,
/// level for zero). An aiming player does nothing more. Any other player
/// records `ticks` as its last step, is walking exactly when a direction is
/// asked for, and when the step of `PLAYER_SPEED` half pixels per unit lands
/// it on its own half of the field without overlapping the bush, lands
/// exactly there.
pub proof fn lemma_move_walks_and_turns(s: Sherrif, dx: int, dy: int, ticks: u32)
    requires
        s.wf(),
    ensures
        ({
            let r = spec_move(s, dx, dy, ticks);
            let nx = s.x + PLAYER_SPEED * dx;
            let ny = s.y + PLAYER_SPEED * dy;
            let lands_on_half = FIELD_TOP <= ny <= FIELD_BOTTOM - s.h * DOT && s.side * HALF_FIELD
                <= nx <= (s.side + 1) * HALF_FIELD - s.w * DOT;
            let lands_in_bush = nx < OBSTACLE_X + OBSTACLE_W && nx + s.w * DOT > OBSTACLE_X && ny
                < OBSTACLE_Y + OBSTACLE_H && ny + s.h * DOT > OBSTACLE_Y;
            &&& s.isshooting ==> r == s
            &&& !s.isshooting ==> (r.vertical_movement == if dy > 0 {
                1
            } else if dy < 0 {
                -1
            } else {
                0
            })
            &&& !s.isshooting && s.isaiming ==> r == (Sherrif { vertical_movement: r.vertical_movement, ..s })
            &&& !s.isshooting && !s.isaiming ==> {
                &&& r.prevstep == ticks
                &&& r.iswalking == (dx != 0 || dy != 0)
                &&& lands_on_half && !lands_in_bush ==> r.x == nx && r.y == ny
                &&& r == (Sherrif {
                    x: r.x,
                    y: r.y,
                    vertical_movement: r.vertical_movement,
                    iswalking: r.iswalking,
                    prevstep: r.prevstep,
                    ..s
                })
            }
        }),
{
}

/// A player standing clear of the bush on its own half of the field never
/// walks into the bush when it steps at most one unit along each axis.
pub proof fn lemma_move_keeps_clear_of_bush(s: Sherrif, dx: int, dy: int, ticks: u32)
    requires
        s.wf(),
        s.on_own_half(),
        !s.overlaps_bush(),
        -1 <= dx <= 1,
        -1 <= dy <= 1,
    ensures
        !spec_move(s, dx, dy, ticks).overlaps_bush(),
{
}

} // verus!
