//! One turn of the duel: the players walk, aim and fire, the bullets fly, and
//! a player struck pauses the game for a second.
use vstd::prelude::*;
use crate::bullet::{
    bullet_step_in_range, in_screen, initialize_bullet, spec_bullet_step, Bullet,
};
use crate::geometry::RGB;
use crate::sherrif::{
    initialize_sherrif, lemma_move_keeps_clear_of_bush, lemma_move_keeps_on_own_half, spec_move,
    spec_step_cycle,
    step_cycle_in_range, Sherrif,
};
use crate::sprites::{LEFT, RIGHT};

verus! {

/// Milliseconds between a player's steps.
pub const STEPTIME: u32 = 20;
/// Milliseconds between a bullet's steps.
pub const BULLETTIME: u32 = 10;
/// Milliseconds the game stands still after a player is struck.
pub const PAUSE: i32 = 1000;
/// Hits that end the game.
pub const WINNING_HITS: i32 = 10;
/// How far below a player's middle its bullet starts per unit its opponent's
/// aim is not upward, in half pixels (24 pixels).
pub const MUZZLE_DROP: i64 = 48;
/// Speed of a fired bullet along the field.
pub const BULLET_VELOCITY: i32 = 3;

/// The keys one player holds down during a turn.
#[derive(Clone, Copy, Debug, PartialEq, Eq, Structural)]
pub struct Controls {
    pub up: bool,
    pub down: bool,
    pub left: bool,
    pub right: bool,
    pub fire: bool,
}

/// The whole game: two players, their bullets, and when a player was last struck.
#[derive(Clone, Copy, Debug, PartialEq, Eq, Structural)]
pub struct World {
    pub sherrif1: Sherrif,
    pub sherrif2: Sherrif,
    pub bullet1: Bullet,
    pub bullet2: Bullet,
    /// When the game last paused, in milliseconds, as a signed count.
    pub world_last_deactivation: i32,
}

/// How a turn ends.
#[derive(Clone, Copy, Debug)]
pub enum Turn {
    /// A player has been struck enough times: the game is over.
    Over,
    /// The game goes on; the scoreboard shows the hits of these two players.
    Play([Sherrif; 2]),
}

impl World {
    /// The first player keeps to the left half and fires the first bullet;
    /// the second keeps to the right half and fires the second.
    pub open spec fn wf(self) -> bool {
        &&& self.sherrif1.wf()
        &&& self.sherrif2.wf()
        &&& self.sherrif1.side == LEFT
        &&& self.sherrif2.side == RIGHT
        &&& self.bullet1.side == LEFT
        &&& self.bullet2.side == RIGHT
    }

    /// Both players' counts of hits lie within what the scoreboard can show.
    pub open spec fn scores_in_range(self) -> bool {
        &&& 0 <= self.sherrif1.hits <= WINNING_HITS
        &&& 0 <= self.sherrif2.hits <= WINNING_HITS
    }

    /// Both players stand on their own half of the field, clear of the bush.
    pub open spec fn well_placed(self) -> bool {
        &&& self.sherrif1.on_own_half()
        &&& !self.sherrif1.overlaps_bush()
        &&& self.sherrif2.on_own_half()
        &&& !self.sherrif2.overlaps_bush()
    }
}

/// The world at the start of a game begun at time `ticks`: the first player
/// at (200, 200) pixels, the second at (600, 400) created 200 milliseconds
/// later, both bullets parked, and the last pause a second ago.
pub open spec fn spec_new_world(ticks: u32) -> World {
    let c1 = crate::geometry::Rgb { r: 102, g: 51, b: 153 };
    let c2 = crate::geometry::Rgb { r: 51, g: 153, b: 102 };
    World {
        sherrif1: Sherrif {
            color: c1,
            x: 400,
            y: 400,
            w: 8,
            h: 16,
            pose: crate::sprites::Pose::Stand,
            prevstep: ticks,
            prevswap: ticks,
            iswalking: false,
            swaptime: 400,
            isaiming: false,
            vertical_movement: 0,
            side: LEFT,
            hits: 0,
            isshooting: false,
            ishit: false,
        },
        sherrif2: Sherrif {
            color: c2,
            x: 1200,
            y: 800,
            w: 8,
            h: 16,
            pose: crate::sprites::Pose::Stand,
            prevstep: (ticks + 200) as u32,
            prevswap: (ticks + 200) as u32,
            iswalking: false,
            swaptime: 380,
            isaiming: false,
            vertical_movement: 0,
            side: RIGHT,
            hits: 0,
            isshooting: false,
            ishit: false,
        },
        bullet1: Bullet {
            x: crate::bullet::PARKED,
            y: crate::bullet::PARKED,
            color: c1,
            deltax: 0,
            deltay: 0,
            last_move_time: ticks,
            side: LEFT,
        },
        bullet2: Bullet {
            x: crate::bullet::PARKED,
            y: crate::bullet::PARKED,
            color: c2,
            deltax: 0,
            deltay: 0,
            last_move_time: ticks,
            side: RIGHT,
        },
        world_last_deactivation: ((ticks as i32) - PAUSE) as i32,
    }
}

/// Whether a game can begin at time `ticks` with every number within its
/// type: the second player's creation time, and the time of the last pause.
pub open spec fn new_world_in_range(ticks: u32) -> bool {
    &&& ticks + 200 <= u32::MAX
    &&& (ticks as i32) - PAUSE >= i32::MIN
}

/// A player after its walking step at time `ticks`: once `STEPTIME` has
/// passed since its last step, it stops, then moves one unit for each
/// direction key held, in the order up, down, left, right.
#[verifier::opaque]
pub open spec fn spec_walk(s: Sherrif, ticks: u32, c: Controls) -> Sherrif {
    if ticks >= s.prevstep + STEPTIME {
        let s0 = spec_move(Sherrif { iswalking: false, ..s }, 0, 0, ticks);
        let s1 = if c.up { spec_move(s0, 0, -1, ticks) } else { s0 };
        let s2 = if c.down { spec_move(s1, 0, 1, ticks) } else { s1 };
        let s3 = if c.left { spec_move(s2, -1, 0, ticks) } else { s2 };
        if c.right { spec_move(s3, 1, 0, ticks) } else { s3 }
    } else {
        s
    }
}

/// A player and its bullet after the fire key: held, the player aims;
/// released by an aiming player whose bullet is not in flight, the bullet is
/// fired from (`x`, `y`) with velocity (`dx`, `dy`) at time `ticks` and the
/// player stops aiming and is shooting.
pub open spec fn spec_trigger(
    s: Sherrif,
    b: Bullet,
    fire: bool,
    x: int,
    y: int,
    dx: int,
    dy: int,
    ticks: u32,
) -> (Sherrif, Bullet) {
    if fire {
        (Sherrif { isaiming: true, ..s }, b)
    } else if s.isaiming && !s.isshooting {
        (
            Sherrif { isshooting: true, isaiming: false, ..s },
            Bullet {
                x: x as i64,
                y: y as i64,
                deltax: dx as i32,
                deltay: dy as i32,
                last_move_time: ticks,
                ..b
            },
        )
    } else {
        (s, b)
    }
}

/// Where a player's bullet starts vertically: the player's middle, lowered
/// by `MUZZLE_DROP` for each unit that `aim` (the second player's vertical
/// direction) is not upward.
pub open spec fn muzzle_y(s: Sherrif, aim: i32) -> int {
    s.y + s.spec_trueheight() / 2 - (1 - aim) * MUZZLE_DROP
}

/// Whether a bullet moves at time `ticks`.
pub open spec fn bullet_due(b: Bullet, ticks: u32) -> bool {
    ticks >= b.last_move_time + BULLETTIME
}

/// Whether the game is running (not paused) at time `ticks`.
pub open spec fn active(w: World, ticks: u32) -> bool {
    (ticks as i32) >= w.world_last_deactivation + PAUSE
}

/// The two players and their bullets after the players walk, fire or aim,
/// and have their struck marks cleared, at time `ticks`: (first player,
/// second player, first bullet, second bullet). The first player's bullet
/// starts at its right side and the second's at its left, both heading
/// toward the opponent.
#[verifier::opaque]
pub open spec fn spec_prepare(w: World, ticks: u32, c1: Controls, c2: Controls) -> (Sherrif, Sherrif, Bullet, Bullet) {
    let s1a = spec_walk(w.sherrif1, ticks, c1);
    let s2a = spec_walk(w.sherrif2, ticks, c2);
    let t1 = spec_trigger(
        s1a,
        w.bullet1,
        c1.fire,
        s1a.x + s1a.spec_truewidth(),
        muzzle_y(s1a, s2a.vertical_movement),
        BULLET_VELOCITY as int,
        s1a.vertical_movement * BULLET_VELOCITY,
        ticks,
    );
    let t2 = spec_trigger(
        s2a,
        w.bullet2,
        c2.fire,
        s2a.x as int,
        muzzle_y(s2a, s2a.vertical_movement),
        -BULLET_VELOCITY,
        s2a.vertical_movement * BULLET_VELOCITY,
        ticks,
    );
    (Sherrif { ishit: false, ..t1.0 }, Sherrif { ishit: false, ..t2.0 }, t1.1, t2.1)
}

/// The first player, the second player, the first bullet and the
/// scoreboard's copy of the players after the first bullet's turn at time
/// `ticks`. A due bullet near the window flies one step acting on the
/// scoreboard's copy, the players are then taken from that copy, and the
/// first player no longer aims; a due bullet off the window frees the first
/// player to fire again.
#[verifier::opaque]
pub open spec fn spec_first_flight(
    s1: Sherrif,
    s2: Sherrif,
    b: Bullet,
    board: [Sherrif; 2],
    ticks: u32,
) -> (Sherrif, Sherrif, Bullet, [Sherrif; 2]) {
    let f = spec_bullet_step(b, board[0], board[1]);
    if bullet_due(b, ticks) && in_screen(b.x as int, b.y as int) {
        (Sherrif { isaiming: false, ..f.1 }, f.2, Bullet { last_move_time: ticks, ..f.0 }, [f.1, f.2])
    } else if bullet_due(b, ticks) {
        (Sherrif { isshooting: false, ..s1 }, s2, b, board)
    } else {
        (s1, s2, b, board)
    }
}

/// As `spec_first_flight`, for the second bullet, which frees the second
/// player and leaves aiming alone.
#[verifier::opaque]
pub open spec fn spec_second_flight(
    s1: Sherrif,
    s2: Sherrif,
    b: Bullet,
    board: [Sherrif; 2],
    ticks: u32,
) -> (Sherrif, Sherrif, Bullet, [Sherrif; 2]) {
    let f = spec_bullet_step(b, board[0], board[1]);
    if bullet_due(b, ticks) && in_screen(b.x as int, b.y as int) {
        (f.1, f.2, Bullet { last_move_time: ticks, ..f.0 }, [f.1, f.2])
    } else if bullet_due(b, ticks) {
        (s1, Sherrif { isshooting: false, ..s2 }, b, board)
    } else {
        (s1, s2, b, board)
    }
}

/// The world and the scoreboard's players after a running turn at time
/// `ticks`: the players prepare, the first bullet and then the second take
/// their turn on the scoreboard's copy of the players as they were when the
/// turn began, both players' bitmaps are brought up to date, and if either is
/// marked struck the game pauses from `ticks`.
pub open spec fn spec_running_turn(w: World, ticks: u32, c1: Controls, c2: Controls) -> (World, [Sherrif; 2]) {
    let p = spec_prepare(w, ticks, c1, c2);
    let f1 = spec_first_flight(p.0, p.1, p.2, [w.sherrif1, w.sherrif2], ticks);
    let f2 = spec_second_flight(f1.0, f1.1, p.3, f1.3, ticks);
    let s1 = spec_step_cycle(f2.0, ticks);
    let s2 = spec_step_cycle(f2.1, ticks);
    let wld = if s1.ishit || s2.ishit { ticks as i32 } else { w.world_last_deactivation };
    (
        World {
            sherrif1: s1,
            sherrif2: s2,
            bullet1: f1.2,
            bullet2: f2.2,
            world_last_deactivation: wld,
        },
        f2.3,
    )
}

/// Whether a running turn at time `ticks` keeps every number it computes
/// within its type: the players' and bullets' next step times, the bullets'
/// flight, and the players' next bitmap swap times.
pub open spec fn running_turn_in_range(w: World, ticks: u32, c1: Controls, c2: Controls) -> bool {
    let p = spec_prepare(w, ticks, c1, c2);
    let board0 = [w.sherrif1, w.sherrif2];
    let f1 = spec_first_flight(p.0, p.1, p.2, board0, ticks);
    let f2 = spec_second_flight(f1.0, f1.1, p.3, f1.3, ticks);
    &&& w.sherrif1.prevstep + STEPTIME <= u32::MAX
    &&& w.sherrif2.prevstep + STEPTIME <= u32::MAX
    &&& p.2.last_move_time + BULLETTIME <= u32::MAX
    &&& bullet_due(p.2, ticks) && in_screen(p.2.x as int, p.2.y as int) ==> bullet_step_in_range(
        p.2,
        board0[0],
        board0[1],
    )
    &&& p.3.last_move_time + BULLETTIME <= u32::MAX
    &&& bullet_due(p.3, ticks) && in_screen(p.3.x as int, p.3.y as int) ==> bullet_step_in_range(
        p.3,
        f1.3[0],
        f1.3[1],
    )
    &&& step_cycle_in_range(f2.0)
    &&& step_cycle_in_range(f2.1)
}

/// The world and how the turn ends after a turn at time `ticks`. While the
/// game is paused nothing changes and the scoreboard shows the players as
/// they are. Once it runs again, a player struck `WINNING_HITS` times ends
/// the game, unchanged; otherwise the running turn is played.
pub open spec fn spec_turn(w: World, ticks: u32, c1: Controls, c2: Controls) -> (World, Turn) {
    if !active(w, ticks) {
        (w, Turn::Play([w.sherrif1, w.sherrif2]))
    } else if w.sherrif1.hits >= WINNING_HITS || w.sherrif2.hits >= WINNING_HITS {
        (w, Turn::Over)
    } else {
        let r = spec_running_turn(w, ticks, c1, c2);
        (r.0, Turn::Play(r.1))
    }
}

/// Whether a turn at time `ticks` keeps every number it computes within its
/// type: the end of the pause, and, in a running turn, `running_turn_in_range`.
pub open spec fn turn_in_range(w: World, ticks: u32, c1: Controls, c2: Controls) -> bool {
    &&& w.world_last_deactivation + PAUSE <= i32::MAX
    &&& active(w, ticks) && w.sherrif1.hits < WINNING_HITS && w.sherrif2.hits < WINNING_HITS
        ==> running_turn_in_range(w, ticks, c1, c2)
}

/// Whether a bullet at (`bx`, `by`) touches the border of player `s`.
fn touches(bx: i64, by: i64, s: &Sherrif) -> (t: bool)
    requires
        s.wf(),
    ensures
        t == crate::bullet::touches_sherrif(bx as int, by as int, *s),
{
    let ox = s.x as i128;
    let oy = s.y as i128;
    let ow = s.truewidth() as i128;
    let oh = s.trueheight() as i128;
    let x = bx as i128;
    let y = by as i128;
    let d = crate::geometry::DOT as i128;
    (x + d > ox && x + d < ox + d && y < oy + oh && y + d > oy) || (x > ox + ow - d && x < ox + ow
        && y < oy + oh && y + d > oy) || (y + d > oy && y + d < oy + d && x < ox + ow && x + d > ox)
        || (y > oy + oh - d && y < oy + oh && x < ox + ow && x + d > ox)
}

/// Whether one step of flight of `b` between `s0` and `s1` stays within range.
fn bullet_step_ok(b: &Bullet, s0: &Sherrif, s1: &Sherrif) -> (ok: bool)
    requires
        s0.wf(),
        s1.wf(),
    ensures
        ok == bullet_step_in_range(*b, *s0, *s1),
{
    if b.side >= 2 {
        return false;
    }
    let speed: i128 = crate::bullet::BULLET_SPEED as i128;
    assert(speed == 3);
    let nx: i128 = (b.x as i128) + speed * (b.deltax as i128);
    let ny: i128 = (b.y as i128) + speed * (b.deltay as i128);
    if nx < i64::MIN as i128 || nx > i64::MAX as i128 || ny < i64::MIN as i128 || ny > i64::MAX as i128 {
        return false;
    }
    if (ny <= crate::sherrif::FIELD_TOP as i128 || ny >= crate::sherrif::FIELD_BOTTOM as i128)
        && b.deltay == i32::MIN {
        return false;
    }
    let opp = if b.side == 0 { s1 } else { s0 };
    !touches(nx as i64, ny as i64, opp) || opp.hits < i32::MAX
}

/// Whether bringing `s`'s bitmap up to date stays within range.
fn step_cycle_ok(s: &Sherrif) -> (ok: bool)
    ensures
        ok == step_cycle_in_range(*s),
{
    s.isshooting || s.isaiming || s.prevswap <= u32::MAX - s.swaptime
}

/// Takes player `s`'s walking step at time `ticks`, as `spec_walk` says.
fn walk(s: &mut Sherrif, ticks: u32, c: Controls)
    requires
        old(s).wf(),
        old(s).prevstep + STEPTIME <= u32::MAX,
    ensures
        *final(s) == spec_walk(*old(s), ticks, c),
        final(s).wf(),
        final(s).side == old(s).side,
{
    reveal(spec_walk);
    if ticks >= s.prevstep + STEPTIME {
        s.iswalking = false;
        s.Move(0, 0, ticks);
        if c.up {
            s.Move(0, -1, ticks);
        }
        if c.down {
            s.Move(0, 1, ticks);
        }
        if c.left {
            s.Move(-1, 0, ticks);
        }
        if c.right {
            s.Move(1, 0, ticks);
        }
    }
}

/// Aims with or fires bullet `b` of player `s`, as `spec_trigger` says.
fn trigger(
    s: &mut Sherrif,
    b: &mut Bullet,
    fire: bool,
    x: i64,
    y: i64,
    dx: i32,
    dy: i32,
    ticks: u32,
)
    requires
        old(s).wf(),
    ensures
        (*final(s), *final(b)) == spec_trigger(*old(s), *old(b), fire, x as int, y as int, dx as int, dy as int, ticks),
        final(s).wf(),
{
    if fire {
        s.isaiming = true;
    } else {
        if s.isaiming && !s.isshooting {
            b.shoot(x, y, dx, dy, ticks);
            s.isshooting = true;
            s.isaiming = false;
        }
    }
}

/// The players' step and fire phase of a running turn, as `spec_prepare` says.
fn prepare(w: &World, ticks: u32, c1: Controls, c2: Controls) -> (r: (Sherrif, Sherrif, Bullet, Bullet))
    requires
        w.wf(),
        w.sherrif1.prevstep + STEPTIME <= u32::MAX,
        w.sherrif2.prevstep + STEPTIME <= u32::MAX,
    ensures
        r == spec_prepare(*w, ticks, c1, c2),
        r.0.wf(),
        r.1.wf(),
        r.0.side == LEFT,
        r.1.side == RIGHT,
        r.2.side == LEFT,
        r.3.side == RIGHT,
{
    reveal(spec_prepare);
    let mut sherrif1 = w.sherrif1;
    let mut sherrif2 = w.sherrif2;
    let mut bullet1 = w.bullet1;
    let mut bullet2 = w.bullet2;
    walk(&mut sherrif1, ticks, c1);
    walk(&mut sherrif2, ticks, c2);
    let x1 = sherrif1.x + sherrif1.truewidth();
    let y1 = sherrif1.y + sherrif1.trueheight() / 2 - ((1 - sherrif2.vertical_movement) as i64) * MUZZLE_DROP;
    let dy1 = sherrif1.vertical_movement * BULLET_VELOCITY;
    trigger(&mut sherrif1, &mut bullet1, c1.fire, x1, y1, BULLET_VELOCITY, dy1, ticks);
    let x2 = sherrif2.x;
    let y2 = sherrif2.y + sherrif2.trueheight() / 2 - ((1 - sherrif2.vertical_movement) as i64) * MUZZLE_DROP;
    let dy2 = sherrif2.vertical_movement * BULLET_VELOCITY;
    trigger(&mut sherrif2, &mut bullet2, c2.fire, x2, y2, -BULLET_VELOCITY, dy2, ticks);
    sherrif1.ishit = false;
    sherrif2.ishit = false;
    (sherrif1, sherrif2, bullet1, bullet2)
}

/// The first bullet's turn, as `spec_first_flight` says.
fn first_flight(
    s1: Sherrif,
    s2: Sherrif,
    b: Bullet,
    board: [Sherrif; 2],
    ticks: u32,
) -> (r: (Sherrif, Sherrif, Bullet, [Sherrif; 2]))
    requires
        s1.wf(),
        s2.wf(),
        board[0].wf(),
        board[1].wf(),
        s1.side == LEFT,
        s2.side == RIGHT,
        board[0].side == LEFT,
        board[1].side == RIGHT,
        b.last_move_time + BULLETTIME <= u32::MAX,
        bullet_due(b, ticks) && in_screen(b.x as int, b.y as int) ==> bullet_step_in_range(b, board[0], board[1]),
    ensures
        r == spec_first_flight(s1, s2, b, board, ticks),
        r.0.wf(),
        r.1.wf(),
        r.3[0].wf(),
        r.3[1].wf(),
        r.0.side == LEFT,
        r.1.side == RIGHT,
        r.2.side == b.side,
        r.3[0].side == LEFT,
        r.3[1].side == RIGHT,
{
    reveal(spec_first_flight);
    let mut s1 = s1;
    let mut s2 = s2;
    let mut b = b;
    let mut board = board;
    if ticks >= b.last_move_time + BULLETTIME {
        if b.isInScreen() {
            board = b.move_bullet(board);
            b.last_move_time = ticks;
            s1 = board[0];
            s2 = board[1];
            s1.isaiming = false;
        } else {
            if s1.isshooting {
                s1.isshooting = false;
            }
        }
    }
    (s1, s2, b, board)
}

/// The second bullet's turn, as `spec_second_flight` says.
fn second_flight(
    s1: Sherrif,
    s2: Sherrif,
    b: Bullet,
    board: [Sherrif; 2],
    ticks: u32,
) -> (r: (Sherrif, Sherrif, Bullet, [Sherrif; 2]))
    requires
        s1.wf(),
        s2.wf(),
        board[0].wf(),
        board[1].wf(),
        s1.side == LEFT,
        s2.side == RIGHT,
        board[0].side == LEFT,
        board[1].side == RIGHT,
        b.last_move_time + BULLETTIME <= u32::MAX,
        bullet_due(b, ticks) && in_screen(b.x as int, b.y as int) ==> bullet_step_in_range(b, board[0], board[1]),
    ensures
        r == spec_second_flight(s1, s2, b, board, ticks),
        r.0.wf(),
        r.1.wf(),
        r.3[0].wf(),
        r.3[1].wf(),
        r.0.side == LEFT,
        r.1.side == RIGHT,
        r.2.side == b.side,
        r.3[0].side == LEFT,
        r.3[1].side == RIGHT,
{
    reveal(spec_second_flight);
    let mut s1 = s1;
    let mut s2 = s2;
    let mut b = b;
    let mut board = board;
    if ticks >= b.last_move_time + BULLETTIME {
        if b.isInScreen() {
            board = b.move_bullet(board);
            b.last_move_time = ticks;
            s1 = board[0];
            s2 = board[1];
        } else {
            if s2.isshooting {
                s2.isshooting = false;
            }
        }
    }
    (s1, s2, b, board)
}

/// A walking step keeps a well-formed player on its own half of the field
/// and clear of the bush, on its side and with its hits.
proof fn lemma_walk_keeps_placed(s: Sherrif, ticks: u32, c: Controls)
    requires
        s.wf(),
        s.on_own_half(),
        !s.overlaps_bush(),
    ensures
        spec_walk(s, ticks, c).wf(),
        spec_walk(s, ticks, c).on_own_half(),
        !spec_walk(s, ticks, c).overlaps_bush(),
        spec_walk(s, ticks, c).side == s.side,
        spec_walk(s, ticks, c).hits == s.hits,
{
    reveal(spec_walk);
    if ticks >= s.prevstep + STEPTIME {
        let s0 = Sherrif { iswalking: false, ..s };
        lemma_move_keeps_on_own_half(s0, 0, 0, ticks);
        lemma_move_keeps_clear_of_bush(s0, 0, 0, ticks);
        let s1 = spec_move(s0, 0, 0, ticks);
        lemma_move_keeps_on_own_half(s1, 0, -1, ticks);
        lemma_move_keeps_clear_of_bush(s1, 0, -1, ticks);
        let s2 = if c.up { spec_move(s1, 0, -1, ticks) } else { s1 };
        lemma_move_keeps_on_own_half(s2, 0, 1, ticks);
        lemma_move_keeps_clear_of_bush(s2, 0, 1, ticks);
        let s3 = if c.down { spec_move(s2, 0, 1, ticks) } else { s2 };
        lemma_move_keeps_on_own_half(s3, -1, 0, ticks);
        lemma_move_keeps_clear_of_bush(s3, -1, 0, ticks);
        let s4 = if c.left { spec_move(s3, -1, 0, ticks) } else { s3 };
        lemma_move_keeps_on_own_half(s4, 1, 0, ticks);
        lemma_move_keeps_clear_of_bush(s4, 1, 0, ticks);
    }
}

/// A well-formed player on its own half of the field, clear of the bush.
pub open spec fn placed(s: Sherrif) -> bool {
    s.wf() && s.on_own_half() && !s.overlaps_bush()
}

proof fn lemma_prepare_keeps_placed(w: World, ticks: u32, c1: Controls, c2: Controls)
    requires
        w.wf(),
        w.well_placed(),
    ensures
        placed(spec_prepare(w, ticks, c1, c2).0),
        placed(spec_prepare(w, ticks, c1, c2).1),
        spec_prepare(w, ticks, c1, c2).0.side == LEFT,
        spec_prepare(w, ticks, c1, c2).1.side == RIGHT,
        spec_prepare(w, ticks, c1, c2).0.hits == w.sherrif1.hits,
        spec_prepare(w, ticks, c1, c2).1.hits == w.sherrif2.hits,
{
    reveal(spec_prepare);
    lemma_walk_keeps_placed(w.sherrif1, ticks, c1);
    lemma_walk_keeps_placed(w.sherrif2, ticks, c2);
}

proof fn lemma_flights_keep_placed(s1: Sherrif, s2: Sherrif, b: Bullet, board: [Sherrif; 2], ticks: u32)
    requires
        placed(s1),
        placed(s2),
        placed(board[0]),
        placed(board[1]),
        s1.hits == board[0].hits,
        s2.hits == board[1].hits,
        bullet_due(b, ticks) && in_screen(b.x as int, b.y as int) ==> bullet_step_in_range(b, board[0], board[1]),
    ensures
        placed(spec_first_flight(s1, s2, b, board, ticks).0),
        placed(spec_first_flight(s1, s2, b, board, ticks).1),
        placed(spec_first_flight(s1, s2, b, board, ticks).3[0]),
        placed(spec_first_flight(s1, s2, b, board, ticks).3[1]),
        spec_first_flight(s1, s2, b, board, ticks).0.hits == spec_first_flight(s1, s2, b, board, ticks).3[0].hits,
        spec_first_flight(s1, s2, b, board, ticks).1.hits == spec_first_flight(s1, s2, b, board, ticks).3[1].hits,
        spec_first_flight(s1, s2, b, board, ticks).0.hits >= s1.hits,
        spec_first_flight(s1, s2, b, board, ticks).1.hits >= s2.hits,
        placed(spec_second_flight(s1, s2, b, board, ticks).0),
        placed(spec_second_flight(s1, s2, b, board, ticks).1),
        spec_second_flight(s1, s2, b, board, ticks).0.hits >= s1.hits,
        spec_second_flight(s1, s2, b, board, ticks).1.hits >= s2.hits,
{
    reveal(spec_first_flight);
    reveal(spec_second_flight);
}

/// Whether the scoreboard can show both players' counts of hits.
pub open spec fn board_in_range(board: [Sherrif; 2]) -> bool {
    &&& 0 <= board[0].hits <= WINNING_HITS
    &&& 0 <= board[1].hits <= WINNING_HITS
}

proof fn lemma_walk_keeps_hits(s: Sherrif, ticks: u32, c: Controls)
    requires
        s.wf(),
    ensures
        spec_walk(s, ticks, c).hits == s.hits,
{
    reveal(spec_walk);
    if ticks >= s.prevstep + STEPTIME {
        let s0 = Sherrif { iswalking: false, ..s };
        lemma_move_keeps_on_own_half(s0, 0, 0, ticks);
        let s1 = spec_move(s0, 0, 0, ticks);
        lemma_move_keeps_on_own_half(s1, 0, -1, ticks);
        let s2 = if c.up { spec_move(s1, 0, -1, ticks) } else { s1 };
        lemma_move_keeps_on_own_half(s2, 0, 1, ticks);
        let s3 = if c.down { spec_move(s2, 0, 1, ticks) } else { s2 };
        lemma_move_keeps_on_own_half(s3, -1, 0, ticks);
        let s4 = if c.left { spec_move(s3, -1, 0, ticks) } else { s3 };
        lemma_move_keeps_on_own_half(s4, 1, 0, ticks);
    }
}

proof fn lemma_flights_score_once(
    s1: Sherrif,
    s2: Sherrif,
    b: Bullet,
    board: [Sherrif; 2],
    ticks: u32,
)
    requires
        s1.hits == board[0].hits,
        s2.hits == board[1].hits,
        bullet_due(b, ticks) && in_screen(b.x as int, b.y as int) ==> bullet_step_in_range(b, board[0], board[1]),
    ensures
        b.side == LEFT ==> ({
            let f = spec_first_flight(s1, s2, b, board, ticks);
            &&& f.0.hits == s1.hits
            &&& s2.hits <= f.1.hits <= s2.hits + 1
            &&& f.3[0].hits == f.0.hits
            &&& f.3[1].hits == f.1.hits
        }),
        b.side == RIGHT ==> ({
            let f = spec_second_flight(s1, s2, b, board, ticks);
            &&& s1.hits <= f.0.hits <= s1.hits + 1
            &&& f.1.hits == s2.hits
            &&& f.3[0].hits == f.0.hits
            &&& f.3[1].hits == f.1.hits
        }),
{
    reveal(spec_first_flight);
    reveal(spec_second_flight);
}

/// One bullet strikes at most once: every turn of a well-formed world whose
/// counts of hits the scoreboard can show keeps them so, and the scoreboard
/// it hands back can show them too.
pub proof fn lemma_turn_keeps_scores_in_range(w: World, ticks: u32, c1: Controls, c2: Controls)
    requires
        w.wf(),
        w.scores_in_range(),
        turn_in_range(w, ticks, c1, c2),
    ensures
        spec_turn(w, ticks, c1, c2).0.scores_in_range(),
        spec_turn(w, ticks, c1, c2).1 matches Turn::Play(board) ==> board_in_range(board),
{
    if active(w, ticks) && w.sherrif1.hits < WINNING_HITS && w.sherrif2.hits < WINNING_HITS {
        reveal(spec_prepare);
        lemma_walk_keeps_hits(w.sherrif1, ticks, c1);
        lemma_walk_keeps_hits(w.sherrif2, ticks, c2);
        let p = spec_prepare(w, ticks, c1, c2);
        let board0 = [w.sherrif1, w.sherrif2];
        lemma_flights_score_once(p.0, p.1, p.2, board0, ticks);
        let f1 = spec_first_flight(p.0, p.1, p.2, board0, ticks);
        lemma_flights_score_once(f1.0, f1.1, p.3, f1.3, ticks);
    }
}

proof fn lemma_walk_keeps_flags(s: Sherrif, ticks: u32, c: Controls)
    requires
        s.wf(),
    ensures
        spec_walk(s, ticks, c).isaiming == s.isaiming,
        spec_walk(s, ticks, c).isshooting == s.isshooting,
        spec_walk(s, ticks, c).wf(),
        spec_walk(s, ticks, c).side == s.side,
{
    reveal(spec_walk);
    if ticks >= s.prevstep + STEPTIME {
        let s0 = Sherrif { iswalking: false, ..s };
        lemma_move_keeps_on_own_half(s0, 0, 0, ticks);
        let s1 = spec_move(s0, 0, 0, ticks);
        lemma_move_keeps_on_own_half(s1, 0, -1, ticks);
        let s2 = if c.up { spec_move(s1, 0, -1, ticks) } else { s1 };
        lemma_move_keeps_on_own_half(s2, 0, 1, ticks);
        let s3 = if c.down { spec_move(s2, 0, 1, ticks) } else { s2 };
        lemma_move_keeps_on_own_half(s3, -1, 0, ticks);
        let s4 = if c.left { spec_move(s3, -1, 0, ticks) } else { s3 };
        lemma_move_keeps_on_own_half(s4, 1, 0, ticks);
    }
}

/// A player walks where its keys say. A player whose step is not yet due
/// does not change. A due player that neither aims nor shoots, stands on its
/// own half clear of the bush, and holds exactly one direction key turns to
/// that key's vertical direction (up, down or level) and records `ticks` as
/// its step time; and when a step of `PLAYER_SPEED` half pixels that way
/// lands it on its own half without overlapping the bush, it lands exactly
/// there: up and down change its height, left and right its distance across.
pub proof fn lemma_walk_follows_keys(s: Sherrif, ticks: u32, c: Controls)
    requires
        s.wf(),
    ensures
        ticks < s.prevstep + STEPTIME ==> spec_walk(s, ticks, c) == s,
        ({
            let dx: int = if c.left { -1 } else if c.right { 1 } else { 0 };
            let dy: int = if c.up { -1 } else if c.down { 1 } else { 0 };
            let one_key = (c.up as int) + (c.down as int) + (c.left as int) + (c.right as int) == 1;
            let r = spec_walk(s, ticks, c);
            let nx = s.x + crate::sherrif::PLAYER_SPEED * dx;
            let ny = s.y + crate::sherrif::PLAYER_SPEED * dy;
            let lands_on_half = crate::sherrif::FIELD_TOP <= ny <= crate::sherrif::FIELD_BOTTOM - s.h
                * crate::geometry::DOT && s.side * crate::sherrif::HALF_FIELD <= nx <= (s.side + 1)
                * crate::sherrif::HALF_FIELD - s.w * crate::geometry::DOT;
            let lands_in_bush = nx < crate::obstacle::OBSTACLE_X + crate::obstacle::OBSTACLE_W && nx
                + s.w * crate::geometry::DOT > crate::obstacle::OBSTACLE_X && ny
                < crate::obstacle::OBSTACLE_Y + crate::obstacle::OBSTACLE_H && ny + s.h
                * crate::geometry::DOT > crate::obstacle::OBSTACLE_Y;
            ticks >= s.prevstep + STEPTIME && !s.isaiming && !s.isshooting && s.on_own_half()
                && !s.overlaps_bush() && one_key ==> {
                &&& r.vertical_movement == dy
                &&& r.prevstep == ticks
                &&& r.iswalking
                &&& lands_on_half && !lands_in_bush ==> r.x == nx && r.y == ny
            }
        }),
{
    reveal(spec_walk);
    if ticks >= s.prevstep + STEPTIME {
        let s0 = Sherrif { iswalking: false, ..s };
        crate::sherrif::lemma_move_walks_and_turns(s0, 0, 0, ticks);
        lemma_move_keeps_on_own_half(s0, 0, 0, ticks);
        let s1 = spec_move(s0, 0, 0, ticks);
        crate::sherrif::lemma_move_walks_and_turns(s1, 0, -1, ticks);
        lemma_move_keeps_on_own_half(s1, 0, -1, ticks);
        let s2 = if c.up { spec_move(s1, 0, -1, ticks) } else { s1 };
        crate::sherrif::lemma_move_walks_and_turns(s2, 0, 1, ticks);
        lemma_move_keeps_on_own_half(s2, 0, 1, ticks);
        let s3 = if c.down { spec_move(s2, 0, 1, ticks) } else { s2 };
        crate::sherrif::lemma_move_walks_and_turns(s3, -1, 0, ticks);
        lemma_move_keeps_on_own_half(s3, -1, 0, ticks);
        let s4 = if c.left { spec_move(s3, -1, 0, ticks) } else { s3 };
        crate::sherrif::lemma_move_walks_and_turns(s4, 1, 0, ticks);
        lemma_move_keeps_on_own_half(s4, 1, 0, ticks);
    }
}

/// Holding the fire key makes a player aim and leaves its bullet alone.
/// Releasing it while aiming with no bullet in flight fires the bullet at
/// time `ticks` toward the opponent, along the player's aim: the first
/// player's bullet starts at its right side and heads right, the second's
/// starts at its left side and heads left, and each one's vertical velocity
/// is its shooter's vertical direction times `BULLET_VELOCITY` (up when aiming
/// up, down when aiming down); the shooter then has a bullet in flight and no
/// longer aims.
pub proof fn lemma_release_fires_along_aim(w: World, ticks: u32, c1: Controls, c2: Controls)
    requires
        w.wf(),
    ensures
        ({
            let p = spec_prepare(w, ticks, c1, c2);
            &&& c1.fire ==> p.0.isaiming && p.2 == w.bullet1
            &&& c2.fire ==> p.1.isaiming && p.3 == w.bullet2
            &&& !c1.fire && w.sherrif1.isaiming && !w.sherrif1.isshooting ==> {
                &&& p.2.deltax == BULLET_VELOCITY
                &&& p.2.deltay == p.0.vertical_movement * BULLET_VELOCITY
                &&& p.2.x == p.0.x + p.0.w * crate::geometry::DOT
                &&& p.2.last_move_time == ticks
                &&& p.0.isshooting && !p.0.isaiming
            }
            &&& !c2.fire && w.sherrif2.isaiming && !w.sherrif2.isshooting ==> {
                &&& p.3.deltax == -BULLET_VELOCITY
                &&& p.3.deltay == p.1.vertical_movement * BULLET_VELOCITY
                &&& p.3.x == p.1.x
                &&& p.3.last_move_time == ticks
                &&& p.1.isshooting && !p.1.isaiming
            }
        }),
{
    reveal(spec_prepare);
    lemma_walk_keeps_flags(w.sherrif1, ticks, c1);
    lemma_walk_keeps_flags(w.sherrif2, ticks, c2);
}

/// A running turn in which either player's count of hits grows pauses the
/// game from `ticks`: the next `PAUSE` milliseconds are not running.
#[verifier::rlimit(50)]
pub proof fn lemma_strike_pauses_game(w: World, ticks: u32, c1: Controls, c2: Controls)
    requires
        w.wf(),
        turn_in_range(w, ticks, c1, c2),
    ensures
        ({
            let r = spec_turn(w, ticks, c1, c2).0;
            (r.sherrif1.hits > w.sherrif1.hits || r.sherrif2.hits > w.sherrif2.hits)
                ==> r.world_last_deactivation == ticks as i32
        }),
{
    if active(w, ticks) && w.sherrif1.hits < WINNING_HITS && w.sherrif2.hits < WINNING_HITS {
        reveal(spec_prepare);
        reveal(spec_first_flight);
        reveal(spec_second_flight);
        lemma_walk_keeps_hits(w.sherrif1, ticks, c1);
        lemma_walk_keeps_hits(w.sherrif2, ticks, c2);
    }
}

/// Every turn keeps both players on their own half of the field and clear of
/// the bush, and no player's count of hits ever goes down.
pub proof fn lemma_turn_keeps_players_placed(w: World, ticks: u32, c1: Controls, c2: Controls)
    requires
        w.wf(),
        w.well_placed(),
        turn_in_range(w, ticks, c1, c2),
    ensures
        spec_turn(w, ticks, c1, c2).0.well_placed(),
        spec_turn(w, ticks, c1, c2).0.sherrif1.hits >= w.sherrif1.hits,
        spec_turn(w, ticks, c1, c2).0.sherrif2.hits >= w.sherrif2.hits,
{
    if active(w, ticks) && w.sherrif1.hits < WINNING_HITS && w.sherrif2.hits < WINNING_HITS {
        lemma_prepare_keeps_placed(w, ticks, c1, c2);
        let p = spec_prepare(w, ticks, c1, c2);
        let board0 = [w.sherrif1, w.sherrif2];
        lemma_flights_keep_placed(p.0, p.1, p.2, board0, ticks);
        let f1 = spec_first_flight(p.0, p.1, p.2, board0, ticks);
        lemma_flights_keep_placed(f1.0, f1.1, p.3, f1.3, ticks);
    }
}

impl World {
    /// Begins a game at time `ticks`, as `spec_new_world` says, or gives
    /// `None` when a time it records would leave its type.
    pub fn new(ticks: u32) -> (r: Option<World>)
        ensures
            r is Some <==> new_world_in_range(ticks),
            r matches Some(w) ==> w == spec_new_world(ticks) && w.wf() && w.well_placed()
                && w.scores_in_range(),
    {
        if ticks > u32::MAX - 200 {
            return None;
        }
        let start = ticks as i32;
        if start < i32::MIN + PAUSE {
            return None;
        }
        let sherrif1 = initialize_sherrif(RGB(102, 51, 153), 400, 400, ticks, LEFT);
        let sherrif2 = initialize_sherrif(RGB(51, 153, 102), 1200, 800, ticks + 200, RIGHT);
        let bullet1 = initialize_bullet(RGB(102, 51, 153), LEFT, ticks);
        let bullet2 = initialize_bullet(RGB(51, 153, 102), RIGHT, ticks);
        Some(
            World {
                sherrif1,
                sherrif2,
                bullet1,
                bullet2,
                world_last_deactivation: start - PAUSE,
            },
        )
    }

    /// Plays one turn at time `ticks` with the keys each player holds, as
    /// `spec_turn` says, or gives `None` and leaves the world as it is when
    /// a number the turn computes would leave its type.
    pub fn turn(&mut self, ticks: u32, c1: Controls, c2: Controls) -> (r: Option<Turn>)
        requires
            old(self).wf(),
        ensures
            final(self).wf(),
            r is Some <==> turn_in_range(*old(self), ticks, c1, c2),
            r is None ==> *final(self) == *old(self),
            r is Some ==> *final(self) == spec_turn(*old(self), ticks, c1, c2).0,
            r matches Some(t) ==> t == spec_turn(*old(self), ticks, c1, c2).1,
            r is Some && !active(*old(self), ticks) ==> *final(self) == *old(self),
            (r matches Some(Turn::Over)) <==> turn_in_range(*old(self), ticks, c1, c2) && active(
                *old(self),
                ticks,
            ) && (old(self).sherrif1.hits >= WINNING_HITS || old(self).sherrif2.hits >= WINNING_HITS),
            old(self).well_placed() ==> final(self).well_placed(),
            old(self).scores_in_range() ==> final(self).scores_in_range(),
            old(self).scores_in_range() ==> (r matches Some(Turn::Play(board)) ==> board_in_range(
                board,
            )),
    {
        proof {
            if old(self).well_placed() && turn_in_range(*old(self), ticks, c1, c2) {
                lemma_turn_keeps_players_placed(*old(self), ticks, c1, c2);
            }
            if old(self).scores_in_range() && turn_in_range(*old(self), ticks, c1, c2) {
                lemma_turn_keeps_scores_in_range(*old(self), ticks, c1, c2);
            }
        }
        let wld = self.world_last_deactivation;
        if wld > i32::MAX - PAUSE {
            return None;
        }
        let board0 = [self.sherrif1, self.sherrif2];
        let now = ticks as i32;
        if now < wld + PAUSE {
            return Some(Turn::Play(board0));
        }
        if self.sherrif1.hits >= WINNING_HITS || self.sherrif2.hits >= WINNING_HITS {
            return Some(Turn::Over);
        }
        if self.sherrif1.prevstep > u32::MAX - STEPTIME || self.sherrif2.prevstep > u32::MAX
            - STEPTIME {
            return None;
        }
        let p = prepare(self, ticks, c1, c2);
        let b1 = p.2;
        if b1.last_move_time > u32::MAX - BULLETTIME {
            return None;
        }
        if ticks >= b1.last_move_time + BULLETTIME && b1.isInScreen() && !bullet_step_ok(
            &b1,
            &board0[0],
            &board0[1],
        ) {
            return None;
        }
        let f1 = first_flight(p.0, p.1, b1, board0, ticks);
        let b2 = p.3;
        if b2.last_move_time > u32::MAX - BULLETTIME {
            return None;
        }
        if ticks >= b2.last_move_time + BULLETTIME && b2.isInScreen() && !bullet_step_ok(
            &b2,
            &f1.3[0],
            &f1.3[1],
        ) {
            return None;
        }
        let f2 = second_flight(f1.0, f1.1, b2, f1.3, ticks);
        if !step_cycle_ok(&f2.0) || !step_cycle_ok(&f2.1) {
            return None;
        }
        let mut sherrif1 = f2.0;
        let mut sherrif2 = f2.1;
        sherrif1.step_cycle_handler(ticks);
        sherrif2.step_cycle_handler(ticks);
        let mut wld = self.world_last_deactivation;
        if sherrif1.ishit || sherrif2.ishit {
            wld = now;
        }
        self.sherrif1 = sherrif1;
        self.sherrif2 = sherrif2;
        self.bullet1 = f1.2;
        self.bullet2 = f2.2;
        self.world_last_deactivation = wld;
        Some(Turn::Play(f2.3))
    }
}

} // verus!
