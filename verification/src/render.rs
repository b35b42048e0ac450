//! What one frame of the window shows, as a list of paint commands, and when
//! the next frame is due.
use vstd::prelude::*;
use crate::bullet::{bullet_paint, Bullet};
use crate::geometry::{
    dot_square, dots, fills, glyph_dots, lemma_glyph_dots_exact, lit, lit_in_glyph, paint,
    DrawCommand, Rect, Rgb, RGB,
};
use crate::obstacle::Obstacle;
use crate::sherrif::{sherrif_paint, Sherrif};
use crate::sprites::{digit_glyph, digit_rows, obstacle_rows, pose_rows};

verus! {

/// Milliseconds between frames.
pub const FRAMETIME: u32 = 10;
/// Number of sprites on the field: two players, the bush and two bullets.
pub const SPRNUM: usize = 5;
/// Left edge of the first player's score, in half pixels (16 pixels).
pub const SCORE1_X: i64 = 32;
/// Left edge of the second player's score, in half pixels (64 and 16 pixels
/// from the right of the window).
pub const SCORE2_X: i64 = 1440;

/// Anything drawn on the field.
#[derive(Clone, Copy, Debug)]
pub enum Sprite {
    Sherrif(Sherrif),
    Obstacle(Obstacle),
    Bullet(Bullet),
}

/// Whether a sprite can be drawn.
pub open spec fn sprite_wf(s: Sprite) -> bool {
    match s {
        Sprite::Sherrif(p) => p.wf(),
        Sprite::Obstacle(o) => o.wf(),
        Sprite::Bullet(_) => true,
    }
}

/// The paint commands that draw a sprite.
pub open spec fn sprite_paint(s: Sprite) -> Seq<DrawCommand> {
    match s {
        Sprite::Sherrif(p) => sherrif_paint(p),
        Sprite::Obstacle(o) => fills(o.color, glyph_dots(obstacle_rows(), o.x as int, o.y as int, 16)),
        Sprite::Bullet(b) => bullet_paint(b),
    }
}

/// A bullet on the field is drawn as its own one-dot square, in its colour,
/// at the pixel its position falls on, whenever it lies within one dot of the
/// window (at most 808 pixels right and 608 down, at least 8 up and left),
/// and is not drawn otherwise.
pub proof fn lemma_bullet_sprite_drawn_in_window(b: Bullet)
    ensures
        (-16 <= b.x <= 1616 && -16 <= b.y <= 1216) ==> sprite_paint(Sprite::Bullet(b)) == seq![
            DrawCommand::Fill(
                b.color,
                Rect { x: crate::geometry::pixel_of(b.x as int), y: crate::geometry::pixel_of(b.y as int), w: 8, h: 8 },
            ),
        ],
        !(-16 <= b.x <= 1616 && -16 <= b.y <= 1216) ==> sprite_paint(Sprite::Bullet(b)) == Seq::<
            DrawCommand,
        >::empty(),
        0 <= b.x <= 1616 ==> crate::geometry::pixel_of(b.x as int) == b.x / 2,
        0 <= b.y <= 1216 ==> crate::geometry::pixel_of(b.y as int) == b.y / 2,
{
}

/// Whether `cmds` paints, in colour `color`, exactly the lit dots of the
/// first `n` rows of a bitmap drawn with its upper left corner at (`x`, `y`):
/// every lit dot's square is filled in that colour, and every command fills
/// one such square in that colour.
pub open spec fn paints_exactly(cmds: Seq<DrawCommand>, color: Rgb, rows: Seq<u8>, x: int, y: int, n: nat) -> bool {
    &&& forall|i: int, j: int|
        0 <= i < n && 0 <= j < 8 && lit(rows[i], j) ==> cmds.contains(
            DrawCommand::Fill(color, #[trigger] dot_square(x, y, i, j)),
        )
    &&& forall|k: int|
        0 <= k < cmds.len() ==> (#[trigger] cmds[k] matches DrawCommand::Fill(c, r) && c == color
            && lit_in_glyph(rows, x, y, n, r))
}

proof fn lemma_fills_paint_exactly(color: Rgb, rows: Seq<u8>, x: int, y: int, n: nat)
    requires
        n <= rows.len(),
    ensures
        paints_exactly(fills(color, glyph_dots(rows, x, y, n)), color, rows, x, y, n),
{
    lemma_glyph_dots_exact(rows, x, y, n);
    let g = glyph_dots(rows, x, y, n);
    let f = fills(color, g);
    assert forall|i: int, j: int|
        0 <= i < n && 0 <= j < 8 && lit(rows[i], j) implies f.contains(
            DrawCommand::Fill(color, #[trigger] dot_square(x, y, i, j)),
        ) by {
        assert(g.contains(dot_square(x, y, i, j)));
        let k = choose|k: int| 0 <= k < g.len() && g[k] == dot_square(x, y, i, j);
        assert(f[k] == DrawCommand::Fill(color, g[k]));
    }
    assert forall|k: int| 0 <= k < f.len() implies (#[trigger] f[k] matches DrawCommand::Fill(c, r) && c
        == color && lit_in_glyph(rows, x, y, n, r)) by {
        assert(f[k] == DrawCommand::Fill(color, g[k]));
        assert(lit_in_glyph(rows, x, y, n, g[k]));
    }
}

/// A player on the field is drawn as exactly the lit dots of the bitmap of
/// its pose and side, in its colour, with the bitmap's corner at its
/// position; the bush likewise with its own bitmap, in its colour.
pub proof fn lemma_player_and_bush_drawn_exactly(p: Sherrif, o: Obstacle)
    requires
        p.wf(),
        o.wf(),
    ensures
        paints_exactly(
            sprite_paint(Sprite::Sherrif(p)),
            p.color,
            pose_rows(p.pose, p.side),
            p.x as int,
            p.y as int,
            16,
        ),
        paints_exactly(sprite_paint(Sprite::Obstacle(o)), o.color, obstacle_rows(), o.x as int, o.y as int, 16),
{
    assert(pose_rows(p.pose, p.side).len() == 16);
    lemma_fills_paint_exactly(p.color, pose_rows(p.pose, p.side), p.x as int, p.y as int, 16);
    lemma_fills_paint_exactly(o.color, obstacle_rows(), o.x as int, o.y as int, 16);
}

/// The scoreboard paints, at the top left and in the first player's colour,
/// exactly the lit dots of the digit for the second player's hits, and then,
/// at the top right and in the second player's colour, exactly the lit dots
/// of the digit for the first player's hits.
pub proof fn lemma_scoreboard_shows_opponents_hits(board: [Sherrif; 2])
    requires
        0 <= board[0].hits <= 10,
        0 <= board[1].hits <= 10,
    ensures
        ({
            let left = glyph_dots(digit_rows(board[1].hits as int), SCORE1_X as int, 0, 12);
            let cmds = scoreboard(board);
            &&& paints_exactly(
                cmds.take(left.len() as int),
                board[0].color,
                digit_rows(board[1].hits as int),
                SCORE1_X as int,
                0,
                12,
            )
            &&& paints_exactly(
                cmds.skip(left.len() as int),
                board[1].color,
                digit_rows(board[0].hits as int),
                SCORE2_X as int,
                0,
                12,
            )
        }),
{
    assert(digit_rows(board[1].hits as int).len() == 12);
    assert(digit_rows(board[0].hits as int).len() == 12);
    let a = fills(board[0].color, glyph_dots(digit_rows(board[1].hits as int), SCORE1_X as int, 0, 12));
    let b = fills(board[1].color, glyph_dots(digit_rows(board[0].hits as int), SCORE2_X as int, 0, 12));
    lemma_fills_paint_exactly(board[0].color, digit_rows(board[1].hits as int), SCORE1_X as int, 0, 12);
    lemma_fills_paint_exactly(board[1].color, digit_rows(board[0].hits as int), SCORE2_X as int, 0, 12);
    assert(scoreboard(board).take(a.len() as int) =~= a);
    assert(scoreboard(board).skip(a.len() as int) =~= b);
}

/// The paint commands that draw the sprites, one after another.
pub open spec fn sprites_paint(s: Seq<Sprite>) -> Seq<DrawCommand>
    decreases s.len(),
{
    if s.len() == 0 {
        seq![]
    } else {
        sprites_paint(s.drop_last()) + sprite_paint(s.last())
    }
}

/// The window's background: the sand, the top and bottom walls, and the
/// scoreboard band along the top.
pub open spec fn background() -> Seq<DrawCommand> {
    let wall = Rgb { r: 140, g: 120, b: 100 };
    seq![
        DrawCommand::Clear(Rgb { r: 240, g: 240, b: 231 }),
        DrawCommand::Fill(wall, Rect { x: 0, y: 96, w: 800, h: 16 }),
        DrawCommand::Fill(wall, Rect { x: 0, y: 584, w: 800, h: 16 }),
        DrawCommand::Fill(Rgb { r: 0xaa, g: 0xaa, b: 0xbb }, Rect { x: 0, y: 0, w: 800, h: 96 }),
    ]
}

/// The scoreboard: on the left, in the first player's colour, the number of
/// times the second player was struck; on the right, in the second player's
/// colour, the number of times the first player was struck.
pub open spec fn scoreboard(sherrifs: [Sherrif; 2]) -> Seq<DrawCommand> {
    fills(
        sherrifs[0].color,
        glyph_dots(digit_rows(sherrifs[1].hits as int), SCORE1_X as int, 0, 12),
    ) + fills(
        sherrifs[1].color,
        glyph_dots(digit_rows(sherrifs[0].hits as int), SCORE2_X as int, 0, 12),
    )
}

impl Sprite {
    /// The paint commands that draw the sprite.
    #[allow(non_snake_case)]
    pub fn drawOn(&self) -> (r: Vec<DrawCommand>)
        requires
            sprite_wf(*self),
        ensures
            r@ == sprite_paint(*self),
    {
        match self {
            Sprite::Sherrif(p) => p.drawOn(),
            Sprite::Obstacle(o) => o.drawOn(),
            Sprite::Bullet(b) => b.drawOn(),
        }
    }
}

/// The paint commands of the scoreboard, as `scoreboard` says.
pub fn draw_hits(sherrifs: &[Sherrif; 2]) -> (r: Vec<DrawCommand>)
    requires
        0 <= sherrifs[0].hits <= 10,
        0 <= sherrifs[1].hits <= 10,
    ensures
        r@ == scoreboard(*sherrifs),
{
    let sherrif1 = sherrifs[0];
    let sherrif2 = sherrifs[1];
    let first = digit_glyph(sherrif2.hits as usize);
    let mut out = paint(sherrif1.color, &dots(&first, SCORE1_X, 0));
    let second = digit_glyph(sherrif1.hits as usize);
    let mut rest = paint(sherrif2.color, &dots(&second, SCORE2_X, 0));
    out.append(&mut rest);
    out
}

/// The sprites of a frame are painted one after another, in the order given,
/// each by its own commands.
pub proof fn lemma_sprites_painted_in_order(all: [Sprite; SPRNUM])
    ensures
        sprites_paint(all@) == sprite_paint(all[0]) + sprite_paint(all[1]) + sprite_paint(all[2])
            + sprite_paint(all[3]) + sprite_paint(all[4]),
{
    let s5 = all@;
    let s4 = s5.drop_last();
    let s3 = s4.drop_last();
    let s2 = s3.drop_last();
    let s1 = s2.drop_last();
    let s0 = s1.drop_last();
    assert(s0.len() == 0);
    assert(sprites_paint(s0) == Seq::<DrawCommand>::empty());
    assert(s1.last() == all[0] && s2.last() == all[1] && s3.last() == all[2] && s4.last() == all[3]
        && s5.last() == all[4]);
    assert(sprites_paint(s1) =~= sprite_paint(all[0]));
    assert(sprites_paint(s2) == sprites_paint(s1) + sprite_paint(all[1]));
    assert(sprites_paint(s3) == sprites_paint(s2) + sprite_paint(all[2]));
    assert(sprites_paint(s4) == sprites_paint(s3) + sprite_paint(all[3]));
    assert(sprites_paint(s5) == sprites_paint(s4) + sprite_paint(all[4]));
}

/// The paint commands of one whole frame: the background, then each sprite
/// in turn, then the scoreboard.
pub fn draw(all_sprites: &[Sprite; SPRNUM], sherrifs: &[Sherrif; 2]) -> (r: Vec<DrawCommand>)
    requires
        forall|i: int| 0 <= i < SPRNUM ==> sprite_wf(#[trigger] all_sprites[i]),
        0 <= sherrifs[0].hits <= 10,
        0 <= sherrifs[1].hits <= 10,
    ensures
        r@ == background() + sprites_paint(all_sprites@) + scoreboard(*sherrifs),
{
    let wall = RGB(140, 120, 100);
    let mut out: Vec<DrawCommand> = Vec::new();
    out.push(DrawCommand::Clear(RGB(240, 240, 231)));
    out.push(DrawCommand::Fill(wall, Rect { x: 0, y: 96, w: 800, h: 16 }));
    out.push(DrawCommand::Fill(wall, Rect { x: 0, y: 600 - 16, w: 800, h: 16 }));
    out.push(DrawCommand::Fill(RGB(0xaa, 0xaa, 0xbb), Rect { x: 0, y: 0, w: 800, h: 96 }));
    assert(out@ =~= background());
    let mut i: usize = 0;
    while i < SPRNUM
        invariant
            0 <= i <= SPRNUM,
            forall|k: int| 0 <= k < SPRNUM ==> sprite_wf(#[trigger] all_sprites[k]),
            out@ == background() + sprites_paint(all_sprites@.take(i as int)),
        decreases SPRNUM - i,
    {
        let mut more = all_sprites[i].drawOn();
        out.append(&mut more);
        i = i + 1;
        assert(all_sprites@.take(i as int).drop_last() =~= all_sprites@.take(i - 1));
        assert(out@ =~= background() + sprites_paint(all_sprites@.take(i as int)));
    }
    assert(all_sprites@.take(SPRNUM as int) =~= all_sprites@);
    let mut hits = draw_hits(sherrifs);
    out.append(&mut hits);
    out
}

/// Whether a new frame is due at time `now`, the last having been drawn at `prevframe`.
pub fn frame_due(now: u32, prevframe: u32) -> (due: bool)
    requires
        prevframe + FRAMETIME <= u32::MAX,
    ensures
        due == (now >= prevframe + FRAMETIME),
{
    now >= prevframe + FRAMETIME
}

} // verus!
