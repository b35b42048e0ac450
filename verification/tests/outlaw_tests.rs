use outlaw::bits::{flip, flipbits};
use outlaw::bullet::{initialize_bullet, Bullet, PARKED};
use outlaw::geometry::{dots, to_pixel, DrawCommand, Rect, Rgb, RGB};
use outlaw::obstacle::{initialize_obstacle, OBSTACLE_X, OBSTACLE_Y};
use outlaw::render::{draw, draw_hits, frame_due, Sprite};
use outlaw::sherrif::{initialize_sherrif, Sherrif};
use outlaw::sprites::{digit_glyph, sherrif_image, Pose, LEFT, RIGHT};
use outlaw::world::{Controls, Turn, World};

const PURPLE: Rgb = Rgb { r: 102, g: 51, b: 153 };
const GREEN: Rgb = Rgb { r: 51, g: 153, b: 102 };

fn no_keys() -> Controls {
    Controls { up: false, down: false, left: false, right: false, fire: false }
}

fn left_player() -> Sherrif {
    initialize_sherrif(PURPLE, 400, 400, 0, LEFT)
}

fn right_player() -> Sherrif {
    initialize_sherrif(GREEN, 1200, 800, 0, RIGHT)
}

#[test]
fn flipbits_mirrors_the_documented_example() {
    assert_eq!(flipbits(0b11010001), 0b10001011);
    assert_eq!(flipbits(0b00000001), 0b10000000);
    assert_eq!(flipbits(0), 0);
    assert_eq!(flipbits(0xff), 0xff);
}

#[test]
fn flipbits_twice_is_identity() {
    for b in 0..=255u8 {
        assert_eq!(flipbits(flipbits(b)), b);
    }
}

#[test]
fn flip_mirrors_every_row_and_undoes_itself() {
    let rows: [u8; 16] = [1, 2, 3, 4, 5, 6, 7, 8, 0x80, 0x40, 0xf0, 0x0f, 0xaa, 0x55, 0, 0xff];
    let once = flip(rows);
    for i in 0..16 {
        assert_eq!(once[i], flipbits(rows[i]));
    }
    assert_eq!(flip(once), rows);
}

#[test]
fn right_player_bitmaps_are_mirrored_left_ones() {
    let left = sherrif_image(Pose::Stand, LEFT);
    let right = sherrif_image(Pose::Stand, RIGHT);
    assert_eq!(left[0], 0b00011000);
    assert_eq!(left[7], 0b10011001);
    assert_eq!(right, flip(left));
    assert_ne!(sherrif_image(Pose::Walk, LEFT), left);
}

#[test]
fn half_pixels_truncate_toward_zero() {
    assert_eq!(to_pixel(400), 200);
    assert_eq!(to_pixel(5), 2);
    assert_eq!(to_pixel(-5), -2);
    assert_eq!(to_pixel(-400), -200);
    assert_eq!(to_pixel(i64::MAX), i32::MAX);
    assert_eq!(to_pixel(i64::MIN), i32::MIN);
}

#[test]
fn dots_light_the_set_bits_left_to_right() {
    let rows = [0b10000001u8, 0b01000000u8];
    let r = dots(&rows, 32, 0);
    assert_eq!(
        r,
        vec![
            Rect { x: 16, y: 0, w: 8, h: 8 },
            Rect { x: 72, y: 0, w: 8, h: 8 },
            Rect { x: 24, y: 8, w: 8, h: 8 },
        ]
    );
}

#[test]
fn new_player_stands_still() {
    let s = left_player();
    assert_eq!(s.x, 400);
    assert_eq!(s.y, 400);
    assert_eq!(s.pose, Pose::Stand);
    assert_eq!(s.swaptime, 400);
    assert_eq!(s.hits, 0);
    assert_eq!(right_player().swaptime, 380);
    assert_eq!(s.truewidth(), 128);
    assert_eq!(s.trueheight(), 256);
}

#[test]
fn move_walks_two_pixels_per_unit() {
    let mut s = left_player();
    s.Move(0, -1, 30);
    assert_eq!((s.x, s.y), (400, 396));
    assert!(s.iswalking);
    assert_eq!(s.vertical_movement, -1);
    assert_eq!(s.prevstep, 30);
    s.Move(1, 0, 40);
    assert_eq!((s.x, s.y), (404, 396));
    assert_eq!(s.vertical_movement, 0);
    s.Move(0, 0, 50);
    assert!(!s.iswalking);
}

#[test]
fn move_keeps_player_between_walls_and_on_its_half() {
    let mut s = left_player();
    s.y = 226;
    s.Move(0, -1, 1);
    assert_eq!(s.y, 224);
    s.x = 2;
    s.Move(-1, 0, 2);
    assert_eq!(s.x, 0);
    s.x = 670;
    s.y = 300;
    s.Move(1, 0, 3);
    assert_eq!(s.x, 672);
    s.y = 910;
    s.Move(0, 1, 4);
    assert_eq!(s.y, 912);
    let mut r = right_player();
    r.x = 802;
    r.Move(-1, 0, 5);
    assert_eq!(r.x, 800);
}

#[test]
fn move_pushes_player_out_of_bush() {
    let mut s = left_player();
    s.x = OBSTACLE_X - 128;
    s.y = 400;
    s.Move(1, 0, 1);
    assert_eq!(s.x, OBSTACLE_X - 128);
    let mut t = left_player();
    t.x = 700;
    t.y = OBSTACLE_Y - 256;
    t.Move(0, 1, 1);
    assert_eq!(t.y, OBSTACLE_Y - 256);
    let mut r = right_player();
    r.x = OBSTACLE_X + 128;
    r.y = 400;
    r.Move(-1, 0, 1);
    assert_eq!(r.x, OBSTACLE_X + 128);
}

#[test]
fn shooting_player_does_not_move_and_aiming_player_only_turns() {
    let mut s = left_player();
    s.isshooting = true;
    let before = s;
    s.Move(1, 1, 99);
    assert_eq!(s, before);
    let mut a = left_player();
    a.isaiming = true;
    a.Move(1, 1, 99);
    assert_eq!((a.x, a.y), (400, 400));
    assert_eq!(a.vertical_movement, 1);
    assert_eq!(a.prevstep, 0);
}

#[test]
fn step_cycle_alternates_walking_bitmaps() {
    let mut s = left_player();
    s.iswalking = true;
    s.step_cycle_handler(399);
    assert_eq!(s.pose, Pose::Stand);
    s.step_cycle_handler(400);
    assert_eq!(s.pose, Pose::Walk);
    assert_eq!(s.prevswap, 400);
    s.step_cycle_handler(800);
    assert_eq!(s.pose, Pose::Stand);
    s.iswalking = false;
    s.pose = Pose::Walk;
    s.step_cycle_handler(1200);
    assert_eq!(s.pose, Pose::Stand);
}

#[test]
fn step_cycle_shows_aim() {
    let mut s = left_player();
    s.isaiming = true;
    s.vertical_movement = 1;
    s.step_cycle_handler(0);
    assert_eq!(s.pose, Pose::ShootDown);
    s.vertical_movement = -1;
    s.step_cycle_handler(0);
    assert_eq!(s.pose, Pose::ShootUp);
    s.vertical_movement = 0;
    s.step_cycle_handler(0);
    assert_eq!(s.pose, Pose::ShootStraight);
    s.isshooting = true;
    s.pose = Pose::Hit;
    s.step_cycle_handler(5000);
    assert_eq!(s.pose, Pose::Hit);
}

#[test]
fn hit_counts_and_marks_player() {
    let mut s = left_player();
    s.hit();
    assert_eq!(s.hits, 1);
    assert_eq!(s.pose, Pose::Hit);
    assert!(s.ishit);
}

#[test]
fn new_bullet_is_parked_off_screen() {
    let b = initialize_bullet(PURPLE, LEFT, 7);
    assert_eq!((b.x, b.y), (PARKED, PARKED));
    assert_eq!(b.last_move_time, 7);
    assert!(!b.isInScreen());
    assert_eq!(b.drawOn(), vec![]);
}

#[test]
fn bullet_flies_one_and_a_half_pixels_per_unit() {
    let mut b = initialize_bullet(PURPLE, LEFT, 0);
    b.shoot(528, 400, 3, 3, 10);
    assert!(b.isInScreen());
    let sherrifs = b.move_bullet([left_player(), right_player()]);
    assert_eq!((b.x, b.y), (537, 409));
    assert_eq!(b.deltay, 3);
    assert_eq!(sherrifs, [left_player(), right_player()]);
    assert_eq!(
        b.drawOn(),
        vec![DrawCommand::Fill(PURPLE, Rect { x: 268, y: 204, w: 8, h: 8 })]
    );
}

#[test]
fn bullet_turns_back_at_the_walls() {
    let mut b = initialize_bullet(PURPLE, LEFT, 0);
    b.shoot(100, 230, 3, -3, 0);
    b.move_bullet([left_player(), right_player()]);
    assert_eq!(b.y, 221);
    assert_eq!(b.deltay, 3);
}

#[test]
fn bullet_striking_the_bush_is_parked() {
    let mut b = initialize_bullet(PURPLE, LEFT, 0);
    let mut shooter = left_player();
    shooter.isshooting = true;
    b.shoot(OBSTACLE_X - 20, 600, 3, 0, 0);
    let r = b.move_bullet([shooter, right_player()]);
    assert_eq!((b.x, b.y, b.deltax, b.deltay), (PARKED, PARKED, 0, 0));
    assert!(!r[0].isshooting);
    assert_eq!(r[1].hits, 0);
}

#[test]
fn bullet_striking_the_opponent_counts_a_hit() {
    let mut b = initialize_bullet(PURPLE, LEFT, 0);
    let mut shooter = left_player();
    shooter.isshooting = true;
    let target = right_player();
    b.shoot(target.x - 20, target.y + 100, 3, 0, 0);
    let r = b.move_bullet([shooter, target]);
    assert_eq!(r[1].hits, 1);
    assert!(r[1].ishit);
    assert_eq!(r[1].pose, Pose::Hit);
    assert!(!r[0].isshooting);
    assert!(!b.isInScreen());
}

#[test]
fn scoreboard_shows_opponent_hits() {
    let mut s1 = left_player();
    let s2 = right_player();
    s1.hits = 1;
    let cmds = draw_hits(&[s1, s2]);
    let zero_dots: usize = digit_glyph(0).iter().map(|b| b.count_ones() as usize).sum();
    let one_dots: usize = digit_glyph(1).iter().map(|b| b.count_ones() as usize).sum();
    assert_eq!(cmds.len(), zero_dots + one_dots);
    assert_eq!(cmds[0], DrawCommand::Fill(PURPLE, Rect { x: 24, y: 0, w: 8, h: 8 }));
    assert_eq!(cmds[zero_dots], DrawCommand::Fill(GREEN, Rect { x: 736, y: 0, w: 8, h: 8 }));
}

#[test]
fn frame_starts_with_background() {
    let s1 = left_player();
    let s2 = right_player();
    let o = initialize_obstacle();
    let b1 = initialize_bullet(PURPLE, LEFT, 0);
    let b2 = initialize_bullet(GREEN, RIGHT, 0);
    let sprites = [Sprite::Sherrif(s1), Sprite::Sherrif(s2), Sprite::Obstacle(o), Sprite::Bullet(b1), Sprite::Bullet(b2)];
    let cmds = draw(&sprites, &[s1, s2]);
    assert_eq!(cmds[0], DrawCommand::Clear(RGB(240, 240, 231)));
    assert_eq!(cmds[1], DrawCommand::Fill(RGB(140, 120, 100), Rect { x: 0, y: 96, w: 800, h: 16 }));
    assert_eq!(cmds[2], DrawCommand::Fill(RGB(140, 120, 100), Rect { x: 0, y: 584, w: 800, h: 16 }));
    assert_eq!(cmds[3], DrawCommand::Fill(RGB(0xaa, 0xaa, 0xbb), Rect { x: 0, y: 0, w: 800, h: 96 }));
    let player_dots: usize = sherrif_image(Pose::Stand, LEFT).iter().map(|b| b.count_ones() as usize).sum();
    assert_eq!(cmds[4], DrawCommand::Fill(PURPLE, Rect { x: 224, y: 200, w: 8, h: 8 }));
    let bush = o.drawOn();
    let score = draw_hits(&[s1, s2]);
    assert_eq!(cmds.len(), 4 + 2 * player_dots + bush.len() + score.len());
}

#[test]
fn frames_are_ten_milliseconds_apart() {
    assert!(!frame_due(9, 0));
    assert!(frame_due(10, 0));
    assert!(frame_due(500, 100));
}

#[test]
fn new_world_places_players_and_refuses_late_start() {
    let w = World::new(0).unwrap();
    assert_eq!((w.sherrif1.x, w.sherrif1.y), (400, 400));
    assert_eq!((w.sherrif2.x, w.sherrif2.y), (1200, 800));
    assert_eq!(w.sherrif2.prevstep, 200);
    assert_eq!(w.world_last_deactivation, -1000);
    assert!(World::new(u32::MAX).is_none());
    assert!(World::new(u32::MAX - 200).is_some());
}

#[test]
fn turn_moves_players_with_their_keys() {
    let mut w = World::new(0).unwrap();
    let up = Controls { up: true, ..no_keys() };
    let right = Controls { right: true, ..no_keys() };
    let t = w.turn(220, up, right).unwrap();
    assert!(matches!(t, Turn::Play(_)));
    assert_eq!(w.sherrif1.y, 396);
    assert_eq!(w.sherrif2.x, 1204);
}

#[test]
fn turn_fires_when_the_trigger_is_released() {
    let mut w = World::new(0).unwrap();
    let fire = Controls { fire: true, ..no_keys() };
    w.turn(5, fire, no_keys()).unwrap();
    assert!(w.sherrif1.isaiming);
    w.turn(6, no_keys(), no_keys()).unwrap();
    assert!(w.sherrif1.isshooting);
    assert!(!w.sherrif1.isaiming);
    assert_eq!((w.bullet1.x, w.bullet1.y), (400 + 128, 400 + 128 - 48));
    assert_eq!((w.bullet1.deltax, w.bullet1.deltay), (3, 0));
}

#[test]
fn paused_turn_changes_nothing() {
    let mut w = World::new(5000).unwrap();
    w.world_last_deactivation = 5000;
    let before = w;
    let t = w.turn(5500, Controls { up: true, ..no_keys() }, no_keys()).unwrap();
    assert_eq!(w, before);
    match t {
        Turn::Play(board) => assert_eq!(board, [before.sherrif1, before.sherrif2]),
        Turn::Over => panic!("the game is not over"),
    }
}

#[test]
fn ten_hits_end_the_game() {
    let mut w = World::new(0).unwrap();
    w.sherrif2.hits = 10;
    let before = w;
    assert!(matches!(w.turn(10, no_keys(), no_keys()), Some(Turn::Over)));
    assert_eq!(w, before);
}

#[test]
fn turn_refuses_overflowing_times() {
    let mut w = World::new(0).unwrap();
    w.world_last_deactivation = i32::MAX;
    let before = w;
    assert!(w.turn(10, no_keys(), no_keys()).is_none());
    assert_eq!(w, before);
}

#[test]
fn struck_player_pauses_the_game() {
    let mut w = World::new(0).unwrap();
    w.sherrif1.isshooting = true;
    w.bullet1.x = w.sherrif2.x - 20;
    w.bullet1.y = w.sherrif2.y + 100;
    w.bullet1.deltax = 3;
    let t = w.turn(1000, no_keys(), no_keys()).unwrap();
    assert_eq!(w.sherrif2.hits, 1);
    assert_eq!(w.world_last_deactivation, 1000);
    assert_eq!((w.bullet1.x, w.bullet1.y), (PARKED, PARKED));
    match t {
        Turn::Play(board) => assert_eq!(board[1].hits, 1),
        Turn::Over => panic!("the game is not over"),
    }
}

#[test]
fn many_turns_keep_players_on_their_halves() {
    let mut w = World::new(0).unwrap();
    let keys = [
        Controls { up: true, left: true, ..no_keys() },
        Controls { down: true, right: true, ..no_keys() },
        Controls { right: true, ..no_keys() },
        Controls { left: true, ..no_keys() },
    ];
    for step in 0..2000u32 {
        let k1 = keys[(step / 100) as usize % 4];
        let k2 = keys[(step / 70 + 1) as usize % 4];
        w.turn(step * 20, k1, k2).unwrap();
        for s in [w.sherrif1, w.sherrif2] {
            let lo = s.side as i64 * 800;
            assert!(s.x >= lo && s.x <= lo + 800 - 128);
            assert!(s.y >= 224 && s.y <= 912);
            let overlaps = s.x < OBSTACLE_X + 128 && s.x + 128 > OBSTACLE_X && s.y < OBSTACLE_Y + 256 && s.y + 256 > OBSTACLE_Y;
            assert!(!overlaps);
        }
    }
}

#[test]
fn bullet_type_is_plain_data() {
    let b = Bullet { x: 0, y: 0, color: PURPLE, deltax: 0, deltay: 0, last_move_time: 0, side: LEFT };
    assert!(b.isInScreen());
}

#[test]
fn bullet_at_a_corner_strikes_once() {
    let mut b = initialize_bullet(PURPLE, LEFT, 0);
    let mut shooter = left_player();
    shooter.isshooting = true;
    let target = right_player();
    b.shoot(target.x - 8 - 3, target.y - 8, 1, 0, 0);
    let r = b.move_bullet([shooter, target]);
    assert_eq!(r[1].hits, 1);
    assert_eq!((b.x, b.y), (PARKED, PARKED));
}

#[test]
fn ninth_hit_at_a_corner_makes_ten_not_eleven() {
    let mut w = World::new(0).unwrap();
    w.sherrif2.hits = 9;
    w.sherrif1.isshooting = true;
    w.bullet1.x = w.sherrif2.x - 8 - 3;
    w.bullet1.y = w.sherrif2.y - 8;
    w.bullet1.deltax = 1;
    let t = w.turn(1000, no_keys(), no_keys()).unwrap();
    assert_eq!(w.sherrif2.hits, 10);
    match t {
        Turn::Play(board) => assert_eq!(board[1].hits, 10),
        Turn::Over => panic!("the game ends on the next turn"),
    }
    assert!(matches!(w.turn(3000, no_keys(), no_keys()), Some(Turn::Over)));
}
