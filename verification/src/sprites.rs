//! The bitmaps of the game: score digits, the player in each pose, and the bush.
//!
//! Every bitmap is eight dots wide, one byte per line, most significant bit
//! leftmost. Players are drawn facing right on the left half of the field;
//! the player on the right half is drawn from the same bitmaps mirrored.
use vstd::prelude::*;
use crate::bits::{flip, lemma_mirrored_involution, mirrored_rows};

verus! {

/// Index of the left half of the field.
pub const LEFT: usize = 0;
/// Index of the right half of the field.
pub const RIGHT: usize = 1;

/// The twelve lines of the score digit `d` (0 to 10).
pub open spec fn digit_rows(d: int) -> Seq<u8> {
    if d == 0 {
        seq![
            0b01111110, 0b11111111, 0b11000011, 0b11000011,
            0b11000011, 0b11000011, 0b11000011, 0b11000011,
            0b11000011, 0b11000011, 0b11111111, 0b01111110,
        ]
    } else if d == 1 {
        seq![
            0b00111100, 0b00111100, 0b00001100, 0b00001100,
            0b00001100, 0b00001100, 0b00001100, 0b00001100,
            0b00001100, 0b00001100, 0b00001100, 0b00000000,
        ]
    } else if d == 2 {
        seq![
            0b11111111, 0b11111111, 0b00000011, 0b00000011,
            0b00000011, 0b11111111, 0b11111111, 0b11000000,
            0b11000000, 0b11000000, 0b11111111, 0b11111111,
        ]
    } else if d == 3 {
        seq![
            0b11111111, 0b11111111, 0b00000011, 0b00000011,
            0b00000011, 0b11111111, 0b11111111, 0b00000011,
            0b00000011, 0b00000011, 0b11111111, 0b11111111,
        ]
    } else if d == 4 {
        seq![
            0b00011000, 0b00111000, 0b01111000, 0b11011000,
            0b10011000, 0b11111111, 0b00011000, 0b00011000,
            0b00011000, 0b00011000, 0b00011000, 0b00011000,
        ]
    } else if d == 5 {
        seq![
            0b11111111, 0b11111111, 0b11000000, 0b11000000,
            0b11000000, 0b11111111, 0b11111111, 0b00000011,
            0b00000011, 0b00000011, 0b11111111, 0b11111111,
        ]
    } else if d == 6 {
        seq![
            0b11111111, 0b11111111, 0b11000000, 0b11000000,
            0b11000000, 0b11111111, 0b11111111, 0b11000011,
            0b11000011, 0b11000011, 0b11111111, 0b11111111,
        ]
    } else if d == 7 {
        seq![
            0b11111111, 0b11111111, 0b00000011, 0b00000110,
            0b00001100, 0b11111111, 0b11111111, 0b00110000,
            0b00110000, 0b01100000, 0b01100000, 0b11000000,
        ]
    } else if d == 8 {
        seq![
            0b11111111, 0b11111111, 0b11000011, 0b11000011,
            0b11000011, 0b11111111, 0b11111111, 0b11000011,
            0b11000011, 0b11000011, 0b11111111, 0b11111111,
        ]
    } else if d == 9 {
        seq![
            0b11111111, 0b11111111, 0b11000011, 0b11000011,
            0b11000011, 0b11111111, 0b11111111, 0b00000011,
            0b00000011, 0b00000011, 0b00000011, 0b00000011,
        ]
    } else {
        seq![
            0b11011111, 0b11011111, 0b11011011, 0b11011011,
            0b11011011, 0b11011011, 0b11011011, 0b11011011,
            0b11011011, 0b11011011, 0b11011111, 0b11011111,
        ]
    }
}

/// The bitmap of the score digit `d`.
pub fn digit_glyph(d: usize) -> (r: [u8; 12])
    requires
        d <= 10,
    ensures
        r@ == digit_rows(d as int),
{
    let r: [u8; 12] = match d {
        0 => [
            0b01111110, 0b11111111, 0b11000011, 0b11000011,
            0b11000011, 0b11000011, 0b11000011, 0b11000011,
            0b11000011, 0b11000011, 0b11111111, 0b01111110,
        ],
        1 => [
            0b00111100, 0b00111100, 0b00001100, 0b00001100,
            0b00001100, 0b00001100, 0b00001100, 0b00001100,
            0b00001100, 0b00001100, 0b00001100, 0b00000000,
        ],
        2 => [
            0b11111111, 0b11111111, 0b00000011, 0b00000011,
            0b00000011, 0b11111111, 0b11111111, 0b11000000,
            0b11000000, 0b11000000, 0b11111111, 0b11111111,
        ],
        3 => [
            0b11111111, 0b11111111, 0b00000011, 0b00000011,
            0b00000011, 0b11111111, 0b11111111, 0b00000011,
            0b00000011, 0b00000011, 0b11111111, 0b11111111,
        ],
        4 => [
            0b00011000, 0b00111000, 0b01111000, 0b11011000,
            0b10011000, 0b11111111, 0b00011000, 0b00011000,
            0b00011000, 0b00011000, 0b00011000, 0b00011000,
        ],
        5 => [
            0b11111111, 0b11111111, 0b11000000, 0b11000000,
            0b11000000, 0b11111111, 0b11111111, 0b00000011,
            0b00000011, 0b00000011, 0b11111111, 0b11111111,
        ],
        6 => [
            0b11111111, 0b11111111, 0b11000000, 0b11000000,
            0b11000000, 0b11111111, 0b11111111, 0b11000011,
            0b11000011, 0b11000011, 0b11111111, 0b11111111,
        ],
        7 => [
            0b11111111, 0b11111111, 0b00000011, 0b00000110,
            0b00001100, 0b11111111, 0b11111111, 0b00110000,
            0b00110000, 0b01100000, 0b01100000, 0b11000000,
        ],
        8 => [
            0b11111111, 0b11111111, 0b11000011, 0b11000011,
            0b11000011, 0b11111111, 0b11111111, 0b11000011,
            0b11000011, 0b11000011, 0b11111111, 0b11111111,
        ],
        9 => [
            0b11111111, 0b11111111, 0b11000011, 0b11000011,
            0b11000011, 0b11111111, 0b11111111, 0b00000011,
            0b00000011, 0b00000011, 0b00000011, 0b00000011,
        ],
        _ => [
            0b11011111, 0b11011111, 0b11011011, 0b11011011,
            0b11011011, 0b11011011, 0b11011011, 0b11011011,
            0b11011011, 0b11011011, 0b11011111, 0b11011111,
        ],
    };
    assert(r@ =~= digit_rows(d as int));
    r
}

/// What a player's bitmap shows.
#[derive(Clone, Copy, Debug, PartialEq, Eq, Structural)]
pub enum Pose {
    /// Standing still.
    Stand,
    /// Mid-step while walking.
    Walk,
    /// Aiming straight ahead.
    ShootStraight,
    /// Aiming downward.
    ShootDown,
    /// Aiming upward.
    ShootUp,
    /// Struck by a bullet.
    Hit,
}

/// The sixteen lines of a player in `pose`, facing right (the left player).
pub open spec fn left_rows(pose: Pose) -> Seq<u8> {
    match pose {
        Pose::Stand => seq![
            0b00011000, 0b00111100, 0b00011000, 0b00011000,
            0b00111100, 0b00111100, 0b01011010, 0b10011001,
            0b00011000, 0b00011000, 0b00011000, 0b00101000,
            0b00101000, 0b00101000, 0b01000100, 0b01000100,
        ],
        Pose::Walk => seq![
            0b00011000, 0b00111100, 0b00011000, 0b00011000,
            0b00111100, 0b00111100, 0b01011010, 0b10011001,
            0b00011000, 0b00011000, 0b00011000, 0b00101000,
            0b00101000, 0b00010000, 0b00101000, 0b01000100,
        ],
        Pose::ShootStraight => seq![
            0b00011000, 0b00111100, 0b00011000, 0b00011000,
            0b00010011, 0b00111110, 0b00011000, 0b00011000,
            0b00011000, 0b00011000, 0b00011000, 0b00011000,
            0b00011000, 0b00011000, 0b00000100, 0b01111110,
        ],
        Pose::ShootDown => seq![
            0b00011000, 0b00111100, 0b00011000, 0b00011000,
            0b00010000, 0b00111000, 0b00011110, 0b00011010,
            0b00011001, 0b00011000, 0b00011000, 0b00011000,
            0b00011000, 0b00011000, 0b00000100, 0b01111110,
        ],
        Pose::ShootUp => seq![
            0b00011000, 0b00111100, 0b00011001, 0b00011010,
            0b00010110, 0b00111000, 0b00011000, 0b00011000,
            0b00011000, 0b00011000, 0b00011000, 0b00011000,
            0b00011000, 0b00011000, 0b00000100, 0b01111110,
        ],
        Pose::Hit => seq![
            0b00000000, 0b01100000, 0b11110000, 0b11110000,
            0b01100000, 0b01100000, 0b01100000, 0b01100000,
            0b11100000, 0b11100000, 0b11100000, 0b11100000,
            0b11100000, 0b10000000, 0b10000000, 0b11111111,
        ],
    }
}

/// The sixteen lines of the player of field half `side` in `pose`: the
/// right-hand player's bitmaps are the left-hand ones mirrored.
pub open spec fn pose_rows(pose: Pose, side: usize) -> Seq<u8> {
    if side == LEFT {
        left_rows(pose)
    } else {
        mirrored_rows(left_rows(pose))
    }
}

/// No pose but standing shows the standing bitmap, on either half of the field.
pub proof fn lemma_standing_bitmap_unique(pose: Pose, side: usize)
    ensures
        pose_rows(pose, side) == pose_rows(Pose::Stand, side) <==> pose == Pose::Stand,
{
    let k: int = match pose {
        Pose::Stand => 0,
        Pose::Walk => 13,
        Pose::ShootStraight => 4,
        Pose::ShootDown => 4,
        Pose::ShootUp => 2,
        Pose::Hit => 0,
    };
    assert(left_rows(pose).len() == 16);
    assert(left_rows(Pose::Stand).len() == 16);
    if pose != Pose::Stand {
        assert(left_rows(pose)[k] != left_rows(Pose::Stand)[k]);
        if side != LEFT {
            lemma_mirrored_involution(left_rows(pose)[k]);
            lemma_mirrored_involution(left_rows(Pose::Stand)[k]);
            assert(mirrored_rows(left_rows(pose))[k] != mirrored_rows(left_rows(Pose::Stand))[k]);
        }
    }
}

fn left_image(pose: Pose) -> (r: [u8; 16])
    ensures
        r@ == left_rows(pose),
{
    let r: [u8; 16] = match pose {
        Pose::Stand => [
            0b00011000, 0b00111100, 0b00011000, 0b00011000,
            0b00111100, 0b00111100, 0b01011010, 0b10011001,
            0b00011000, 0b00011000, 0b00011000, 0b00101000,
            0b00101000, 0b00101000, 0b01000100, 0b01000100,
        ],
        Pose::Walk => [
            0b00011000, 0b00111100, 0b00011000, 0b00011000,
            0b00111100, 0b00111100, 0b01011010, 0b10011001,
            0b00011000, 0b00011000, 0b00011000, 0b00101000,
            0b00101000, 0b00010000, 0b00101000, 0b01000100,
        ],
        Pose::ShootStraight => [
            0b00011000, 0b00111100, 0b00011000, 0b00011000,
            0b00010011, 0b00111110, 0b00011000, 0b00011000,
            0b00011000, 0b00011000, 0b00011000, 0b00011000,
            0b00011000, 0b00011000, 0b00000100, 0b01111110,
        ],
        Pose::ShootDown => [
            0b00011000, 0b00111100, 0b00011000, 0b00011000,
            0b00010000, 0b00111000, 0b00011110, 0b00011010,
            0b00011001, 0b00011000, 0b00011000, 0b00011000,
            0b00011000, 0b00011000, 0b00000100, 0b01111110,
        ],
        Pose::ShootUp => [
            0b00011000, 0b00111100, 0b00011001, 0b00011010,
            0b00010110, 0b00111000, 0b00011000, 0b00011000,
            0b00011000, 0b00011000, 0b00011000, 0b00011000,
            0b00011000, 0b00011000, 0b00000100, 0b01111110,
        ],
        Pose::Hit => [
            0b00000000, 0b01100000, 0b11110000, 0b11110000,
            0b01100000, 0b01100000, 0b01100000, 0b01100000,
            0b11100000, 0b11100000, 0b11100000, 0b11100000,
            0b11100000, 0b10000000, 0b10000000, 0b11111111,
        ],
    };
    assert(r@ =~= left_rows(pose));
    r
}

/// The bitmap of the player of field half `side` in `pose`.
pub fn sherrif_image(pose: Pose, side: usize) -> (r: [u8; 16])
    requires
        side < 2,
    ensures
        r@ == pose_rows(pose, side),
{
    let left = left_image(pose);
    if side == LEFT {
        left
    } else {
        flip(left)
    }
}

/// The sixteen lines of the bush in the middle of the field.
pub open spec fn obstacle_rows() -> Seq<u8> {
    seq![
        0b00001001, 0b00001010, 0b10001010, 0b01001100,
        0b00101100, 0b00011000, 0b00001001, 0b00001110,
        0b00001000, 0b00001000, 0b10001000, 0b01001000,
        0b00101000, 0b00011000, 0b00011000, 0b00011000,
    ]
}

/// The bitmap of the bush.
pub fn obstacle_image() -> (r: [u8; 16])
    ensures
        r@ == obstacle_rows(),
{
    let r: [u8; 16] = [
        0b00001001, 0b00001010, 0b10001010, 0b01001100,
        0b00101100, 0b00011000, 0b00001001, 0b00001110,
        0b00001000, 0b00001000, 0b10001000, 0b01001000,
        0b00101000, 0b00011000, 0b00011000, 0b00011000,
    ];
    assert(r@ =~= obstacle_rows());
    r
}

} // verus!
