//! The wire form of frame inputs, and local input gathering.

use ribbon_arena::codec::{
    decode_frame_input, decode_frame_input_or_neutral, encode_frame_input,
};
use ribbon_arena::input::gather_input;
use ribbon_arena::player::FrameInput;

#[test]
fn encode_produces_the_documented_layout() {
    // Biased x: 1000 + 1000 = 2000 = 7 * 256 + 208; biased y: 293 = 256 + 37.
    let i = FrameInput { movement_x: 1000, movement_y: -707, jump: true, shoot: false };
    assert_eq!(encode_frame_input(&i), vec![208, 7, 37, 1, 1]);

    let neutral = FrameInput { movement_x: 0, movement_y: 0, jump: false, shoot: false };
    assert_eq!(encode_frame_input(&neutral), vec![232, 3, 232, 3, 0]);

    let both = FrameInput { movement_x: -1000, movement_y: 0, jump: true, shoot: true };
    assert_eq!(encode_frame_input(&both), vec![0, 0, 232, 3, 3]);
}

#[test]
fn wire_round_trip_preserves_inputs() {
    let cases = [
        FrameInput { movement_x: 0, movement_y: 0, jump: false, shoot: false },
        FrameInput { movement_x: 1000, movement_y: -1000, jump: true, shoot: true },
        FrameInput { movement_x: -707, movement_y: 707, jump: false, shoot: true },
        FrameInput { movement_x: 3, movement_y: -999, jump: true, shoot: false },
    ];
    for i in cases {
        let bytes = encode_frame_input(&i);
        assert_eq!(decode_frame_input(&bytes), Some(i));
    }
}

#[test]
fn wrong_length_is_rejected() {
    assert_eq!(decode_frame_input(&vec![]), None);
    assert_eq!(decode_frame_input(&vec![0, 0, 0, 0]), None);
    assert_eq!(decode_frame_input(&vec![0, 0, 0, 0, 0, 0]), None);
}

#[test]
fn out_of_range_components_are_rejected() {
    // Biased x of 2001 exceeds full deflection.
    assert_eq!(decode_frame_input(&vec![209, 7, 0, 0, 0]), None);
    // Biased y of 255 + 256 * 255 is far out of range.
    assert_eq!(decode_frame_input(&vec![0, 0, 255, 255, 0]), None);
}

#[test]
fn stray_flag_bits_are_rejected() {
    assert_eq!(decode_frame_input(&vec![232, 3, 232, 3, 4]), None);
    assert_eq!(decode_frame_input(&vec![232, 3, 232, 3, 255]), None);
}

#[test]
fn corrupt_frames_neutralize_instead_of_failing() {
    let neutral = FrameInput { movement_x: 0, movement_y: 0, jump: false, shoot: false };
    assert_eq!(decode_frame_input_or_neutral(&vec![1, 2, 3]), neutral);
    let i = FrameInput { movement_x: -707, movement_y: 707, jump: true, shoot: false };
    assert_eq!(decode_frame_input_or_neutral(&encode_frame_input(&i)), i);
}

#[test]
fn gather_input_normalizes_axes() {
    // Forward alone: full deflection on y.
    let fwd = gather_input(true, false, false, false, false, false);
    assert_eq!((fwd.movement_x, fwd.movement_y), (0, 1000));
    // Left alone: full negative deflection on x.
    let left = gather_input(false, false, true, false, false, false);
    assert_eq!((left.movement_x, left.movement_y), (-1000, 0));
    // A diagonal scales both components to unit length.
    let diag = gather_input(true, false, false, true, false, false);
    assert_eq!((diag.movement_x, diag.movement_y), (707, 707));
    let back_left = gather_input(false, true, true, false, false, false);
    assert_eq!((back_left.movement_x, back_left.movement_y), (-707, -707));
}

#[test]
fn gather_input_cancels_opposite_keys() {
    let all = gather_input(true, true, true, true, false, false);
    assert_eq!((all.movement_x, all.movement_y), (0, 0));
    let fwd_back = gather_input(true, true, false, true, false, false);
    assert_eq!((fwd_back.movement_x, fwd_back.movement_y), (1000, 0));
}

#[test]
fn gather_input_passes_buttons_through() {
    let i = gather_input(false, false, false, false, true, true);
    assert!(i.jump);
    assert!(i.shoot);
    let j = gather_input(true, false, false, false, false, true);
    assert!(!j.jump);
    assert!(j.shoot);
}

#[test]
fn gathered_input_survives_the_wire() {
    let i = gather_input(true, false, true, false, true, false);
    let bytes = encode_frame_input(&i);
    assert_eq!(decode_frame_input(&bytes), Some(i));
}
