//! The wire form of a frame input.
//!
//! Inputs travel between peers as five bytes: each movement component,
//! biased by one full deflection so it is non-negative, in two little-endian
//! bytes; then one flag byte holding the jump bit and the shoot bit. A
//! decoder accepts exactly the byte strings the encoder produces: anything
//! else — wrong length, a component out of range, stray flag bits — is
//! rejected, so one corrupt frame can be neutralized instead of
//! desynchronizing the simulation.

use vstd::prelude::*;
use vstd::arithmetic::div_mod::{lemma_fundamental_div_mod, lemma_fundamental_div_mod_converse};
use crate::config::UNIT;
use crate::player::FrameInput;

verus! {

/// How many bytes one encoded input occupies.
pub const FRAME_INPUT_WIRE_BYTES: usize = 5;

/// The five wire bytes of a well-formed input.
pub open spec fn encode_spec(i: FrameInput) -> Seq<u8> {
    let bx = i.movement_x + UNIT;
    let by = i.movement_y + UNIT;
    let flags = (if i.jump { 1int } else { 0int }) + (if i.shoot { 2int } else { 0int });
    seq![
        (bx % 256) as u8,
        (bx / 256) as u8,
        (by % 256) as u8,
        (by / 256) as u8,
        flags as u8,
    ]
}

/// The byte strings the decoder accepts: exactly five bytes, both biased
/// components within twice the deflection range, no stray flag bits.
pub open spec fn valid_wire(b: Seq<u8>) -> bool {
    &&& b.len() == 5
    &&& b[0] + 256 * b[1] <= 2 * UNIT
    &&& b[2] + 256 * b[3] <= 2 * UNIT
    &&& b[4] < 4
}

/// The input a valid byte string denotes.
pub open spec fn decode_spec(b: Seq<u8>) -> FrameInput {
    FrameInput {
        movement_x: (b[0] + 256 * b[1] - UNIT) as i64,
        movement_y: (b[2] + 256 * b[3] - UNIT) as i64,
        jump: b[4] as int % 2 == 1,
        shoot: b[4] as int / 2 == 1,
    }
}

/// Encode one input for transmission.
pub fn encode_frame_input(i: &FrameInput) -> (r: Vec<u8>)
    requires
        i.wf(),
    ensures
        r@ == encode_spec(*i),
        valid_wire(r@),
{
    let bx: u16 = (i.movement_x + UNIT) as u16;
    let by: u16 = (i.movement_y + UNIT) as u16;
    let flags: u8 = (if i.jump { 1u8 } else { 0u8 }) + (if i.shoot { 2u8 } else { 0u8 });
    let mut out: Vec<u8> = Vec::new();
    out.push((bx % 256) as u8);
    out.push((bx / 256) as u8);
    out.push((by % 256) as u8);
    out.push((by / 256) as u8);
    out.push(flags);
    proof {
        lemma_fundamental_div_mod(bx as int, 256);
        lemma_fundamental_div_mod(by as int, 256);
        assert(out@ =~= encode_spec(*i));
    }
    out
}

/// Decode one received input; `None` on anything the encoder cannot have
/// produced.
pub fn decode_frame_input(bytes: &Vec<u8>) -> (r: Option<FrameInput>)
    ensures
        r is Some <==> valid_wire(bytes@),
        r is Some ==> r->0 == decode_spec(bytes@) && r->0.wf(),
{
    if bytes.len() != 5 {
        return None;
    }
    let ux: u32 = bytes[0] as u32 + 256 * (bytes[1] as u32);
    let uy: u32 = bytes[2] as u32 + 256 * (bytes[3] as u32);
    let flags = bytes[4];
    if ux > 2000 || uy > 2000 || flags >= 4 {
        return None;
    }
    Some(FrameInput {
        movement_x: ux as i64 - UNIT,
        movement_y: uy as i64 - UNIT,
        jump: flags % 2 == 1,
        shoot: flags / 2 == 1,
    })
}

/// Decode one received input, neutralizing anything malformed: a corrupt
/// frame degrades to no intent rather than crashing or desynchronizing.
pub fn decode_frame_input_or_neutral(bytes: &Vec<u8>) -> (r: FrameInput)
    ensures
        valid_wire(bytes@) ==> r == decode_spec(bytes@),
        !valid_wire(bytes@) ==> r == (FrameInput {
            movement_x: 0,
            movement_y: 0,
            jump: false,
            shoot: false,
        }),
        r.wf(),
{
    match decode_frame_input(bytes) {
        Some(i) => i,
        None => FrameInput::neutral(),
    }
}

/// Encoding then decoding gives the input back, for every well-formed
/// input.
pub proof fn lemma_wire_round_trip(i: FrameInput)
    requires
        i.wf(),
    ensures
        valid_wire(encode_spec(i)),
        decode_spec(encode_spec(i)) == i,
{
    let bx = i.movement_x + UNIT;
    let by = i.movement_y + UNIT;
    lemma_fundamental_div_mod(bx, 256);
    lemma_fundamental_div_mod(by, 256);
}

/// Decoding then encoding gives the bytes back: every valid byte string is
/// canonical.
pub proof fn lemma_wire_canonical(b: Seq<u8>)
    requires
        valid_wire(b),
    ensures
        decode_spec(b).wf(),
        encode_spec(decode_spec(b)) == b,
{
    let ux = b[0] + 256 * b[1];
    let uy = b[2] + 256 * b[3];
    lemma_fundamental_div_mod_converse(ux, 256, b[1] as int, b[0] as int);
    lemma_fundamental_div_mod_converse(uy, 256, b[3] as int, b[2] as int);
    assert(encode_spec(decode_spec(b)) =~= b);
}

} // verus!
