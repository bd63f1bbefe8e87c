//! The wire format of the unit layer: a frame is a four-byte little-endian
//! length followed by exactly that many payload bytes.

use vstd::prelude::*;

verus! {

/// Number of bytes of a frame's length prefix.
pub const HEADER_SIZE: usize = 4;

/// One past the largest length that the prefix can carry.
pub open spec fn length_modulus() -> nat {
    0x1_0000_0000
}

/// The four bytes that carry `length`, least significant first.
pub open spec fn length_prefix(length: nat) -> Seq<u8> {
    seq![
        (length % 256) as u8,
        ((length / 0x100) % 256) as u8,
        ((length / 0x1_0000) % 256) as u8,
        ((length / 0x100_0000) % 256) as u8,
    ]
}

/// The length that the first four bytes of `header` carry.
pub open spec fn prefixed_length(header: Seq<u8>) -> nat
    recommends
        header.len() >= 4,
{
    (header[0] as nat) + 0x100 * (header[1] as nat) + 0x1_0000 * (header[2] as nat) + 0x100_0000
        * (header[3] as nat)
}

/// Whether a payload of `length` bytes fits a frame: whether the prefix can
/// carry its length.
pub open spec fn fits_frame(length: nat) -> bool {
    length < length_modulus()
}

/// The frame of `payload`: the prefix that carries its length, then its
/// bytes. Only a payload that fits a frame has one.
pub open spec fn frame(payload: Seq<u8>) -> Seq<u8>
    recommends
        fits_frame(payload.len()),
{
    length_prefix(payload.len()) + payload
}

/// Whether `wire` starts with a whole frame.
pub open spec fn holds_frame(wire: Seq<u8>) -> bool {
    wire.len() >= 4 && wire.len() - 4 >= prefixed_length(wire)
}

/// The payload of the frame that `wire` starts with.
pub open spec fn first_payload(wire: Seq<u8>) -> Seq<u8>
    recommends
        holds_frame(wire),
{
    wire.subrange(4, 4 + prefixed_length(wire) as int)
}

/// What follows the frame that `wire` starts with.
pub open spec fn after_first(wire: Seq<u8>) -> Seq<u8>
    recommends
        holds_frame(wire),
{
    wire.subrange(4 + prefixed_length(wire) as int, wire.len() as int)
}

/// How many bytes are still to arrive before `wire` starts with a whole
/// frame: the rest of the header first, then the rest of the payload that the
/// header announces.
pub open spec fn missing(wire: Seq<u8>) -> nat {
    if wire.len() < 4 {
        (4 - wire.len()) as nat
    } else if wire.len() - 4 < prefixed_length(wire) {
        (prefixed_length(wire) - (wire.len() - 4)) as nat
    } else {
        0
    }
}

/// A prefix is read back as the length it was written for.
pub proof fn lemma_prefix_round_trip(length: nat)
    requires
        length < length_modulus(),
    ensures
        length_prefix(length).len() == 4,
        prefixed_length(length_prefix(length)) == length,
{
}

/// A frame followed by anything starts with that frame: its payload is read
/// back unchanged and what followed it is left over.
pub proof fn lemma_frame_round_trip(payload: Seq<u8>, rest: Seq<u8>)
    requires
        fits_frame(payload.len()),
    ensures
        holds_frame(frame(payload) + rest),
        missing(frame(payload) + rest) == 0,
        first_payload(frame(payload) + rest) == payload,
        after_first(frame(payload) + rest) == rest,
{
    let wire = frame(payload) + rest;
    lemma_prefix_round_trip(payload.len());
    assert(wire[0] == length_prefix(payload.len())[0]);
    assert(wire[1] == length_prefix(payload.len())[1]);
    assert(wire[2] == length_prefix(payload.len())[2]);
    assert(wire[3] == length_prefix(payload.len())[3]);
    assert(prefixed_length(wire) == payload.len());
    assert(first_payload(wire) =~= payload);
    assert(after_first(wire) =~= rest);
}

/// The length prefix for a payload of `length` bytes.
pub fn encode_length(length: u32) -> (header: [u8; 4])
    ensures
        header@ == length_prefix(length as nat),
{
    let header = [
        (length % 256) as u8,
        ((length / 0x100) % 256) as u8,
        ((length / 0x1_0000) % 256) as u8,
        ((length / 0x100_0000) % 256) as u8,
    ];
    assert(header@ =~= length_prefix(length as nat));
    header
}

/// Whether a payload of `length` bytes fits a frame.
pub fn fits(length: usize) -> (fitting: bool)
    ensures
        fitting == fits_frame(length as nat),
{
    length as u64 <= 0xffff_ffff
}

/// The payload length that a prefix announces.
pub fn decode_length(header: &[u8; 4]) -> (length: u32)
    ensures
        length as nat == prefixed_length(header@),
{
    let b0: u32 = header[0] as u32;
    let b1: u32 = header[1] as u32;
    let b2: u32 = header[2] as u32;
    let b3: u32 = header[3] as u32;
    b0 + 0x100 * b1 + 0x1_0000 * b2 + 0x100_0000 * b3
}

} // verus!
