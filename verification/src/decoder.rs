//! The framing rules of the byte-stream parsers: how one byte after another
//! is recognised as synchronisation, header, payload and checksum of a frame.

use vstd::prelude::*;

use crate::checksum::checksum_of;
use crate::cid::UbxCID;
use crate::frame::{frame_body, length_high, length_low, SYNC_1, SYNC_2};

verus! {

/// Longest payload that the parsers accept. A header that declares more is
/// taken for noise.
pub const MAX_MESSAGE_LENGTH: usize = 1000;

/// The state of a parser, as the byte it waits for.
#[derive(Debug)]
pub enum State {
    Init,
    Sync1,
    Class,
    ID,
    Len1,
    Len2,
    Data,
    CRC1,
    CRC2,
}

/// Where a parser stands within a frame, together with what it has read of
/// the frame so far.
pub enum Phase {
    /// Waiting for the first synchronisation byte.
    Init,
    /// Waiting for the second synchronisation byte.
    Sync1,
    /// Waiting for the class byte.
    Class,
    /// Waiting for the id byte.
    Id { cls: u8 },
    /// Waiting for the low byte of the length.
    Len1 { cls: u8, id: u8 },
    /// Waiting for the high byte of the length.
    Len2 { cls: u8, id: u8, low: u8 },
    /// Reading a payload of `len` bytes, of which `got` have arrived.
    Data { cls: u8, id: u8, len: nat, got: Seq<u8> },
    /// Waiting for the first checksum byte.
    Crc1 { cls: u8, id: u8, payload: Seq<u8> },
    /// Waiting for the second checksum byte.
    Crc2 { cls: u8, id: u8, payload: Seq<u8>, cka: u8 },
}

/// What the last byte of a frame brings to light.
pub enum Decoded {
    /// A frame whose checksum matched.
    Frame { cid: UbxCID, payload: Seq<u8> },
    /// A frame whose checksum did not match.
    ChecksumError,
}

/// The length that the two length bytes declare.
pub open spec fn declared_length(low: u8, high: u8) -> nat {
    (low + 256 * high) as nat
}

/// Whether a phase keeps to the bound on the length of a payload: a payload
/// that is being read is declared with at least one and at most
/// `MAX_MESSAGE_LENGTH` bytes and is not yet complete, and a payload that is
/// complete has at most `MAX_MESSAGE_LENGTH` bytes.
pub open spec fn phase_in_bounds(phase: Phase) -> bool {
    match phase {
        Phase::Data { cls, id, len, got } => got.len() < len <= MAX_MESSAGE_LENGTH,
        Phase::Crc1 { cls, id, payload } => payload.len() <= MAX_MESSAGE_LENGTH,
        Phase::Crc2 { cls, id, payload, cka } => payload.len() <= MAX_MESSAGE_LENGTH,
        _ => true,
    }
}

/// A step keeps a phase within the bound on the length of a payload, and a
/// frame that a step brings to light has a payload within the bound.
pub proof fn lemma_step_in_bounds(phase: Phase, byte: u8)
    requires
        phase_in_bounds(phase),
    ensures
        phase_in_bounds(phase_step(phase, byte).0),
        match phase_step(phase, byte).1 {
            Some(Decoded::Frame { cid, payload }) => payload.len() <= MAX_MESSAGE_LENGTH,
            _ => true,
        },
{
}

/// The two length bytes of a frame are the low and the high byte of the
/// length that they declare.
pub proof fn lemma_declared_length(low: u8, high: u8)
    ensures
        declared_length(low, high) <= 65535,
        length_low(declared_length(low, high)) == low,
        length_high(declared_length(low, high)) == high,
{
    let len = low + 256 * high;
    assert(len % 256 == low);
    assert(len / 256 == high);
}

/// One transition: the phase after `byte`, and what the byte completed.
pub open spec fn phase_step(phase: Phase, byte: u8) -> (Phase, Option<Decoded>) {
    match phase {
        Phase::Init => if byte == SYNC_1 {
            (Phase::Sync1, None)
        } else {
            (Phase::Init, None)
        },
        Phase::Sync1 => if byte == SYNC_2 {
            (Phase::Class, None)
        } else {
            (Phase::Init, None)
        },
        Phase::Class => (Phase::Id { cls: byte }, None),
        Phase::Id { cls } => (Phase::Len1 { cls, id: byte }, None),
        Phase::Len1 { cls, id } => (Phase::Len2 { cls, id, low: byte }, None),
        Phase::Len2 { cls, id, low } => {
            let len = declared_length(low, byte);
            if len == 0 {
                (Phase::Crc1 { cls, id, payload: Seq::empty() }, None)
            } else if len > MAX_MESSAGE_LENGTH {
                (Phase::Init, None)
            } else {
                (Phase::Data { cls, id, len, got: Seq::empty() }, None)
            }
        },
        Phase::Data { cls, id, len, got } => if got.len() + 1 == len {
            (Phase::Crc1 { cls, id, payload: got.push(byte) }, None)
        } else {
            (Phase::Data { cls, id, len, got: got.push(byte) }, None)
        },
        Phase::Crc1 { cls, id, payload } => (Phase::Crc2 { cls, id, payload, cka: byte }, None),
        Phase::Crc2 { cls, id, payload, cka } => {
            let cid = UbxCID::new(cls, id);
            if checksum_of(frame_body(cid, payload)) == (cka, byte) {
                (Phase::Init, Some(Decoded::Frame { cid, payload }))
            } else {
                (Phase::Init, Some(Decoded::ChecksumError))
            }
        },
    }
}

/// The phase that the fields of a parser stand for.
pub open spec fn phase_of(state: State, cls: u8, id: u8, len: usize, data: Seq<u8>, cka: u8)
    -> Phase {
    match state {
        State::Init => Phase::Init,
        State::Sync1 => Phase::Sync1,
        State::Class => Phase::Class,
        State::ID => Phase::Id { cls },
        State::Len1 => Phase::Len1 { cls, id },
        State::Len2 => Phase::Len2 { cls, id, low: len as u8 },
        State::Data => Phase::Data { cls, id, len: len as nat, got: data },
        State::CRC1 => Phase::Crc1 { cls, id, payload: data },
        State::CRC2 => Phase::Crc2 { cls, id, payload: data, cka },
    }
}

/// The bytes of the current frame that the running checksum of a parser has
/// covered.
pub open spec fn covered_of(state: State, cls: u8, id: u8, len: usize, data: Seq<u8>) -> Seq<u8> {
    match state {
        State::Init | State::Sync1 | State::Class => Seq::empty(),
        State::ID => seq![cls],
        State::Len1 => seq![cls, id],
        State::Len2 => seq![cls, id, len as u8],
        State::Data => seq![cls, id, length_low(len as nat), length_high(len as nat)] + data,
        State::CRC1 | State::CRC2 => frame_body(UbxCID::new(cls, id), data),
    }
}

/// Whether the fields of a parser agree with each other: the running
/// checksum is that of the bytes covered, the offset is the number of payload
/// bytes held, and the lengths are within their bounds.
pub open spec fn fields_wf(
    state: State,
    checksum: (u8, u8),
    cls: u8,
    id: u8,
    len: usize,
    data: Seq<u8>,
    ofs: usize,
) -> bool {
    match state {
        State::Init | State::Sync1 => true,
        State::Class | State::ID | State::Len1 => {
            &&& checksum == checksum_of(covered_of(state, cls, id, len, data))
            &&& data.len() == 0
            &&& ofs == 0
        },
        State::Len2 => {
            &&& checksum == checksum_of(covered_of(state, cls, id, len, data))
            &&& data.len() == 0
            &&& ofs == 0
            &&& len <= 255
        },
        State::Data => {
            &&& checksum == checksum_of(covered_of(state, cls, id, len, data))
            &&& ofs == data.len()
            &&& ofs < len <= MAX_MESSAGE_LENGTH
        },
        State::CRC1 | State::CRC2 => {
            &&& checksum == checksum_of(covered_of(state, cls, id, len, data))
            &&& data.len() <= MAX_MESSAGE_LENGTH
        },
    }
}

} // verus!
