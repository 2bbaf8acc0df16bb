//! The UBX frame: its wire form, and the capabilities by which a message
//! type turns into frame bytes and back from payload bytes.

use vstd::prelude::*;
use vstd::slice::slice_to_vec;

use crate::checksum::{checksum_of, lemma_checksum_push, Checksum};
use crate::cid::UbxCID;

verus! {

/// First synchronisation byte of every frame.
pub const SYNC_1: u8 = 0xB5;

/// Second synchronisation byte of every frame.
pub const SYNC_2: u8 = 0x62;

/// Low byte of the length field for a payload of `len` bytes.
pub open spec fn length_low(len: nat) -> u8 {
    (len % 256) as u8
}

/// High byte of the length field for a payload of `len` bytes. The field has
/// sixteen bits: of a longer payload it holds the length modulo 65536.
pub open spec fn length_high(len: nat) -> u8 {
    ((len / 256) % 256) as u8
}

/// The part of a frame that the checksum covers: class, id, the length in
/// little-endian order, and the payload.
pub open spec fn frame_body(cid: UbxCID, payload: Seq<u8>) -> Seq<u8> {
    seq![cid.cls(), cid.id(), length_low(payload.len()), length_high(payload.len())] + payload
}

/// The wire form of a frame: the two synchronisation bytes, the body, and the
/// two checksum bytes of the body.
pub open spec fn frame_bytes(cid: UbxCID, payload: Seq<u8>) -> Seq<u8> {
    let body = frame_body(cid, payload);
    let ck = checksum_of(body);
    seq![SYNC_1, SYNC_2] + body + seq![ck.0, ck.1]
}

/// A frame is eight bytes longer than its payload, and for a payload that fits
/// the sixteen-bit field the two length bytes give back the payload's length.
pub proof fn lemma_frame_layout(cid: UbxCID, payload: Seq<u8>)
    ensures
        frame_bytes(cid, payload).len() == payload.len() + 8,
        frame_bytes(cid, payload)[0] == SYNC_1,
        frame_bytes(cid, payload)[1] == SYNC_2,
        frame_bytes(cid, payload)[2] == cid.cls(),
        frame_bytes(cid, payload)[3] == cid.id(),
        frame_bytes(cid, payload).subrange(6, 6 + payload.len() as int) == payload,
        payload.len() <= 65535 ==> frame_bytes(cid, payload)[4] + 256 * frame_bytes(
            cid,
            payload,
        )[5] == payload.len(),
{
    assert(frame_bytes(cid, payload).subrange(6, 6 + payload.len() as int) =~= payload);
}

/// Name and identifier of a message type.
pub trait UbxFrameInfo {
    /// The identifier, for contracts.
    spec fn spec_cid(&self) -> UbxCID;

    fn name(&self) -> &'static str;

    fn cid(&self) -> (cid: UbxCID)
        ensures
            cid == self.spec_cid(),
    ;
}

/// A message that can be sent: it has an identifier and a payload, and turns
/// into the frame that carries them.
pub trait UbxFrameSerialize {
    /// The identifier under which the message travels.
    spec fn frame_cid(&self) -> UbxCID;

    /// The payload bytes of the message.
    spec fn payload(&self) -> Seq<u8>;

    fn to_bin(&self) -> (bytes: Vec<u8>)
        ensures
            bytes@ == frame_bytes(self.frame_cid(), self.payload()),
    ;
}

/// A message that can be filled from the payload of a received frame.
pub trait UbxFrameDeSerialize {
    /// Whether `data` is a payload that this message can be filled from.
    spec fn accepts(&self, data: Seq<u8>) -> bool;

    /// Tells whether `from_bin` may be called with `data`.
    fn can_load(&self, data: &[u8]) -> (ok: bool)
        ensures
            ok == self.accepts(data@),
    ;

    /// Whether `self` is what `before` becomes when it is filled from the
    /// payload `data`.
    spec fn filled_from(&self, before: &Self, data: Seq<u8>) -> bool;

    fn from_bin(&mut self, data: &[u8])
        requires
            old(self).accepts(data@),
        ensures
            final(self).filled_from(old(self), data@),
    ;
}

/// The payload of a message as a value: how it is laid out in bytes.
pub trait WireEncode {
    /// The bytes of the value, field after field.
    spec fn wire(&self) -> Seq<u8>;

    fn encode(&self) -> (bytes: Vec<u8>)
        ensures
            bytes@ == self.wire(),
    ;
}

/// The payload of a message as a value: how it is read from bytes.
pub trait WireDecode: Sized {
    /// The value that `data` holds, if it holds one. Bytes after the last field
    /// are ignored.
    spec fn parse(data: Seq<u8>) -> Option<Self>;

    fn decode(data: &[u8]) -> (value: Option<Self>)
        ensures
            value == Self::parse(data@),
    ;
}

/// A frame as a value: identifier and payload.
#[derive(Default, Debug)]
pub struct UbxFrame {
    pub cid: UbxCID,
    pub data: Vec<u8>,
}

/// What a frame holds: its identifier and its payload as a sequence.
pub struct FrameView {
    pub cid: UbxCID,
    pub data: Seq<u8>,
}

impl View for UbxFrame {
    type V = FrameView;

    open spec fn view(&self) -> FrameView {
        FrameView { cid: self.cid, data: self.data@ }
    }
}

impl UbxFrame {
    /// The wire form of the frame with identifier `cid` and payload `data`.
    /// Every payload is accepted; see `length_high` for one of more than 65535
    /// bytes.
    pub fn bytes(cid: UbxCID, data: &[u8]) -> (msg: Vec<u8>)
        ensures
            msg@ == frame_bytes(cid, data@),
    {
        let frame = Self { cid, data: slice_to_vec(data) };
        frame.serialize()
    }

    pub fn serialize(&self) -> (msg: Vec<u8>)
        ensures
            msg@ == frame_bytes(self.cid, self.data@),
    {
        let mut checksum = Checksum::new();
        let mut msg = Vec::<u8>::with_capacity(256);

        // Header Sync
        msg.push(SYNC_1);
        msg.push(SYNC_2);

        // Message Class & Id
        let cls = self.cid.cls();
        msg.push(cls);
        checksum.add(cls);

        let id = self.cid.id();
        msg.push(id);
        checksum.add(id);

        // Length - 16 bit little endian
        let length = self.data.len();
        let l_low = (length % 256) as u8;
        msg.push(l_low);
        checksum.add(l_low);

        let l_high = ((length / 256) % 256) as u8;
        msg.push(l_high);
        checksum.add(l_high);

        let ghost header = seq![cls, id, l_low, l_high];
        proof {
            lemma_checksum_push((0u8, 0u8), Seq::<u8>::empty(), cls);
            lemma_checksum_push((0u8, 0u8), seq![cls], id);
            lemma_checksum_push((0u8, 0u8), seq![cls, id], l_low);
            lemma_checksum_push((0u8, 0u8), seq![cls, id, l_low], l_high);
            assert(Seq::<u8>::empty().push(cls) =~= seq![cls]);
            assert(seq![cls].push(id) =~= seq![cls, id]);
            assert(seq![cls, id].push(l_low) =~= seq![cls, id, l_low]);
            assert(seq![cls, id, l_low].push(l_high) =~= header);
            assert(header + self.data@.take(0) =~= header);
        }

        // Payload
        let mut i: usize = 0;
        while i < length
            invariant
                i <= length,
                length == self.data@.len(),
                msg@ == seq![SYNC_1, SYNC_2] + header + self.data@.take(i as int),
                checksum@ == checksum_of(header + self.data@.take(i as int)),
            decreases length - i,
        {
            let d = self.data[i];
            msg.push(d);
            checksum.add(d);
            proof {
                let before = header + self.data@.take(i as int);
                lemma_checksum_push((0u8, 0u8), before, d);
                assert(before.push(d) =~= header + self.data@.take(i + 1));
                assert((seq![SYNC_1, SYNC_2] + header + self.data@.take(i as int)).push(d)
                    =~= seq![SYNC_1, SYNC_2] + header + self.data@.take(i + 1));
            }
            i += 1;
        }

        // Checksum
        let (cka, ckb) = checksum.value();
        msg.push(cka);
        msg.push(ckb);

        proof {
            assert(self.data@.take(length as int) =~= self.data@);
            assert(header + self.data@ =~= frame_body(self.cid, self.data@));
            assert(msg@ =~= frame_bytes(self.cid, self.data@));
        }
        msg
    }
}

/// A poll request: a frame without payload that asks the receiver to report
/// the message of the same identifier.
#[derive(Default, Debug)]
pub struct UbxFramePoll {
    pub name: &'static str,
    pub cid: UbxCID,
}

impl UbxFramePoll {
    pub fn new(name: &'static str, cid: UbxCID) -> (frame: Self)
        ensures
            frame.name == name,
            frame.cid == cid,
    {
        Self { name, cid }
    }
}

impl UbxFrameInfo for UbxFramePoll {
    open spec fn spec_cid(&self) -> UbxCID {
        self.cid
    }

    fn name(&self) -> (name: &'static str)
        ensures
            name == self.name,
    {
        self.name
    }

    fn cid(&self) -> (cid: UbxCID) {
        self.cid
    }
}

impl UbxFrameSerialize for UbxFramePoll {
    open spec fn frame_cid(&self) -> UbxCID {
        self.cid
    }

    open spec fn payload(&self) -> Seq<u8> {
        Seq::empty()
    }

    fn to_bin(&self) -> (bytes: Vec<u8>) {
        let data: [u8; 0] = [];
        let bytes = UbxFrame::bytes(self.cid(), data.as_slice());
        proof {
            assert(data@ =~= Seq::<u8>::empty());
        }
        bytes
    }
}

/// A message whose payload is one value that is laid out field after field.
#[derive(Default, Debug)]
pub struct UbxFrameWithData<T> {
    pub name: &'static str,
    pub cid: UbxCID,
    pub data: T,
}

impl<T: Default> UbxFrameWithData<T> {
    /// A message whose payload is the default value of its type.
    pub fn new(name: &'static str, cid: UbxCID) -> (frame: Self)
        ensures
            frame.name == name,
            frame.cid == cid,
            call_ensures(T::default, (), frame.data),
    {
        Self { name, cid, data: T::default() }
    }

    pub fn init(name: &'static str, cid: UbxCID, data: T) -> (frame: Self)
        ensures
            frame.name == name,
            frame.cid == cid,
            frame.data == data,
    {
        Self { name, cid, data }
    }
}

impl<T> UbxFrameInfo for UbxFrameWithData<T> {
    open spec fn spec_cid(&self) -> UbxCID {
        self.cid
    }

    fn name(&self) -> (name: &'static str)
        ensures
            name == self.name,
    {
        self.name
    }

    fn cid(&self) -> (cid: UbxCID) {
        self.cid
    }
}

impl<T: WireEncode> UbxFrameSerialize for UbxFrameWithData<T> {
    open spec fn frame_cid(&self) -> UbxCID {
        self.cid
    }

    open spec fn payload(&self) -> Seq<u8> {
        self.data.wire()
    }

    fn to_bin(&self) -> (bytes: Vec<u8>) {
        let data = self.data.encode();
        UbxFrame::bytes(self.cid(), data.as_slice())
    }
}

impl<T: WireDecode> UbxFrameDeSerialize for UbxFrameWithData<T> {
    open spec fn accepts(&self, data: Seq<u8>) -> bool {
        T::parse(data) is Some
    }

    fn can_load(&self, data: &[u8]) -> (ok: bool) {
        T::decode(data).is_some()
    }

    /// The payload value is the one that `data` holds; name and identifier
    /// stay.
    open spec fn filled_from(&self, before: &Self, data: Seq<u8>) -> bool {
        &&& self.name == before.name
        &&& self.cid == before.cid
        &&& Some(self.data) == T::parse(data)
    }

    /// Replaces the payload value by the one that `data` holds; name and
    /// identifier stay.
    fn from_bin(&mut self, data: &[u8]) {
        match T::decode(data) {
            Some(value) => {
                self.data = value;
            },
            None => {},
        }
    }
}

} // verus!
