//! Parser that extracts UBX frames from an arbitrary byte stream.
//!
//! The stream may also carry NMEA sentences or noise, and the two
//! synchronisation bytes of a frame can occur inside such data. What looks
//! like a frame and is none is found out by its length or by its checksum.

use std::collections::HashSet;
use std::collections::VecDeque;

use vstd::prelude::*;
use vstd::relations::injective_on;
use vstd::set_lib::lemma_map_size;

use crate::checksum::{checksum_of, lemma_checksum_push, Checksum};
use crate::cid::{lemma_cid_equality, lemma_cid_new, lemma_cid_parts, UbxCID};
use crate::decoder::{
    covered_of, declared_length, fields_wf, lemma_declared_length, lemma_step_in_bounds,
    phase_in_bounds, phase_of, phase_step, Decoded, Phase, State, MAX_MESSAGE_LENGTH,
};
use crate::frame::{
    frame_body, frame_bytes, length_high, length_low, FrameView, UbxFrame, SYNC_1, SYNC_2,
};

verus! {

broadcast use {vstd::std_specs::hash::group_hash_axioms, lemma_cid_new};

/// Class byte of the identifier under which a checksum error is reported.
pub const CRC_ERROR_CLS: u8 = 0x00;

/// Id byte of the identifier under which a checksum error is reported.
pub const CRC_ERROR_ID: u8 = 0x02;

/// The reserved identifier of the packet that reports a checksum error. It
/// never travels on the wire.
pub open spec fn crc_error_cid() -> UbxCID {
    UbxCID::new(CRC_ERROR_CLS, CRC_ERROR_ID)
}

/// The packet that a parser queues when the checksum of a frame does not
/// match: the reserved identifier and no payload.
pub open spec fn crc_error_packet() -> FrameView {
    FrameView { cid: crc_error_cid(), data: Seq::empty() }
}

/// Whether a frame with identifier `cid` passes the acceptance filter: an
/// empty filter lets every frame pass.
pub open spec fn passes(filter: Set<UbxCID>, cid: UbxCID) -> bool {
    filter.is_empty() || filter.contains(cid)
}

/// The frame counter after one more frame. It stops at the largest value
/// that it can hold.
pub open spec fn count_up(frames: nat) -> nat {
    if frames < usize::MAX {
        frames + 1
    } else {
        frames
    }
}

/// What a parser is, seen from outside.
pub struct ParserView {
    /// Where it stands in the frame it is reading.
    pub phase: Phase,
    /// The identifiers of interest.
    pub filter: Set<UbxCID>,
    /// The packets that wait to be taken, oldest first.
    pub queue: Seq<FrameView>,
    /// How many frames with a matching checksum it has seen.
    pub frames: nat,
}

/// The parser after one byte.
pub open spec fn parser_step(v: ParserView, byte: u8) -> ParserView {
    let (phase, decoded) = phase_step(v.phase, byte);
    match decoded {
        None => ParserView { phase, ..v },
        Some(Decoded::Frame { cid, payload }) => ParserView {
            phase,
            queue: if passes(v.filter, cid) {
                v.queue.push(FrameView { cid, data: payload })
            } else {
                v.queue
            },
            frames: count_up(v.frames),
            ..v
        },
        Some(Decoded::ChecksumError) => ParserView {
            phase,
            queue: v.queue.push(crc_error_packet()),
            ..v
        },
    }
}

/// The parser after a sequence of bytes, taken in order.
pub open spec fn parser_run(v: ParserView, bytes: Seq<u8>) -> ParserView
    decreases bytes.len(),
{
    if bytes.len() == 0 {
        v
    } else {
        parser_step(parser_run(v, bytes.drop_last()), bytes.last())
    }
}

pub struct ParserUbx {
    crc_error_cid: UbxCID,
    rx_queue: VecDeque<UbxFrame>,
    wait_cids: HashSet<u16>,
    checksum: Checksum,
    frames_rx: usize,
    state: State,
    msg_class: u8,
    msg_id: u8,
    msg_len: usize,
    msg_data: Vec<u8>,
    cka: u8,
    ckb: u8,
    ofs: usize,
}

impl View for ParserUbx {
    type V = ParserView;

    closed spec fn view(&self) -> ParserView {
        ParserView {
            phase: self.phase(),
            filter: Set::new(|cid: UbxCID| self.wait_cids@.contains(cid.key())),
            queue: self.rx_queue@.map_values(|frame: UbxFrame| frame@),
            frames: self.frames_rx as nat,
        }
    }
}

impl ParserUbx {
    /// Where the parser stands, read from its fields.
    pub closed spec fn phase(&self) -> Phase {
        phase_of(
            self.state,
            self.msg_class,
            self.msg_id,
            self.msg_len,
            self.msg_data@,
            self.cka,
        )
    }

    /// The bytes of the current frame that the running checksum has covered.
    closed spec fn covered(&self) -> Seq<u8> {
        covered_of(self.state, self.msg_class, self.msg_id, self.msg_len, self.msg_data@)
    }

    /// Well-formedness: the fields agree with each other. Every parser that
    /// `new` returns is well formed, and every method keeps it so.
    pub closed spec fn wf(&self) -> bool {
        &&& self.crc_error_cid == crc_error_cid()
        &&& self.wait_cids@.finite()
        &&& fields_wf(
            self.state,
            self.checksum@,
            self.msg_class,
            self.msg_id,
            self.msg_len,
            self.msg_data@,
            self.ofs,
        )
    }

    /// Length bound: a well-formed parser never holds more than
    /// `MAX_MESSAGE_LENGTH` bytes of a payload, and never reads a payload that
    /// was declared longer.
    pub proof fn lemma_length_bound(&self)
        requires
            self.wf(),
        ensures
            phase_in_bounds(self@.phase),
    {
    }

    /// A parser that waits for the start of a frame, with an empty filter and
    /// an empty queue.
    pub fn new() -> (parser: Self)
        ensures
            parser.wf(),
            parser@ == (ParserView {
                phase: Phase::Init,
                filter: Set::empty(),
                queue: Seq::empty(),
                frames: 0,
            }),
    {
        let mut obj = Self {
            crc_error_cid: UbxCID::new(CRC_ERROR_CLS, CRC_ERROR_ID),
            rx_queue: VecDeque::with_capacity(10),
            wait_cids: HashSet::<u16>::new(),
            checksum: Checksum::new(),
            frames_rx: 0,
            state: State::Init,
            msg_class: 0,
            msg_id: 0,
            msg_len: 0,
            msg_data: Vec::with_capacity(1024),
            cka: 0,
            ckb: 0,
            ofs: 0,
        };
        obj._reset();
        proof {
            assert(obj@.filter =~= Set::<UbxCID>::empty());
            assert(obj@.queue =~= Seq::<FrameView>::empty());
        }
        obj
    }

    /// Gives up the frame that is being read and waits for the start of the
    /// next one. Filter, queue and counter stay as they are.
    pub fn restart(&mut self)
        requires
            old(self).wf(),
        ensures
            final(self).wf(),
            final(self)@ == (ParserView { phase: Phase::Init, ..old(self)@ }),
    {
        self.state = State::Init;
    }

    /// The number of frames with a matching checksum seen so far, whether or
    /// not they passed the filter.
    pub fn frames_received(&self) -> (frames: usize)
        ensures
            frames == self@.frames,
    {
        return self.frames_rx;
    }

    /// The number of identifiers of interest.
    pub fn filter_len(&self) -> (len: usize)
        requires
            self.wf(),
        ensures
            self@.filter.finite(),
            len == self@.filter.len(),
    {
        proof {
            let keys = self.wait_cids@;
            let cid_of = |key: u16| UbxCID::new((key / 256) as u8, (key % 256) as u8);
            assert(keys.map(cid_of) =~= self@.filter) by {
                assert forall|cid: UbxCID| #[trigger]
                    self@.filter.contains(cid) implies keys.map(cid_of).contains(cid) by {
                    lemma_cid_parts(cid);
                    assert(cid_of(cid.key()) == cid);
                }
            }
            assert(injective_on(cid_of, keys)) by {
                assert forall|a: u16, b: u16|
                    keys.contains(a) && keys.contains(b)
                        && #[trigger] cid_of(a) == #[trigger] cid_of(b) implies a == b by {
                    assert(cid_of(a).key() == a);
                    assert(cid_of(b).key() == b);
                }
            }
            lemma_map_size(keys, self@.filter, cid_of);
        }
        self.wait_cids.len()
    }

    /// Whether `cid` is an identifier of interest.
    pub fn filter_contains(&self, cid: UbxCID) -> (found: bool)
        ensures
            found == self@.filter.contains(cid),
    {
        self.wait_cids.contains(&cid.key())
    }

    /// Makes `cid` the only identifier of interest.
    pub fn set_filter(&mut self, cid: UbxCID)
        requires
            old(self).wf(),
        ensures
            final(self).wf(),
            final(self)@ == (ParserView { filter: set![cid], ..old(self)@ }),
    {
        let cids = [cid];
        self.set_filters(cids.as_slice());
        proof {
            assert(cids@ =~= seq![cid]);
            assert(cids@.to_set() =~= set![cid]) by {
                assert(cids@[0] == cid);
            }
        }
    }

    /// Replaces the identifiers of interest by those in `cids`.
    pub fn set_filters(&mut self, cids: &[UbxCID])
        requires
            old(self).wf(),
        ensures
            final(self).wf(),
            final(self)@ == (ParserView { filter: cids@.to_set(), ..old(self)@ }),
    {
        // Build HashSet from provided array
        let mut cid_set: HashSet<u16> = HashSet::new();
        let mut i: usize = 0;
        while i < cids.len()
            invariant
                i <= cids.len(),
                cid_set@.finite(),
                forall|key: u16|
                    cid_set@.contains(key) <==> exists|j: int|
                        0 <= j < i && (#[trigger] cids@[j]).key() == key,
            decreases cids.len() - i,
        {
            cid_set.insert(cids[i].key());
            i += 1;
        }
        self.wait_cids = cid_set;
        proof {
            assert forall|cid: UbxCID| #[trigger]
                self@.filter.contains(cid) <==> cids@.to_set().contains(cid) by {
                if self@.filter.contains(cid) {
                    let j = choose|j: int|
                        0 <= j < cids@.len() && (#[trigger] cids@[j]).key() == cid.key();
                    lemma_cid_equality(cids@[j], cid);
                }
                if cids@.to_set().contains(cid) {
                    let j = choose|j: int| 0 <= j < cids@.len() && cids@[j] == cid;
                    assert(cids@[j].key() == cid.key());
                }
            }
            assert(self@.filter =~= cids@.to_set());
        }
    }

    /// Drops every packet that waits in the queue.
    pub fn empty_queue(&mut self)
        requires
            old(self).wf(),
        ensures
            final(self).wf(),
            final(self)@ == (ParserView { queue: Seq::empty(), ..old(self)@ }),
    {
        self.rx_queue.clear();
        proof {
            assert(self@.queue =~= Seq::<FrameView>::empty());
        }
    }

    /// Takes the oldest packet out of the queue, if there is one.
    pub fn packet(&mut self) -> (taken: Option<UbxFrame>)
        requires
            old(self).wf(),
        ensures
            final(self).wf(),
            match taken {
                Some(frame) => {
                    &&& old(self)@.queue.len() > 0
                    &&& frame@ == old(self)@.queue[0]
                    &&& final(self)@ == (ParserView {
                        queue: old(self)@.queue.skip(1),
                        ..old(self)@
                    })
                },
                None => {
                    &&& old(self)@.queue.len() == 0
                    &&& final(self)@ == old(self)@
                },
            },
    {
        let taken = self.rx_queue.pop_front();
        proof {
            if taken is Some {
                assert(self@.queue =~= old(self)@.queue.skip(1));
            }
        }
        taken
    }

    /// Feeds the bytes of `data` to the parser, one after the other.
    pub fn process(&mut self, data: &Vec<u8>)
        requires
            old(self).wf(),
        ensures
            final(self).wf(),
            final(self)@ == parser_run(old(self)@, data@),
    {
        let mut i: usize = 0;
        while i < data.len()
            invariant
                i <= data.len(),
                self.wf(),
                self@ == parser_run(old(self)@, data@.take(i as int)),
            decreases data.len() - i,
        {
            proof {
                assert(data@.take(i + 1).drop_last() =~= data@.take(i as int));
            }
            self.process_byte(data[i]);
            i += 1;
        }
        proof {
            assert(data@.take(data.len() as int) =~= data@);
        }
    }

    /// Feeds one byte to the parser.
    pub fn process_byte(&mut self, data: u8)
        requires
            old(self).wf(),
        ensures
            final(self).wf(),
            final(self)@ == parser_step(old(self)@, data),
    {
        match self.state {
            State::Init => self.state_init(data),
            State::Sync1 => self.state_sync(data),
            State::Class => self.state_class(data),
            State::ID => self.state_id(data),
            State::Len1 => self.state_len1(data),
            State::Len2 => self.state_len2(data),
            State::Data => self.state_data(data),
            State::CRC1 => self.state_crc1(data),
            State::CRC2 => self.state_crc2(data),
        }
    }

    fn state_init(&mut self, data: u8)
        requires
            old(self).wf(),
            old(self).state is Init,
        ensures
            final(self).wf(),
            final(self)@ == parser_step(old(self)@, data),
    {
        if data == 0xB5 {
            self.state = State::Sync1;
        }
    }

    fn state_sync(&mut self, data: u8)
        requires
            old(self).wf(),
            old(self).state is Sync1,
        ensures
            final(self).wf(),
            final(self)@ == parser_step(old(self)@, data),
    {
        if data == 0x62 {
            self._reset();
            self.state = State::Class;
        } else {
            self.state = State::Init;
        }
    }

    fn state_class(&mut self, data: u8)
        requires
            old(self).wf(),
            old(self).state is Class,
        ensures
            final(self).wf(),
            final(self)@ == parser_step(old(self)@, data),
    {
        self.msg_class = data;
        self.checksum.add(data);
        self.state = State::ID;
        proof {
            lemma_checksum_push((0u8, 0u8), Seq::<u8>::empty(), data);
            assert(Seq::<u8>::empty().push(data) =~= seq![data]);
        }
    }

    fn state_id(&mut self, data: u8)
        requires
            old(self).wf(),
            old(self).state is ID,
        ensures
            final(self).wf(),
            final(self)@ == parser_step(old(self)@, data),
    {
        self.msg_id = data;
        self.checksum.add(data);
        self.state = State::Len1;
        proof {
            lemma_checksum_push((0u8, 0u8), seq![self.msg_class], data);
            assert(seq![self.msg_class].push(data) =~= seq![self.msg_class, data]);
        }
    }

    fn state_len1(&mut self, data: u8)
        requires
            old(self).wf(),
            old(self).state is Len1,
        ensures
            final(self).wf(),
            final(self)@ == parser_step(old(self)@, data),
    {
        self.msg_len = data as usize;
        self.checksum.add(data);
        self.state = State::Len2;
        proof {
            lemma_checksum_push((0u8, 0u8), seq![self.msg_class, self.msg_id], data);
            assert(seq![self.msg_class, self.msg_id].push(data) =~= seq![
                self.msg_class,
                self.msg_id,
                data,
            ]);
        }
    }

    fn state_len2(&mut self, data: u8)
        requires
            old(self).wf(),
            old(self).state is Len2,
        ensures
            final(self).wf(),
            final(self)@ == parser_step(old(self)@, data),
    {
        let ghost low = self.msg_len as u8;
        proof {
            lemma_declared_length(low, data);
            lemma_checksum_push((0u8, 0u8), seq![self.msg_class, self.msg_id, low], data);
            assert(seq![self.msg_class, self.msg_id, low].push(data) =~= seq![
                self.msg_class,
                self.msg_id,
                low,
                data,
            ] + self.msg_data@);
            assert(self.msg_data@ =~= Seq::<u8>::empty());
        }
        self.msg_len = self.msg_len + (data as usize * 256);
        self.checksum.add(data);
        assert(self.msg_len == declared_length(low, data));

        if self.msg_len == 0 {
            self.state = State::CRC1;
        } else if self.msg_len > MAX_MESSAGE_LENGTH {
            self.state = State::Init;
        } else {
            self.ofs = 0;
            self.state = State::Data;
        }
    }

    fn state_data(&mut self, data: u8)
        requires
            old(self).wf(),
            old(self).state is Data,
        ensures
            final(self).wf(),
            final(self)@ == parser_step(old(self)@, data),
    {
        proof {
            lemma_checksum_push((0u8, 0u8), self.covered(), data);
            let header = seq![
                self.msg_class,
                self.msg_id,
                length_low(self.msg_len as nat),
                length_high(self.msg_len as nat),
            ];
            assert((header + self.msg_data@).push(data) =~= header + self.msg_data@.push(data));
        }
        self.msg_data.push(data);
        self.checksum.add(data);
        self.ofs += 1;

        if self.ofs == self.msg_len {
            self.state = State::CRC1;
        }
    }

    fn state_crc1(&mut self, data: u8)
        requires
            old(self).wf(),
            old(self).state is CRC1,
        ensures
            final(self).wf(),
            final(self)@ == parser_step(old(self)@, data),
    {
        self.cka = data;
        self.state = State::CRC2;
    }

    fn state_crc2(&mut self, data: u8)
        requires
            old(self).wf(),
            old(self).state is CRC2,
        ensures
            final(self).wf(),
            final(self)@ == parser_step(old(self)@, data),
    {
        self.ckb = data;

        // if checksum matches received checksum ..
        if self.checksum.matches(self.cka, self.ckb) {
            if self.frames_rx < usize::MAX {
                self.frames_rx += 1;
            }
            // .. and frame passes filter ..

            let cid = UbxCID::new(self.msg_class, self.msg_id);
            proof {
                assert(old(self)@.filter.is_empty() <==> self.wait_cids@.is_empty()) by {
                    if !self.wait_cids@.is_empty() {
                        let key = choose|key: u16| self.wait_cids@.contains(key);
                        let other = UbxCID::new((key / 256) as u8, (key % 256) as u8);
                        assert(other.key() == key);
                        assert(old(self)@.filter.contains(other));
                    }
                }
            }
            if self.wait_cids.is_empty() || self.wait_cids.contains(&cid.key()) {
                // .. hand identifier and payload over, by value
                let packet = UbxFrame { cid: cid, data: self.msg_data.clone() };
                proof {
                    assert(packet.data@ =~= self.msg_data@);
                    assert(old(self).rx_queue@.push(packet).map_values(|frame: UbxFrame| frame@)
                        =~= old(self)@.queue.push(packet@));
                }
                self.rx_queue.push_back(packet);
            }
        } else {
            let crc_error_message = UbxFrame { cid: self.crc_error_cid, data: Vec::new() };
            proof {
                assert(crc_error_message@ == crc_error_packet());
                assert(old(self).rx_queue@.push(crc_error_message).map_values(
                    |frame: UbxFrame| frame@,
                ) =~= old(self)@.queue.push(crc_error_message@));
            }
            self.rx_queue.push_back(crc_error_message);
        }

        self.state = State::Init;
    }

    fn _reset(&mut self)
        ensures
            final(self).msg_class == 0,
            final(self).msg_id == 0,
            final(self).msg_len == 0,
            final(self).msg_data@ == Seq::<u8>::empty(),
            final(self).cka == 0,
            final(self).ckb == 0,
            final(self).ofs == 0,
            final(self).checksum@ == checksum_of(Seq::empty()),
            final(self).crc_error_cid == old(self).crc_error_cid,
            final(self).rx_queue == old(self).rx_queue,
            final(self).wait_cids == old(self).wait_cids,
            final(self).frames_rx == old(self).frames_rx,
            final(self).state == old(self).state,
    {
        self.msg_class = 0;
        self.msg_id = 0;
        self.msg_len = 0;
        self.msg_data.clear();
        self.cka = 0;
        self.ckb = 0;
        self.ofs = 0;
        self.checksum.reset();
    }
}

/// A frame-shaped byte sequence: the synchronisation bytes, the body of the
/// frame with identifier `cid` and payload `payload`, and two bytes in the
/// place of the checksum.
pub open spec fn framed(cid: UbxCID, payload: Seq<u8>, cka: u8, ckb: u8) -> Seq<u8> {
    seq![SYNC_1, SYNC_2] + frame_body(cid, payload) + seq![cka, ckb]
}

/// The bytes of the frames in `frames`, one frame after the other.
pub open spec fn stream_of(frames: Seq<FrameView>) -> Seq<u8>
    decreases frames.len(),
{
    if frames.len() == 0 {
        Seq::empty()
    } else {
        stream_of(frames.drop_last()) + frame_bytes(frames.last().cid, frames.last().data)
    }
}

/// The frame counter after `more` further frames.
pub open spec fn count_up_by(frames: nat, more: nat) -> nat {
    if frames >= usize::MAX {
        frames
    } else if frames + more <= usize::MAX {
        frames + more
    } else {
        usize::MAX as nat
    }
}

/// Feeding no byte changes nothing, and feeding one byte is one step.
pub proof fn lemma_run_one(v: ParserView, byte: u8)
    ensures
        parser_run(v, Seq::empty()) == v,
        parser_run(v, seq![byte]) == parser_step(v, byte),
{
    assert(seq![byte].drop_last() =~= Seq::<u8>::empty());
    reveal_with_fuel(parser_run, 2);
}

/// Feeding a stream in two parts is feeding it at once.
pub proof fn lemma_run_concat(v: ParserView, head: Seq<u8>, tail: Seq<u8>)
    ensures
        parser_run(v, head + tail) == parser_run(parser_run(v, head), tail),
    decreases tail.len(),
{
    if tail.len() == 0 {
        assert(head + tail =~= head);
    } else {
        lemma_run_concat(v, head, tail.drop_last());
        assert((head + tail).drop_last() =~= head + tail.drop_last());
        assert((head + tail).last() == tail.last());
    }
}

/// Whatever is fed to a parser, the filter stays, the counter does not fall,
/// and what waited in the queue still waits there, in front of what is new.
pub proof fn lemma_run_is_monotonic(v: ParserView, bytes: Seq<u8>)
    ensures
        parser_run(v, bytes).filter == v.filter,
        parser_run(v, bytes).frames >= v.frames,
        v.queue.is_prefix_of(parser_run(v, bytes).queue),
    decreases bytes.len(),
{
    if bytes.len() > 0 {
        lemma_run_is_monotonic(v, bytes.drop_last());
    }
}

/// Whether no packet in a queue has a payload of more than
/// `MAX_MESSAGE_LENGTH` bytes.
pub open spec fn queue_in_bounds(queue: Seq<FrameView>) -> bool {
    forall|i: int| 0 <= i < queue.len() ==> (#[trigger] queue[i]).data.len() <= MAX_MESSAGE_LENGTH
}

/// Length bound: whatever is fed to a parser, it never reads a payload that
/// was declared with more than `MAX_MESSAGE_LENGTH` bytes, and it never
/// queues a packet with a longer payload.
pub proof fn lemma_run_in_bounds(v: ParserView, bytes: Seq<u8>)
    requires
        phase_in_bounds(v.phase),
        queue_in_bounds(v.queue),
    ensures
        phase_in_bounds(parser_run(v, bytes).phase),
        queue_in_bounds(parser_run(v, bytes).queue),
    decreases bytes.len(),
{
    if bytes.len() > 0 {
        lemma_run_in_bounds(v, bytes.drop_last());
        lemma_step_in_bounds(parser_run(v, bytes.drop_last()).phase, bytes.last());
    }
}

/// The phase after the six bytes of a header were fed to a parser that
/// waited for the start of a frame.
pub open spec fn phase_after_header(cls: u8, id: u8, low: u8, high: u8) -> Phase {
    phase_step(Phase::Len2 { cls, id, low }, high).0
}

/// A header changes nothing but the phase.
pub proof fn lemma_run_header(v: ParserView, cls: u8, id: u8, low: u8, high: u8)
    requires
        v.phase == Phase::Init,
    ensures
        parser_run(v, seq![SYNC_1, SYNC_2, cls, id, low, high]) == (ParserView {
            phase: phase_after_header(cls, id, low, high),
            ..v
        }),
{
    let s1 = seq![SYNC_1];
    let s2 = seq![SYNC_1, SYNC_2];
    let s3 = seq![SYNC_1, SYNC_2, cls];
    let s4 = seq![SYNC_1, SYNC_2, cls, id];
    let s5 = seq![SYNC_1, SYNC_2, cls, id, low];
    let s6 = seq![SYNC_1, SYNC_2, cls, id, low, high];
    lemma_run_one(v, SYNC_1);
    assert(s2.drop_last() =~= s1);
    assert(s3.drop_last() =~= s2);
    assert(s4.drop_last() =~= s3);
    assert(s5.drop_last() =~= s4);
    assert(s6.drop_last() =~= s5);
    assert(parser_run(v, s1).phase == Phase::Sync1);
    assert(parser_run(v, s2) == parser_step(parser_run(v, s1), SYNC_2));
    assert(parser_run(v, s3) == parser_step(parser_run(v, s2), cls));
    assert(parser_run(v, s4) == parser_step(parser_run(v, s3), id));
    assert(parser_run(v, s5) == parser_step(parser_run(v, s4), low));
    assert(parser_run(v, s6) == parser_step(parser_run(v, s5), high));
}

/// Payload bytes are collected until the declared length is reached.
pub proof fn lemma_run_payload(
    v: ParserView,
    cls: u8,
    id: u8,
    len: nat,
    got: Seq<u8>,
    rest: Seq<u8>,
)
    requires
        v.phase == (Phase::Data { cls, id, len, got }),
        got.len() + rest.len() <= len,
    ensures
        parser_run(v, rest) == (ParserView {
            phase: if rest.len() > 0 && got.len() + rest.len() == len {
                Phase::Crc1 { cls, id, payload: got + rest }
            } else {
                Phase::Data { cls, id, len, got: got + rest }
            },
            ..v
        }),
    decreases rest.len(),
{
    if rest.len() == 0 {
        assert(got + rest =~= got);
    } else {
        lemma_run_payload(v, cls, id, len, got, rest.drop_last());
        assert((got + rest.drop_last()).push(rest.last()) =~= got + rest);
    }
}

/// What a frame-shaped byte sequence does to a parser that waited for the
/// start of a frame: where the two last bytes are the checksum of the body,
/// the frame is counted, and queued if it passes the filter; where they are
/// not, the checksum-error packet is queued whatever the filter holds. Either
/// way the parser waits for the start of a frame again.
pub proof fn lemma_run_framed(v: ParserView, cid: UbxCID, payload: Seq<u8>, cka: u8, ckb: u8)
    requires
        v.phase == Phase::Init,
        payload.len() <= MAX_MESSAGE_LENGTH,
    ensures
        checksum_of(frame_body(cid, payload)) == (cka, ckb) ==> parser_run(
            v,
            framed(cid, payload, cka, ckb),
        ) == (ParserView {
            phase: Phase::Init,
            queue: if passes(v.filter, cid) {
                v.queue.push(FrameView { cid, data: payload })
            } else {
                v.queue
            },
            frames: count_up(v.frames),
            ..v
        }),
        checksum_of(frame_body(cid, payload)) != (cka, ckb) ==> parser_run(
            v,
            framed(cid, payload, cka, ckb),
        ) == (ParserView { phase: Phase::Init, queue: v.queue.push(crc_error_packet()), ..v }),
{
    let cls = cid.cls();
    let id = cid.id();
    let low = length_low(payload.len());
    let high = length_high(payload.len());
    let header = seq![SYNC_1, SYNC_2, cls, id, low, high];
    let tail = seq![cka, ckb];
    assert(framed(cid, payload, cka, ckb) =~= header + payload + tail);
    assert(declared_length(low, high) == payload.len());
    lemma_cid_parts(cid);
    lemma_run_concat(v, header + payload, tail);
    lemma_run_concat(v, header, payload);
    lemma_run_header(v, cls, id, low, high);
    let v1 = parser_run(v, header);
    let v2 = parser_run(v1, payload);
    if payload.len() == 0 {
        assert(payload =~= Seq::<u8>::empty());
    } else {
        lemma_run_payload(v1, cls, id, payload.len(), Seq::empty(), payload);
        assert(Seq::<u8>::empty() + payload =~= payload);
    }
    assert(v2 == (ParserView { phase: Phase::Crc1 { cls, id, payload }, ..v }));
    assert(tail.drop_last() =~= seq![cka]);
    lemma_run_one(v2, cka);
    assert(parser_run(v2, tail) == parser_step(parser_step(v2, cka), ckb));
}

/// Round trip: the bytes of a frame, fed to a parser that waited for the
/// start of a frame, give exactly that frame where it passes the filter and
/// nothing where it does not. The frame is counted either way.
pub proof fn lemma_frame_round_trip(v: ParserView, cid: UbxCID, payload: Seq<u8>)
    requires
        v.phase == Phase::Init,
        payload.len() <= MAX_MESSAGE_LENGTH,
    ensures
        parser_run(v, frame_bytes(cid, payload)) == (ParserView {
            phase: Phase::Init,
            queue: if passes(v.filter, cid) {
                v.queue.push(FrameView { cid, data: payload })
            } else {
                v.queue
            },
            frames: count_up(v.frames),
            ..v
        }),
{
    let ck = checksum_of(frame_body(cid, payload));
    lemma_run_framed(v, cid, payload, ck.0, ck.1);
    assert(frame_bytes(cid, payload) =~= framed(cid, payload, ck.0, ck.1));
}

/// Robustness: a frame whose last checksum byte is wrong gives the
/// checksum-error packet, and a frame that follows it in the same stream is
/// decoded as if nothing had come before.
pub proof fn lemma_resynchronises(
    v: ParserView,
    cid: UbxCID,
    payload: Seq<u8>,
    wrong: u8,
    next_cid: UbxCID,
    next_payload: Seq<u8>,
)
    requires
        v.phase == Phase::Init,
        payload.len() <= MAX_MESSAGE_LENGTH,
        next_payload.len() <= MAX_MESSAGE_LENGTH,
        wrong != checksum_of(frame_body(cid, payload)).1,
    ensures
        parser_run(v, frame_bytes(cid, payload).drop_last().push(wrong)) == (ParserView {
            phase: Phase::Init,
            queue: v.queue.push(crc_error_packet()),
            ..v
        }),
        parser_run(
            v,
            frame_bytes(cid, payload).drop_last().push(wrong) + frame_bytes(next_cid, next_payload),
        ) == (ParserView {
            phase: Phase::Init,
            queue: if passes(v.filter, next_cid) {
                v.queue.push(crc_error_packet()).push(
                    FrameView { cid: next_cid, data: next_payload },
                )
            } else {
                v.queue.push(crc_error_packet())
            },
            frames: count_up(v.frames),
            ..v
        }),
{
    let ck = checksum_of(frame_body(cid, payload));
    let corrupt = frame_bytes(cid, payload).drop_last().push(wrong);
    assert(corrupt =~= framed(cid, payload, ck.0, wrong));
    lemma_run_framed(v, cid, payload, ck.0, wrong);
    lemma_run_concat(v, corrupt, frame_bytes(next_cid, next_payload));
    lemma_frame_round_trip(parser_run(v, corrupt), next_cid, next_payload);
}

/// Length guard: a header that declares more than the longest accepted
/// payload leaves the parser as it was, waiting for the start of a frame:
/// nothing is queued and nothing is counted.
pub proof fn lemma_length_guard(v: ParserView, cls: u8, id: u8, low: u8, high: u8)
    requires
        v.phase == Phase::Init,
        declared_length(low, high) > MAX_MESSAGE_LENGTH,
    ensures
        parser_run(v, seq![SYNC_1, SYNC_2, cls, id, low, high]) == v,
{
    lemma_run_header(v, cls, id, low, high);
}

/// Filter ordering: a stream of frames gives, in the order of the stream,
/// the frames that pass the filter, behind what the queue held before. Every
/// frame is counted.
pub proof fn lemma_stream_in_order(v: ParserView, frames: Seq<FrameView>)
    requires
        v.phase == Phase::Init,
        forall|i: int| 0 <= i < frames.len() ==> (#[trigger] frames[i]).data.len()
            <= MAX_MESSAGE_LENGTH,
    ensures
        parser_run(v, stream_of(frames)) == (ParserView {
            phase: Phase::Init,
            queue: v.queue + frames.filter(|frame: FrameView| passes(v.filter, frame.cid)),
            frames: count_up_by(v.frames, frames.len()),
            ..v
        }),
    decreases frames.len(),
{
    let pred = |frame: FrameView| passes(v.filter, frame.cid);
    reveal(Seq::filter);
    if frames.len() == 0 {
        assert(v.queue + frames.filter(pred) =~= v.queue);
    } else {
        let before = frames.drop_last();
        let last = frames.last();
        lemma_stream_in_order(v, before);
        lemma_run_concat(v, stream_of(before), frame_bytes(last.cid, last.data));
        lemma_frame_round_trip(parser_run(v, stream_of(before)), last.cid, last.data);
        assert(last == (FrameView { cid: last.cid, data: last.data }));
        if pred(last) {
            assert((v.queue + before.filter(pred)).push(last) =~= v.queue + frames.filter(pred));
        }
    }
}

} // verus!
