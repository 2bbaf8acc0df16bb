//! Parser that extracts UBX frames from an arbitrary byte stream and hands
//! them over as packets.
//!
//! It reads frames as `ParserUbx` does and follows the same filter rule: a
//! frame with a matching checksum is queued if the filter is empty or holds
//! its identifier. Its filter is built up one identifier at a time, and it
//! keeps no count of the frames it has seen.

use std::collections::HashSet;
use std::collections::VecDeque;

use vstd::prelude::*;

use crate::checksum::{checksum_of, lemma_checksum_push, Checksum};
use crate::cid::{lemma_cid_equality, lemma_cid_new, UbxCID};
use crate::decoder::{
    covered_of, declared_length, fields_wf, lemma_declared_length, phase_in_bounds, phase_of,
    phase_step, Decoded, Phase, State, MAX_MESSAGE_LENGTH,
};
use crate::frame::{frame_bytes, length_high, length_low, FrameView};
use crate::parser_ubx::{
    crc_error_packet, lemma_frame_round_trip, parser_run, passes, ParserView, CRC_ERROR_CLS,
    CRC_ERROR_ID,
};

verus! {

broadcast use {vstd::std_specs::hash::group_hash_axioms, lemma_cid_new};

/// A frame that the parser hands over: identifier and payload.
#[derive(Debug)]
pub struct Packet {
    pub cid: UbxCID,
    pub data: Vec<u8>,
}

impl View for Packet {
    type V = FrameView;

    open spec fn view(&self) -> FrameView {
        FrameView { cid: self.cid, data: self.data@ }
    }
}

/// What the parser is, seen from outside.
pub struct PacketView {
    /// Where it stands in the frame it is reading.
    pub phase: Phase,
    /// The identifiers of interest.
    pub filter: Set<UbxCID>,
    /// The packets that wait to be taken, oldest first.
    pub queue: Seq<FrameView>,
}

/// The parser after one byte.
pub open spec fn packet_step(v: PacketView, byte: u8) -> PacketView {
    let (phase, decoded) = phase_step(v.phase, byte);
    match decoded {
        None => PacketView { phase, ..v },
        Some(Decoded::Frame { cid, payload }) => PacketView {
            phase,
            queue: if passes(v.filter, cid) {
                v.queue.push(FrameView { cid, data: payload })
            } else {
                v.queue
            },
            ..v
        },
        Some(Decoded::ChecksumError) => PacketView {
            phase,
            queue: v.queue.push(crc_error_packet()),
            ..v
        },
    }
}

/// The parser after a sequence of bytes, taken in order.
pub open spec fn packet_run(v: PacketView, bytes: Seq<u8>) -> PacketView
    decreases bytes.len(),
{
    if bytes.len() == 0 {
        v
    } else {
        packet_step(packet_run(v, bytes.drop_last()), bytes.last())
    }
}

/// The view of a `ParserUbx` that reads, filters and queues as this parser
/// does and has counted `frames` frames.
pub open spec fn with_count(v: PacketView, frames: nat) -> ParserView {
    ParserView { phase: v.phase, filter: v.filter, queue: v.queue, frames }
}

/// The view of a `ParserUbx` without its count of frames.
pub open spec fn without_count(v: ParserView) -> PacketView {
    PacketView { phase: v.phase, filter: v.filter, queue: v.queue }
}

/// This parser does with a byte stream what a `ParserUbx` does with it, but
/// for the counting.
pub proof fn lemma_packet_run_as_parser_run(v: PacketView, frames: nat, bytes: Seq<u8>)
    ensures
        packet_run(v, bytes) == without_count(parser_run(with_count(v, frames), bytes)),
    decreases bytes.len(),
{
    if bytes.len() > 0 {
        lemma_packet_run_as_parser_run(v, frames, bytes.drop_last());
    }
}

/// Round trip: the bytes of a frame, fed to a parser that waited for the
/// start of a frame, give exactly that frame where the filter is empty or
/// holds its identifier, and nothing otherwise.
pub proof fn lemma_packet_round_trip(v: PacketView, cid: UbxCID, payload: Seq<u8>)
    requires
        v.phase == Phase::Init,
        payload.len() <= MAX_MESSAGE_LENGTH,
    ensures
        packet_run(v, frame_bytes(cid, payload)) == (PacketView {
            phase: Phase::Init,
            queue: if passes(v.filter, cid) {
                v.queue.push(FrameView { cid, data: payload })
            } else {
                v.queue
            },
            ..v
        }),
{
    lemma_packet_run_as_parser_run(v, 0, frame_bytes(cid, payload));
    lemma_frame_round_trip(with_count(v, 0), cid, payload);
}

pub struct Parser {
    rx_queue: VecDeque<Packet>,
    wait_cids: HashSet<u16>,
    checksum: Checksum,
    state: State,
    msg_class: u8,
    msg_id: u8,
    msg_len: usize,
    msg_data: Vec<u8>,
    cka: u8,
    ckb: u8,
    ofs: usize,
}

impl View for Parser {
    type V = PacketView;

    closed spec fn view(&self) -> PacketView {
        PacketView {
            phase: phase_of(
                self.state,
                self.msg_class,
                self.msg_id,
                self.msg_len,
                self.msg_data@,
                self.cka,
            ),
            filter: Set::new(|cid: UbxCID| self.wait_cids@.contains(cid.key())),
            queue: self.rx_queue@.map_values(|packet: Packet| packet@),
        }
    }
}

impl Parser {
    /// The bytes of the current frame that the running checksum has covered.
    closed spec fn covered(&self) -> Seq<u8> {
        covered_of(self.state, self.msg_class, self.msg_id, self.msg_len, self.msg_data@)
    }

    /// Well-formedness: the fields agree with each other. Every parser that
    /// `new` returns is well formed, and every method keeps it so.
    pub closed spec fn wf(&self) -> bool {
        fields_wf(
            self.state,
            self.checksum@,
            self.msg_class,
            self.msg_id,
            self.msg_len,
            self.msg_data@,
            self.ofs,
        )
    }

    /// Length bound: a well-formed parser never holds more than
    /// `MAX_MESSAGE_LENGTH` bytes of a payload, and never reads a payload that
    /// was declared longer.
    pub proof fn lemma_length_bound(&self)
        requires
            self.wf(),
        ensures
            phase_in_bounds(self@.phase),
    {
    }

    /// A parser that waits for the start of a frame, with an empty filter and
    /// an empty queue.
    pub fn new() -> (parser: Self)
        ensures
            parser.wf(),
            parser@ == (PacketView {
                phase: Phase::Init,
                filter: Set::empty(),
                queue: Seq::empty(),
            }),
    {
        let mut obj = Self {
            rx_queue: VecDeque::with_capacity(10),
            wait_cids: HashSet::<u16>::new(),
            checksum: Checksum::new(),
            state: State::Init,
            msg_class: 0,
            msg_id: 0,
            msg_len: 0,
            msg_data: Vec::with_capacity(1024),
            cka: 0,
            ckb: 0,
            ofs: 0,
        };
        obj._reset();
        proof {
            assert(obj@.filter =~= Set::<UbxCID>::empty());
            assert(obj@.queue =~= Seq::<FrameView>::empty());
        }
        obj
    }

    /// Empties the filter: every frame passes until an identifier is added.
    pub fn clear_filter(&mut self)
        requires
            old(self).wf(),
        ensures
            final(self).wf(),
            final(self)@ == (PacketView { filter: Set::empty(), ..old(self)@ }),
    {
        self.wait_cids.clear();
        proof {
            assert(self@.filter =~= Set::<UbxCID>::empty());
        }
    }

    /// Adds `cid` to the identifiers of interest.
    pub fn add_filter(&mut self, cid: UbxCID)
        requires
            old(self).wf(),
        ensures
            final(self).wf(),
            final(self)@ == (PacketView { filter: old(self)@.filter.insert(cid), ..old(self)@ }),
    {
        self.wait_cids.insert(cid.key());
        proof {
            assert forall|other: UbxCID| #[trigger]
                self@.filter.contains(other) <==> old(self)@.filter.insert(cid).contains(
                    other,
                ) by {
                lemma_cid_equality(other, cid);
            }
            assert(self@.filter =~= old(self)@.filter.insert(cid));
        }
    }

    /// Drops every packet that waits in the queue.
    pub fn empty_queue(&mut self)
        requires
            old(self).wf(),
        ensures
            final(self).wf(),
            final(self)@ == (PacketView { queue: Seq::empty(), ..old(self)@ }),
    {
        self.rx_queue.clear();
        proof {
            assert(self@.queue =~= Seq::<FrameView>::empty());
        }
    }

    /// Takes the oldest packet out of the queue, if there is one.
    pub fn packet(&mut self) -> (taken: Option<Packet>)
        requires
            old(self).wf(),
        ensures
            final(self).wf(),
            match taken {
                Some(packet) => {
                    &&& old(self)@.queue.len() > 0
                    &&& packet@ == old(self)@.queue[0]
                    &&& final(self)@ == (PacketView {
                        queue: old(self)@.queue.skip(1),
                        ..old(self)@
                    })
                },
                None => {
                    &&& old(self)@.queue.len() == 0
                    &&& final(self)@ == old(self)@
                },
            },
    {
        let taken = self.rx_queue.pop_front();
        proof {
            if taken is Some {
                assert(self@.queue =~= old(self)@.queue.skip(1));
            }
        }
        taken
    }

    /// Feeds the bytes of `data` to the parser, one after the other.
    pub fn process(&mut self, data: &Vec<u8>)
        requires
            old(self).wf(),
        ensures
            final(self).wf(),
            final(self)@ == packet_run(old(self)@, data@),
    {
        let mut i: usize = 0;
        while i < data.len()
            invariant
                i <= data.len(),
                self.wf(),
                self@ == packet_run(old(self)@, data@.take(i as int)),
            decreases data.len() - i,
        {
            proof {
                assert(data@.take(i + 1).drop_last() =~= data@.take(i as int));
            }
            self.process_byte(data[i]);
            i += 1;
        }
        proof {
            assert(data@.take(data.len() as int) =~= data@);
        }
    }

    /// Feeds one byte to the parser.
    pub fn process_byte(&mut self, data: u8)
        requires
            old(self).wf(),
        ensures
            final(self).wf(),
            final(self)@ == packet_step(old(self)@, data),
    {
        match self.state {
            State::Init => self.state_init(data),
            State::Sync1 => self.state_sync(data),
            State::Class => self.state_class(data),
            State::ID => self.state_id(data),
            State::Len1 => self.state_len1(data),
            State::Len2 => self.state_len2(data),
            State::Data => self.state_data(data),
            State::CRC1 => self.state_crc1(data),
            State::CRC2 => self.state_crc2(data),
        }
    }

    fn state_init(&mut self, data: u8)
        requires
            old(self).wf(),
            old(self).state is Init,
        ensures
            final(self).wf(),
            final(self)@ == packet_step(old(self)@, data),
    {
        if data == 0xB5 {
            self.state = State::Sync1;
        }
    }

    fn state_sync(&mut self, data: u8)
        requires
            old(self).wf(),
            old(self).state is Sync1,
        ensures
            final(self).wf(),
            final(self)@ == packet_step(old(self)@, data),
    {
        if data == 0x62 {
            self._reset();
            self.state = State::Class;
        } else {
            self.state = State::Init;
        }
    }

    fn state_class(&mut self, data: u8)
        requires
            old(self).wf(),
            old(self).state is Class,
        ensures
            final(self).wf(),
            final(self)@ == packet_step(old(self)@, data),
    {
        self.msg_class = data;
        self.checksum.add(data);
        self.state = State::ID;
        proof {
            lemma_checksum_push((0u8, 0u8), Seq::<u8>::empty(), data);
            assert(Seq::<u8>::empty().push(data) =~= seq![data]);
        }
    }

    fn state_id(&mut self, data: u8)
        requires
            old(self).wf(),
            old(self).state is ID,
        ensures
            final(self).wf(),
            final(self)@ == packet_step(old(self)@, data),
    {
        self.msg_id = data;
        self.checksum.add(data);
        self.state = State::Len1;
        proof {
            lemma_checksum_push((0u8, 0u8), seq![self.msg_class], data);
            assert(seq![self.msg_class].push(data) =~= seq![self.msg_class, data]);
        }
    }

    fn state_len1(&mut self, data: u8)
        requires
            old(self).wf(),
            old(self).state is Len1,
        ensures
            final(self).wf(),
            final(self)@ == packet_step(old(self)@, data),
    {
        self.msg_len = data as usize;
        self.checksum.add(data);
        self.state = State::Len2;
        proof {
            lemma_checksum_push((0u8, 0u8), seq![self.msg_class, self.msg_id], data);
            assert(seq![self.msg_class, self.msg_id].push(data) =~= seq![
                self.msg_class,
                self.msg_id,
                data,
            ]);
        }
    }

    fn state_len2(&mut self, data: u8)
        requires
            old(self).wf(),
            old(self).state is Len2,
        ensures
            final(self).wf(),
            final(self)@ == packet_step(old(self)@, data),
    {
        let ghost low = self.msg_len as u8;
        proof {
            lemma_declared_length(low, data);
            lemma_checksum_push((0u8, 0u8), seq![self.msg_class, self.msg_id, low], data);
            assert(seq![self.msg_class, self.msg_id, low].push(data) =~= seq![
                self.msg_class,
                self.msg_id,
                low,
                data,
            ] + self.msg_data@);
            assert(self.msg_data@ =~= Seq::<u8>::empty());
        }
        self.msg_len = self.msg_len + (data as usize * 256);
        self.checksum.add(data);
        assert(self.msg_len == declared_length(low, data));

        if self.msg_len == 0 {
            self.state = State::CRC1;
        } else if self.msg_len > MAX_MESSAGE_LENGTH {
            self.state = State::Init;
        } else {
            self.ofs = 0;
            self.state = State::Data;
        }
    }

    fn state_data(&mut self, data: u8)
        requires
            old(self).wf(),
            old(self).state is Data,
        ensures
            final(self).wf(),
            final(self)@ == packet_step(old(self)@, data),
    {
        proof {
            lemma_checksum_push((0u8, 0u8), self.covered(), data);
            let header = seq![
                self.msg_class,
                self.msg_id,
                length_low(self.msg_len as nat),
                length_high(self.msg_len as nat),
            ];
            assert((header + self.msg_data@).push(data) =~= header + self.msg_data@.push(data));
        }
        self.msg_data.push(data);
        self.checksum.add(data);
        self.ofs += 1;

        if self.ofs == self.msg_len {
            self.state = State::CRC1;
        }
    }

    fn state_crc1(&mut self, data: u8)
        requires
            old(self).wf(),
            old(self).state is CRC1,
        ensures
            final(self).wf(),
            final(self)@ == packet_step(old(self)@, data),
    {
        self.cka = data;
        self.state = State::CRC2;
    }

    fn state_crc2(&mut self, data: u8)
        requires
            old(self).wf(),
            old(self).state is CRC2,
        ensures
            final(self).wf(),
            final(self)@ == packet_step(old(self)@, data),
    {
        self.ckb = data;

        // if checksum matches received checksum ..
        if self.checksum.matches(self.cka, self.ckb) {
            // .. and frame passes filter ..
            let cid = UbxCID::new(self.msg_class, self.msg_id);
            proof {
                assert(old(self)@.filter.is_empty() <==> self.wait_cids@.is_empty()) by {
                    if !self.wait_cids@.is_empty() {
                        let key = choose|key: u16| self.wait_cids@.contains(key);
                        let other = UbxCID::new((key / 256) as u8, (key % 256) as u8);
                        assert(other.key() == key);
                        assert(old(self)@.filter.contains(other));
                    }
                }
            }
            if self.wait_cids.is_empty() || self.wait_cids.contains(&cid.key()) {
                // .. hand identifier and payload over, by value
                let packet = Packet { cid: cid, data: self.msg_data.clone() };
                proof {
                    assert(packet.data@ =~= self.msg_data@);
                    assert(old(self).rx_queue@.push(packet).map_values(|packet: Packet| packet@)
                        =~= old(self)@.queue.push(packet@));
                }
                self.rx_queue.push_back(packet);
            }
        } else {
            let crc_cid = UbxCID::new(CRC_ERROR_CLS, CRC_ERROR_ID);
            let crc_error_message = Packet { cid: crc_cid, data: Vec::new() };
            proof {
                assert(crc_error_message@ == crc_error_packet());
                assert(old(self).rx_queue@.push(crc_error_message).map_values(
                    |packet: Packet| packet@,
                ) =~= old(self)@.queue.push(crc_error_message@));
            }
            self.rx_queue.push_back(crc_error_message);
        }

        self.state = State::Init;
    }

    fn _reset(&mut self)
        ensures
            final(self).msg_class == 0,
            final(self).msg_id == 0,
            final(self).msg_len == 0,
            final(self).msg_data@ == Seq::<u8>::empty(),
            final(self).cka == 0,
            final(self).ckb == 0,
            final(self).ofs == 0,
            final(self).checksum@ == checksum_of(Seq::empty()),
            final(self).rx_queue == old(self).rx_queue,
            final(self).wait_cids == old(self).wait_cids,
            final(self).state == old(self).state,
    {
        self.msg_class = 0;
        self.msg_id = 0;
        self.msg_len = 0;
        self.msg_data.clear();
        self.cka = 0;
        self.ckb = 0;
        self.ofs = 0;
        self.checksum.reset();
    }
}

} // verus!
