//! Parser that counts NMEA sentences in an arbitrary byte stream.
//!
//! A sentence starts with `$`, ends its text with `*` and carries the XOR of
//! the text bytes as two hexadecimal digits, for example
//! `$GNRMC,155215.00,A,4719.13883,N,00758.44996,E,0.259,,171020,2.47,E,A*3E`.

use vstd::prelude::*;

verus! {

/// The byte that starts a sentence.
pub const NMEA_START: u8 = 0x24;

/// The byte that ends the text of a sentence.
pub const NMEA_STAR: u8 = 0x2A;

/// The byte that ends a line.
pub const NMEA_NEWLINE: u8 = 0x0A;

/// The state of the parser, as what it waits for.
#[derive(Debug)]
pub enum NmeaState {
    WaitSync,
    Data,
    ChkSum1,
    ChkSum2,
    LineEnd,
}

/// The XOR of all bytes of `text`.
pub open spec fn xor_of(text: Seq<u8>) -> u8
    decreases text.len(),
{
    if text.len() == 0 {
        0
    } else {
        xor_of(text.drop_last()) ^ text.last()
    }
}

/// The value of a hexadecimal digit, and zero for any other byte.
pub open spec fn hex_value(digit: u8) -> u8 {
    if 0x30 <= digit <= 0x39 {
        (digit - 0x30) as u8
    } else if 0x61 <= digit <= 0x66 {
        (digit - 0x61 + 10) as u8
    } else if 0x41 <= digit <= 0x46 {
        (digit - 0x41 + 10) as u8
    } else {
        0
    }
}

/// The frame counter after one more sentence. It stops at the largest value
/// that it can hold.
pub open spec fn count_sentence(frames: nat) -> nat {
    if frames < usize::MAX {
        frames + 1
    } else {
        frames
    }
}

/// What the parser is, seen from outside.
pub struct NmeaView {
    /// What it waits for.
    pub state: NmeaState,
    /// The text of the sentence read since the last `$`.
    pub text: Seq<u8>,
    /// The checksum as far as it was received.
    pub received: u8,
    /// How many sentences with a matching checksum it has seen.
    pub frames: nat,
}

/// The parser after one byte.
pub open spec fn nmea_step(v: NmeaView, byte: u8) -> NmeaView {
    if byte == NMEA_START {
        NmeaView { state: NmeaState::Data, text: Seq::empty(), received: 0, ..v }
    } else {
        match v.state {
            NmeaState::WaitSync => v,
            NmeaState::Data => if byte == NMEA_STAR {
                NmeaView { state: NmeaState::ChkSum1, ..v }
            } else {
                NmeaView { text: v.text.push(byte), ..v }
            },
            NmeaState::ChkSum1 => NmeaView {
                state: NmeaState::ChkSum2,
                received: (16 * hex_value(byte)) as u8,
                ..v
            },
            NmeaState::ChkSum2 => {
                let received = v.received | hex_value(byte);
                NmeaView {
                    state: NmeaState::LineEnd,
                    received,
                    frames: if received == xor_of(v.text) {
                        count_sentence(v.frames)
                    } else {
                        v.frames
                    },
                    ..v
                }
            },
            NmeaState::LineEnd => if byte == NMEA_NEWLINE {
                NmeaView { state: NmeaState::WaitSync, ..v }
            } else {
                v
            },
        }
    }
}

/// The parser after a sequence of bytes, taken in order.
pub open spec fn nmea_run(v: NmeaView, bytes: Seq<u8>) -> NmeaView
    decreases bytes.len(),
{
    if bytes.len() == 0 {
        v
    } else {
        nmea_step(nmea_run(v, bytes.drop_last()), bytes.last())
    }
}

pub struct ParserNmea {
    frames_rx: usize,
    state: NmeaState,
    msg_data: Vec<u8>,
    checksum: u8,
    checksum_data: u8,
}

impl View for ParserNmea {
    type V = NmeaView;

    closed spec fn view(&self) -> NmeaView {
        NmeaView {
            state: self.state,
            text: self.msg_data@,
            received: self.checksum,
            frames: self.frames_rx as nat,
        }
    }
}

impl ParserNmea {
    /// Well-formedness: the running checksum is the XOR of the text held.
    /// Every parser that `new` returns is well formed, and every method keeps
    /// it so.
    pub closed spec fn wf(&self) -> bool {
        self.checksum_data == xor_of(self.msg_data@)
    }

    /// A parser that waits for the start of a sentence and has counted none.
    pub fn new() -> (parser: Self)
        ensures
            parser.wf(),
            parser@ == (NmeaView {
                state: NmeaState::WaitSync,
                text: Seq::empty(),
                received: 0,
                frames: 0,
            }),
    {
        let mut obj = Self {
            frames_rx: 0,
            state: NmeaState::WaitSync,
            msg_data: Vec::with_capacity(1024),
            checksum: 0,
            checksum_data: 0,
        };
        obj._reset();
        obj
    }

    /// The number of sentences with a matching checksum seen so far.
    pub fn frames_received(&self) -> (frames: usize)
        ensures
            frames == self@.frames,
    {
        self.frames_rx
    }

    /// Feeds the bytes of `data` to the parser, one after the other.
    pub fn process(&mut self, data: &[u8])
        requires
            old(self).wf(),
        ensures
            final(self).wf(),
            final(self)@ == nmea_run(old(self)@, data@),
    {
        let mut i: usize = 0;
        while i < data.len()
            invariant
                i <= data.len(),
                self.wf(),
                self@ == nmea_run(old(self)@, data@.take(i as int)),
            decreases data.len() - i,
        {
            proof {
                assert(data@.take(i + 1).drop_last() =~= data@.take(i as int));
            }
            self.process_byte(data[i]);
            i += 1;
        }
        proof {
            assert(data@.take(data.len() as int) =~= data@);
        }
    }

    /// Feeds one byte to the parser.
    pub fn process_byte(&mut self, data: u8)
        requires
            old(self).wf(),
        ensures
            final(self).wf(),
            final(self)@ == nmea_step(old(self)@, data),
    {
        // global state change when sync character is seen
        if data == NMEA_START {
            self._reset();
            self.state = NmeaState::Data;
        } else {
            match self.state {
                NmeaState::WaitSync => self.state_wait_sync(data),
                NmeaState::Data => self.state_data(data),
                NmeaState::ChkSum1 => self.state_chksum1(data),
                NmeaState::ChkSum2 => self.state_chksum2(data),
                NmeaState::LineEnd => self.state_lineend(data),
            }
        }
    }

    fn state_wait_sync(&mut self, data: u8)
        requires
            old(self).wf(),
            old(self).state is WaitSync,
        ensures
            final(self).wf(),
            final(self)@ == nmea_step(old(self)@, data),
    {
        if data == NMEA_START {
            self._reset();
            self.state = NmeaState::Data;
        }
    }

    fn state_data(&mut self, data: u8)
        requires
            old(self).wf(),
            old(self).state is Data,
            data != NMEA_START,
        ensures
            final(self).wf(),
            final(self)@ == nmea_step(old(self)@, data),
    {
        if data == NMEA_STAR {
            self.state = NmeaState::ChkSum1;
        } else {
            proof {
                assert(self.msg_data@.push(data).drop_last() =~= self.msg_data@);
            }
            self.msg_data.push(data);
            self.checksum_data ^= data;
        }
    }

    fn state_chksum1(&mut self, data: u8)
        requires
            old(self).wf(),
            old(self).state is ChkSum1,
            data != NMEA_START,
        ensures
            final(self).wf(),
            final(self)@ == nmea_step(old(self)@, data),
    {
        let high = Self::_to_bin(data);
        proof {
            assert(high < 16 ==> high << 4 == 16 * high) by (bit_vector);
        }
        self.checksum = high << 4;
        self.state = NmeaState::ChkSum2;
    }

    fn state_chksum2(&mut self, data: u8)
        requires
            old(self).wf(),
            old(self).state is ChkSum2,
            data != NMEA_START,
        ensures
            final(self).wf(),
            final(self)@ == nmea_step(old(self)@, data),
    {
        self.checksum |= Self::_to_bin(data);

        if self.checksum == self.checksum_data {
            if self.frames_rx < usize::MAX {
                self.frames_rx += 1;
            }
        }

        self.state = NmeaState::LineEnd;
    }

    fn state_lineend(&mut self, data: u8)
        requires
            old(self).wf(),
            old(self).state is LineEnd,
            data != NMEA_START,
        ensures
            final(self).wf(),
            final(self)@ == nmea_step(old(self)@, data),
    {
        if data == NMEA_NEWLINE {
            self.state = NmeaState::WaitSync;
        }
    }

    fn _reset(&mut self)
        ensures
            final(self).wf(),
            final(self).msg_data@ == Seq::<u8>::empty(),
            final(self).checksum == 0,
            final(self).frames_rx == old(self).frames_rx,
            final(self).state == old(self).state,
    {
        self.msg_data.clear();
        self.checksum = 0;
        self.checksum_data = 0;
    }

    /// The value of a hexadecimal digit; any other byte counts as zero.
    pub fn _to_bin(data: u8) -> (value: u8)
        ensures
            value == hex_value(data),
            value < 16,
    {
        if 0x30 <= data && data <= 0x39 {
            data - 0x30
        } else if 0x61 <= data && data <= 0x66 {
            data - 0x61 + 10
        } else if 0x41 <= data && data <= 0x46 {
            data - 0x41 + 10
        } else {
            0
        }
    }
}

} // verus!
