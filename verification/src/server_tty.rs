//! The transport: request and response over a serial channel.
//!
//! The channel itself is not held here. A `ServerTty` decides what is to be
//! done with it next, as an `Action`, and is told what came of it, as an
//! `Event`. Whoever holds the channel carries the actions out:
//!
//! - `Send`: write the bytes, restart the stopwatch, report how many bytes
//!   were written;
//! - `Clock`: report the milliseconds on the stopwatch;
//! - `Receive`: read what the channel holds within a short time and report
//!   it, or no bytes;
//! - `Deliver`, `Finish`: the operation has ended.
//!
//! The stopwatch is also restarted when `scan` is called. An event that does
//! not answer the action that is pending changes nothing: the pending action
//! is returned again.

use vstd::prelude::*;

use crate::cid::{lemma_cid_new, UbxCID};
use crate::decoder::Phase;
use crate::error::Error;
use crate::frame::{
    frame_bytes, FrameView, UbxFrame, UbxFrameDeSerialize, UbxFrameInfo, UbxFrameSerialize,
};
use crate::parser_ubx::{crc_error_cid, parser_run, ParserUbx, ParserView};
use crate::ubx_ack::{UbxAck, CLS_ACK, ID_ACK, ID_NAK};
use crate::wire::put_bytes;

verus! {

broadcast use lemma_cid_new;

/// Number of times a request is sent before the modem counts as silent,
/// unless `set_retries` says otherwise.
pub const DEFAULT_MAX_RETRIES: usize = 5;

/// Milliseconds to wait for the answer to one sending of a request, unless
/// `set_retry_delay` says otherwise.
pub const DEFAULT_RETRY_DELAY_MS: u128 = 3000;

/// Milliseconds that a scan listens.
pub const SCAN_WINDOW_MS: u128 = 2000;

/// A scan succeeds when it has seen more than this many UBX frames.
pub const SCAN_UBX_FRAMES: usize = 2;

/// A scan succeeds when it has seen at least this many NMEA markers.
pub const SCAN_NMEA_MARKERS: usize = 2;

/// Length of the NMEA marker.
pub const MARKER_LEN: usize = 5;

/// The NMEA marker that a scan counts: the talker and sentence id `GPGSV`.
pub open spec fn marker() -> Seq<u8> {
    seq![0x47u8, 0x50u8, 0x47u8, 0x53u8, 0x56u8]
}

/// The number of places in `bytes` at which the marker stands. The marker
/// cannot overlap itself, so these are also its occurrences one after the
/// other.
pub open spec fn marker_count(bytes: Seq<u8>) -> nat
    decreases bytes.len(),
{
    if bytes.len() < MARKER_LEN {
        0
    } else {
        let before = marker_count(bytes.drop_last());
        if bytes.subrange(bytes.len() - MARKER_LEN, bytes.len() as int) == marker() {
            before + 1
        } else {
            before
        }
    }
}

/// Counts the places in `bytes` at which the marker stands.
pub fn count_markers(bytes: &[u8]) -> (count: usize)
    ensures
        count == marker_count(bytes@),
{
    let mut count: usize = 0;
    let mut end: usize = 0;
    while end < bytes.len()
        invariant
            end <= bytes.len(),
            count <= end,
            count == marker_count(bytes@.take(end as int)),
        decreases bytes.len() - end,
    {
        end += 1;
        proof {
            assert(bytes@.take(end as int).drop_last() =~= bytes@.take(end - 1));
        }
        if end >= MARKER_LEN {
            let at = end - MARKER_LEN;
            let found = bytes[at] == 0x47 && bytes[at + 1] == 0x50 && bytes[at + 2] == 0x47
                && bytes[at + 3] == 0x53 && bytes[at + 4] == 0x56;
            proof {
                let prefix = bytes@.take(end as int);
                let tail = prefix.subrange(prefix.len() - MARKER_LEN, prefix.len() as int);
                assert(tail.len() == 5);
                assert(tail[0] == bytes@[at as int]);
                assert(tail[1] == bytes@[at + 1]);
                assert(tail[2] == bytes@[at + 2]);
                assert(tail[3] == bytes@[at + 3]);
                assert(tail[4] == bytes@[at + 4]);
                assert(found <==> tail =~= marker());
            }
            if found {
                count += 1;
            }
        }
    }
    proof {
        assert(bytes@.take(bytes.len() as int) =~= bytes@);
    }
    count
}

/// What a transport is busy with.
#[derive(Debug, Clone, Copy, PartialEq, Eq, Structural)]
pub enum Operation {
    /// A request that is answered by a frame of the same identifier.
    PollRequest,
    /// A request that is answered by an acknowledgement.
    SetRequest,
    /// A request that is not answered.
    FireAndForget,
    /// Listening for signs of life.
    Scan,
}

/// Which action of an operation is pending.
#[derive(Debug, Clone, Copy, PartialEq, Eq, Structural)]
pub enum Stage {
    /// The operation has ended.
    Finished,
    /// The request is to be written.
    Sending,
    /// The stopwatch is to be read.
    Timing,
    /// The channel is to be read.
    Reading,
}

/// What is to be done with the channel next.
#[derive(Debug)]
pub enum Action {
    /// Write these bytes, restart the stopwatch and report how many bytes
    /// were written.
    Send(Vec<u8>),
    /// Report the milliseconds on the stopwatch.
    Clock,
    /// Read the channel and report the bytes that came.
    Receive,
    /// The poll has ended well: this is the answer.
    Deliver(UbxFrame),
    /// The operation has ended, well or with an error.
    Finish(Result<(), Error>),
}

/// An action, for contracts.
pub enum ActionView {
    Send(Seq<u8>),
    Clock,
    Receive,
    Deliver(FrameView),
    Finish(Result<(), Error>),
}

impl View for Action {
    type V = ActionView;

    open spec fn view(&self) -> ActionView {
        match self {
            Action::Send(bytes) => ActionView::Send(bytes@),
            Action::Clock => ActionView::Clock,
            Action::Receive => ActionView::Receive,
            Action::Deliver(frame) => ActionView::Deliver(frame@),
            Action::Finish(result) => ActionView::Finish(*result),
        }
    }
}

/// What came of an action.
#[derive(Debug)]
pub enum Event {
    /// The number of bytes that were written, or `None` where writing failed.
    Written(Option<usize>),
    /// The milliseconds on the stopwatch.
    Elapsed(u128),
    /// The bytes that were read; none where nothing came or reading failed.
    Received(Vec<u8>),
}

/// An event, for contracts.
pub enum EventView {
    Written(Option<usize>),
    Elapsed(u128),
    Received(Seq<u8>),
}

impl View for Event {
    type V = EventView;

    open spec fn view(&self) -> EventView {
        match self {
            Event::Written(written) => EventView::Written(*written),
            Event::Elapsed(ms) => EventView::Elapsed(*ms),
            Event::Received(data) => EventView::Received(data@),
        }
    }
}

/// What a transport is, seen from outside.
pub struct ServerView {
    /// The parser that reads what the channel brings.
    pub parser: ParserView,
    /// How often a request is sent at most.
    pub max_retries: nat,
    /// Milliseconds to wait after each sending.
    pub retry_delay: nat,
    /// What the transport is busy with, or was busy with last.
    pub operation: Operation,
    /// Which action is pending.
    pub stage: Stage,
    /// How the last operation ended.
    pub outcome: Result<(), Error>,
    /// The identifier of the request.
    pub request_cid: UbxCID,
    /// The bytes of the request.
    pub request: Seq<u8>,
    /// How often the request was sent so far.
    pub attempts: nat,
    /// The frame counter of the parser when the scan began.
    pub scan_base: nat,
    /// The bytes that the scan has read.
    pub scanned: Seq<u8>,
}

/// The identifier of a positive acknowledgement.
pub open spec fn cid_ack() -> UbxCID {
    UbxCID::new(CLS_ACK, ID_ACK)
}

/// The identifier of a negative acknowledgement.
pub open spec fn cid_nak() -> UbxCID {
    UbxCID::new(CLS_ACK, ID_NAK)
}

/// The action that a transport waits to hear of.
pub open spec fn pending_action(s: ServerView) -> ActionView {
    match s.stage {
        Stage::Finished => ActionView::Finish(s.outcome),
        Stage::Sending => ActionView::Send(s.request),
        Stage::Timing => ActionView::Clock,
        Stage::Reading => ActionView::Receive,
    }
}

/// The end of an operation.
pub open spec fn finish(s: ServerView, outcome: Result<(), Error>) -> (ServerView, ActionView) {
    (ServerView { stage: Stage::Finished, outcome, ..s }, ActionView::Finish(outcome))
}

/// The stopwatch is to be read next.
pub open spec fn keep_waiting(s: ServerView) -> (ServerView, ActionView) {
    (ServerView { stage: Stage::Timing, ..s }, ActionView::Clock)
}

/// The start of one more attempt: while attempts are left, the queue is
/// emptied and the request is sent; when none is left, the modem counts as
/// silent.
pub open spec fn begin_attempt(s: ServerView) -> (ServerView, ActionView) {
    if s.attempts < s.max_retries {
        (
            ServerView {
                parser: ParserView { queue: Seq::empty(), ..s.parser },
                attempts: s.attempts + 1,
                stage: Stage::Sending,
                ..s
            },
            ActionView::Send(s.request),
        )
    } else {
        finish(s, Err(Error::ModemNotResponding))
    }
}

/// The start of a poll or a set request.
pub open spec fn start_request(
    s: ServerView,
    operation: Operation,
    filter: Set<UbxCID>,
    cid: UbxCID,
    request: Seq<u8>,
) -> (ServerView, ActionView) {
    begin_attempt(
        ServerView {
            parser: ParserView { filter, ..s.parser },
            operation,
            request_cid: cid,
            request,
            attempts: 0,
            ..s
        },
    )
}

/// The start of a request that is not answered.
pub open spec fn start_fire(s: ServerView, request: Seq<u8>) -> (ServerView, ActionView) {
    (
        ServerView {
            operation: Operation::FireAndForget,
            stage: Stage::Sending,
            request,
            attempts: 1,
            ..s
        },
        ActionView::Send(request),
    )
}

/// The start of a scan.
pub open spec fn start_scan(s: ServerView) -> (ServerView, ActionView) {
    (
        ServerView {
            parser: ParserView { phase: Phase::Init, ..s.parser },
            operation: Operation::Scan,
            stage: Stage::Timing,
            scan_base: s.parser.frames,
            scanned: Seq::empty(),
            ..s
        },
        ActionView::Clock,
    )
}

/// Whether a write has sent the whole request.
pub open spec fn sent_all(written: Option<usize>, request: Seq<u8>) -> bool {
    written is Some && written->0 == request.len()
}

/// The oldest packet of a parser, if it has one, and the parser without it.
pub open spec fn take_packet(v: ParserView) -> (Option<FrameView>, ParserView) {
    if v.queue.len() > 0 {
        (Some(v.queue[0]), ParserView { queue: v.queue.skip(1), ..v })
    } else {
        (None, v)
    }
}

/// What an acknowledgement says of the request with identifier `set_cid`:
/// `Ok` where it is positive and names the request, `ModemNAK` where it is
/// negative and names the request, `ModemUnexpectedAckNak` where it names
/// another request or is no acknowledgement at all.
pub open spec fn ack_verdict(packet: FrameView, set_cid: UbxCID) -> Result<(), Error> {
    if (packet.cid == cid_ack() || packet.cid == cid_nak()) && packet.data.len() >= 2
        && UbxCID::new(packet.data[0], packet.data[1]) == set_cid {
        if packet.cid == cid_ack() {
            Ok(())
        } else {
            Err(Error::ModemNAK)
        }
    } else {
        Err(Error::ModemUnexpectedAckNak)
    }
}

/// The milliseconds that the operation in progress waits.
pub open spec fn window(s: ServerView) -> nat {
    if s.operation == Operation::Scan {
        SCAN_WINDOW_MS as nat
    } else {
        s.retry_delay
    }
}

/// What bytes from the channel do to an operation that waits for them.
pub open spec fn hear(s: ServerView, data: Seq<u8>) -> (ServerView, ActionView) {
    let fed = parser_run(s.parser, data);
    let (packet, parser) = take_packet(fed);
    let heard = ServerView { parser, ..s };
    match s.operation {
        Operation::Scan => {
            let scanned = s.scanned + data;
            let seen = ServerView { scanned, ..heard };
            if fed.frames - s.scan_base > SCAN_UBX_FRAMES {
                finish(seen, Ok(()))
            } else if marker_count(scanned) >= SCAN_NMEA_MARKERS {
                finish(seen, Ok(()))
            } else {
                keep_waiting(seen)
            }
        },
        Operation::PollRequest => match packet {
            Some(frame) => if frame.cid != crc_error_cid() && frame.cid == s.request_cid {
                (
                    ServerView { stage: Stage::Finished, outcome: Ok(()), ..heard },
                    ActionView::Deliver(frame),
                )
            } else {
                keep_waiting(heard)
            },
            None => keep_waiting(heard),
        },
        Operation::SetRequest => match packet {
            Some(frame) => if frame.cid != crc_error_cid() {
                match ack_verdict(frame, s.request_cid) {
                    Ok(_) => finish(heard, Ok(())),
                    Err(Error::ModemNAK) => finish(heard, Err(Error::ModemNAK)),
                    Err(_) => keep_waiting(heard),
                }
            } else {
                keep_waiting(heard)
            },
            None => keep_waiting(heard),
        },
        Operation::FireAndForget => keep_waiting(heard),
    }
}

/// The transport after an event, and the action that it asks for.
pub open spec fn server_step(s: ServerView, event: EventView) -> (ServerView, ActionView) {
    match (s.stage, event) {
        (Stage::Sending, EventView::Written(written)) => {
            if !sent_all(written, s.request) {
                finish(s, Err(Error::SerialPortSendFailed))
            } else if s.operation == Operation::FireAndForget {
                finish(s, Ok(()))
            } else {
                keep_waiting(
                    ServerView { parser: ParserView { phase: Phase::Init, ..s.parser }, ..s },
                )
            }
        },
        (Stage::Timing, EventView::Elapsed(ms)) => {
            if ms < window(s) {
                (ServerView { stage: Stage::Reading, ..s }, ActionView::Receive)
            } else if s.operation == Operation::PollRequest || s.operation
                == Operation::SetRequest {
                begin_attempt(s)
            } else {
                finish(s, Err(Error::ModemNotResponding))
            }
        },
        (Stage::Reading, EventView::Received(data)) => hear(s, data),
        _ => (s, pending_action(s)),
    }
}

pub struct ServerTty {
    parser: ParserUbx,
    crc_error_cid: UbxCID,
    max_retries: usize,
    retry_delay_in_ms: u128,
    cid_ack: UbxCID,
    cid_nak: UbxCID,
    operation: Operation,
    stage: Stage,
    outcome: Result<(), Error>,
    request_cid: UbxCID,
    request: Vec<u8>,
    attempts: usize,
    scan_base: usize,
    scanned: Vec<u8>,
}

impl View for ServerTty {
    type V = ServerView;

    closed spec fn view(&self) -> ServerView {
        ServerView {
            parser: self.parser@,
            max_retries: self.max_retries as nat,
            retry_delay: self.retry_delay_in_ms as nat,
            operation: self.operation,
            stage: self.stage,
            outcome: self.outcome,
            request_cid: self.request_cid,
            request: self.request@,
            attempts: self.attempts as nat,
            scan_base: self.scan_base as nat,
            scanned: self.scanned@,
        }
    }
}

impl ServerTty {
    /// Well-formedness: the parser is well formed and the reserved
    /// identifiers are in place. Every transport that `new` returns is well
    /// formed, and every method keeps it so.
    pub closed spec fn wf(&self) -> bool {
        &&& self.parser.wf()
        &&& self.crc_error_cid == crc_error_cid()
        &&& self.cid_ack == cid_ack()
        &&& self.cid_nak == cid_nak()
    }

    /// A transport that is busy with nothing, with the default number of
    /// attempts and the default delay. Its parser waits for the start of a
    /// frame, with an empty filter and an empty queue.
    pub fn new() -> (server: Self)
        ensures
            server.wf(),
            server@ == (ServerView {
                parser: ParserView {
                    phase: Phase::Init,
                    filter: Set::empty(),
                    queue: Seq::empty(),
                    frames: 0,
                },
                max_retries: DEFAULT_MAX_RETRIES as nat,
                retry_delay: DEFAULT_RETRY_DELAY_MS as nat,
                operation: Operation::FireAndForget,
                stage: Stage::Finished,
                outcome: Ok(()),
                request_cid: UbxCID::new(0, 0),
                request: Seq::empty(),
                attempts: 0,
                scan_base: 0,
                scanned: Seq::empty(),
            }),
    {
        Self {
            parser: ParserUbx::new(),
            crc_error_cid: UbxCID::new(0x00, 0x02),
            max_retries: DEFAULT_MAX_RETRIES,
            retry_delay_in_ms: DEFAULT_RETRY_DELAY_MS,
            cid_nak: UbxCID::new(CLS_ACK, ID_NAK),
            cid_ack: UbxCID::new(CLS_ACK, ID_ACK),
            operation: Operation::FireAndForget,
            stage: Stage::Finished,
            outcome: Ok(()),
            request_cid: UbxCID::new(0, 0),
            request: Vec::new(),
            attempts: 0,
            scan_base: 0,
            scanned: Vec::new(),
        }
    }

    /// Sets how often a request is sent at most, and returns what held
    /// before.
    pub fn set_retries(&mut self, retries: usize) -> (current: usize)
        requires
            old(self).wf(),
        ensures
            final(self).wf(),
            current == old(self)@.max_retries,
            final(self)@ == (ServerView { max_retries: retries as nat, ..old(self)@ }),
    {
        let current = self.max_retries;
        self.max_retries = retries;
        current
    }

    /// Sets the milliseconds to wait after each sending, and returns what
    /// held before.
    pub fn set_retry_delay(&mut self, delay: u128) -> (current: u128)
        requires
            old(self).wf(),
        ensures
            final(self).wf(),
            current == old(self)@.retry_delay,
            final(self)@ == (ServerView { retry_delay: delay as nat, ..old(self)@ }),
    {
        let current = self.retry_delay_in_ms;
        self.retry_delay_in_ms = delay;
        current
    }

    /// Begins a poll: the receiver is asked for the message that has the
    /// identifier of `frame_poll`. The answer comes as `Action::Deliver`.
    pub fn poll<TPoll: UbxFrameInfo + UbxFrameSerialize>(&mut self, frame_poll: &TPoll) -> (action:
        Action)
        requires
            old(self).wf(),
        ensures
            final(self).wf(),
            (final(self)@, action@) == start_request(
                old(self)@,
                Operation::PollRequest,
                set![frame_poll.spec_cid()],
                frame_poll.spec_cid(),
                frame_bytes(frame_poll.frame_cid(), frame_poll.payload()),
            ),
    {
        // We expect a response frame with the exact same CID
        let wait_cid = frame_poll.cid();
        self.parser.set_filter(wait_cid);

        // Only a few polling frames carry a payload, most come without
        let data = frame_poll.to_bin();

        self.operation = Operation::PollRequest;
        self.request_cid = wait_cid;
        self.request = data;
        self.attempts = 0;
        self.attempt()
    }

    /// Begins a set request: `frame_set` is sent and an acknowledgement that
    /// names it is awaited.
    pub fn set<TSet: UbxFrameSerialize + UbxFrameInfo>(&mut self, frame_set: &TSet) -> (action:
        Action)
        requires
            old(self).wf(),
        ensures
            final(self).wf(),
            (final(self)@, action@) == start_request(
                old(self)@,
                Operation::SetRequest,
                set![cid_ack(), cid_nak()],
                frame_set.spec_cid(),
                frame_bytes(frame_set.frame_cid(), frame_set.payload()),
            ),
    {
        // Wait for ACK-ACK / ACK-NAK
        let cids = [self.cid_ack, self.cid_nak];
        self.parser.set_filters(cids.as_slice());
        proof {
            assert(cids@ =~= seq![cid_ack(), cid_nak()]);
            assert(cids@.to_set() =~= set![cid_ack(), cid_nak()]) by {
                assert(cids@[0] == cid_ack());
                assert(cids@[1] == cid_nak());
            }
        }

        // Get frame data (header, cls, id, len, payload, checksum a/b)
        let data = frame_set.to_bin();

        self.operation = Operation::SetRequest;
        self.request_cid = frame_set.cid();
        self.request = data;
        self.attempts = 0;
        self.attempt()
    }

    /// Begins a request that the receiver does not answer, such as a cold
    /// start or a change of the baud rate: `frame_set` is sent once.
    pub fn fire_and_forget<TSet: UbxFrameSerialize + UbxFrameInfo>(
        &mut self,
        frame_set: &TSet,
    ) -> (action: Action)
        requires
            old(self).wf(),
        ensures
            final(self).wf(),
            (final(self)@, action@) == start_fire(
                old(self)@,
                frame_bytes(frame_set.frame_cid(), frame_set.payload()),
            ),
    {
        let data = frame_set.to_bin();
        self.operation = Operation::FireAndForget;
        self.stage = Stage::Sending;
        self.request = data;
        self.attempts = 1;
        let bytes = self.request.clone();
        proof {
            assert(bytes@ =~= self.request@);
        }
        Action::Send(bytes)
    }

    /// Begins a scan: the transport listens for UBX frames or NMEA markers,
    /// as a sign that the channel runs at the receiver's baud rate.
    pub fn scan(&mut self) -> (action: Action)
        requires
            old(self).wf(),
        ensures
            final(self).wf(),
            (final(self)@, action@) == start_scan(old(self)@),
    {
        self.operation = Operation::Scan;
        self.stage = Stage::Timing;
        self.scan_base = self.parser.frames_received();
        self.scanned = Vec::new();
        self.parser.restart();
        Action::Clock
    }

    /// Takes in what came of the pending action and says what is to be done
    /// next.
    pub fn step(&mut self, event: Event) -> (action: Action)
        requires
            old(self).wf(),
        ensures
            final(self).wf(),
            (final(self)@, action@) == server_step(old(self)@, event@),
    {
        match self.stage {
            Stage::Sending => match event {
                Event::Written(written) => match self.send(written) {
                    Ok(_) => {
                        if self.operation == Operation::FireAndForget {
                            self.end(Ok(()))
                        } else {
                            self.parser.restart();
                            self.stage = Stage::Timing;
                            Action::Clock
                        }
                    },
                    Err(error) => self.end(Err(error)),
                },
                _ => self.pending(),
            },
            Stage::Timing => match event {
                Event::Elapsed(ms) => {
                    let window = if self.operation == Operation::Scan {
                        SCAN_WINDOW_MS
                    } else {
                        self.retry_delay_in_ms
                    };
                    if ms < window {
                        self.stage = Stage::Reading;
                        Action::Receive
                    } else if self.operation == Operation::PollRequest || self.operation
                        == Operation::SetRequest {
                        self.attempt()
                    } else {
                        self.end(Err(Error::ModemNotResponding))
                    }
                },
                _ => self.pending(),
            },
            Stage::Reading => match event {
                Event::Received(data) => self.hear(&data),
                _ => self.pending(),
            },
            Stage::Finished => self.pending(),
        }
    }

    /// The action that is pending, once more.
    fn pending(&self) -> (action: Action)
        ensures
            action@ == pending_action(self@),
    {
        match self.stage {
            Stage::Finished => Action::Finish(self.outcome),
            Stage::Sending => {
                let bytes = self.request.clone();
                proof {
                    assert(bytes@ =~= self.request@);
                }
                Action::Send(bytes)
            },
            Stage::Timing => Action::Clock,
            Stage::Reading => Action::Receive,
        }
    }

    /// Ends the operation.
    fn end(&mut self, outcome: Result<(), Error>) -> (action: Action)
        requires
            old(self).wf(),
        ensures
            final(self).wf(),
            (final(self)@, action@) == finish(old(self)@, outcome),
    {
        self.stage = Stage::Finished;
        self.outcome = outcome;
        Action::Finish(outcome)
    }

    /// Starts one more attempt, or gives up when none is left.
    fn attempt(&mut self) -> (action: Action)
        requires
            old(self).wf(),
        ensures
            final(self).wf(),
            (final(self)@, action@) == begin_attempt(old(self)@),
    {
        if self.attempts < self.max_retries {
            self.parser.empty_queue();
            self.attempts += 1;
            self.stage = Stage::Sending;
            let bytes = self.request.clone();
            proof {
                assert(bytes@ =~= self.request@);
            }
            Action::Send(bytes)
        } else {
            self.end(Err(Error::ModemNotResponding))
        }
    }

    /// Judges a write: it has to have sent every byte of the request.
    fn send(&self, written: Option<usize>) -> (sent: Result<(), Error>)
        ensures
            sent is Ok <==> sent_all(written, self@.request),
            sent is Err ==> sent == Err::<(), Error>(Error::SerialPortSendFailed),
    {
        match written {
            Some(bytes_written) => {
                if bytes_written == self.request.len() {
                    Ok(())
                } else {
                    Err(Error::SerialPortSendFailed)
                }
            },
            None => Err(Error::SerialPortSendFailed),
        }
    }

    /// One round of waiting: the bytes are fed to the parser and the oldest
    /// packet, if any, is taken from it.
    fn wait(&mut self, data: &Vec<u8>) -> (taken: Option<UbxFrame>)
        requires
            old(self).wf(),
        ensures
            final(self).wf(),
            final(self)@ == (ServerView {
                parser: take_packet(parser_run(old(self)@.parser, data@)).1,
                ..old(self)@
            }),
            match taken {
                Some(frame) => take_packet(parser_run(old(self)@.parser, data@)).0 == Some(
                    frame@,
                ),
                None => take_packet(parser_run(old(self)@.parser, data@)).0 is None,
            },
    {
        // process() places all decoded frames in the queue
        self.parser.process(data);

        // Check if a packet could be decoded already
        self.parser.packet()
    }

    /// Takes in the bytes that were read.
    fn hear(&mut self, data: &Vec<u8>) -> (action: Action)
        requires
            old(self).wf(),
            old(self).stage == Stage::Reading,
        ensures
            final(self).wf(),
            (final(self)@, action@) == hear(old(self)@, data@),
    {
        let taken = self.wait(data);
        match self.operation {
            Operation::Scan => {
                put_bytes(&mut self.scanned, data.as_slice());
                let frames = self.parser.frames_received();
                if frames > self.scan_base && frames - self.scan_base > SCAN_UBX_FRAMES {
                    return self.end(Ok(()));
                }
                let count = count_markers(self.scanned.as_slice());
                if count >= SCAN_NMEA_MARKERS {
                    return self.end(Ok(()));
                }
                self.stage = Stage::Timing;
                Action::Clock
            },
            Operation::PollRequest => {
                match taken {
                    Some(p) => {
                        if p.cid != self.crc_error_cid && p.cid == self.request_cid {
                            self.stage = Stage::Finished;
                            self.outcome = Ok(());
                            return Action::Deliver(p);
                        }
                    },
                    None => {},
                }
                self.stage = Stage::Timing;
                Action::Clock
            },
            Operation::SetRequest => {
                match taken {
                    Some(p) => {
                        if p.cid != self.crc_error_cid {
                            match self.check_ack_nak(&p, self.request_cid) {
                                Ok(_) => {
                                    return self.end(Ok(()));
                                },
                                Err(Error::ModemNAK) => {
                                    return self.end(Err(Error::ModemNAK));
                                },
                                Err(_) => {},
                            }
                        }
                    },
                    None => {},
                }
                self.stage = Stage::Timing;
                Action::Clock
            },
            Operation::FireAndForget => {
                self.stage = Stage::Timing;
                Action::Clock
            },
        }
    }

    /// The last step of a poll: fills `frame_result` from the payload of the
    /// frame that was delivered, and tells whether it did. Where the payload
    /// is none that the answer can be filled from, the answer stays as it
    /// was.
    pub fn load_answer<TAnswer: UbxFrameDeSerialize>(
        packet: &UbxFrame,
        frame_result: &mut TAnswer,
    ) -> (loaded: bool)
        ensures
            loaded == old(frame_result).accepts(packet@.data),
            loaded ==> final(frame_result).filled_from(old(frame_result), packet@.data),
            !loaded ==> *final(frame_result) == *old(frame_result),
    {
        if frame_result.can_load(packet.data.as_slice()) {
            frame_result.from_bin(packet.data.as_slice());
            true
        } else {
            false
        }
    }

    /// Judges an acknowledgement against the request with identifier
    /// `set_cid`.
    pub fn check_ack_nak(&self, packet: &UbxFrame, set_cid: UbxCID) -> (verdict: Result<
        (),
        Error,
    >)
        requires
            self.wf(),
        ensures
            verdict == ack_verdict(packet@, set_cid),
    {
        if packet.cid != self.cid_ack && packet.cid != self.cid_nak {
            return Err(Error::ModemUnexpectedAckNak);
        }
        let mut ack_nak = UbxAck::from(packet.cid.id());
        if !ack_nak.can_load(packet.data.as_slice()) {
            return Err(Error::ModemUnexpectedAckNak);
        }
        ack_nak.from_bin(packet.data.as_slice());

        if ack_nak.ack_cid() == set_cid {
            // CID in ACK/NAK frame matches our request
            if ack_nak.cid.id() == ID_ACK {
                Ok(())
            } else {
                Err(Error::ModemNAK)
            }
        } else {
            // ACK/NAK must be for another request
            Err(Error::ModemUnexpectedAckNak)
        }
    }
}

/// The transport after a sequence of events, and the actions that it asked
/// for, in order.
pub open spec fn server_run(s: ServerView, events: Seq<EventView>) -> (ServerView, Seq<ActionView>)
    decreases events.len(),
{
    if events.len() == 0 {
        (s, Seq::empty())
    } else {
        let (before, actions) = server_run(s, events.drop_last());
        let (after, action) = server_step(before, events.last());
        (after, actions.push(action))
    }
}

/// How often `actions` asks for the request to be written.
pub open spec fn sends(actions: Seq<ActionView>) -> nat
    decreases actions.len(),
{
    if actions.len() == 0 {
        0
    } else if actions.last() is Send {
        sends(actions.drop_last()) + 1
    } else {
        sends(actions.drop_last())
    }
}

/// Whether `frame` is what the operation waits for: for a poll the frame of
/// the requested identifier, for a set request an acknowledgement, positive
/// or negative, that names the request. The checksum-error packet is never
/// waited for.
pub open spec fn answers(operation: Operation, request_cid: UbxCID, frame: FrameView) -> bool {
    &&& frame.cid != crc_error_cid()
    &&& match operation {
        Operation::PollRequest => frame.cid == request_cid,
        Operation::SetRequest => ack_verdict(frame, request_cid) is Ok || ack_verdict(
            frame,
            request_cid,
        ) == Err::<(), Error>(Error::ModemNAK),
        _ => false,
    }
}

/// The packet that the transport takes from its parser after `data` was
/// read.
pub open spec fn heard_packet(s: ServerView, data: Seq<u8>) -> Option<FrameView> {
    take_packet(parser_run(s.parser, data)).0
}

/// Whether `data` leaves the operation without its answer.
pub open spec fn silent(s: ServerView, data: Seq<u8>) -> bool {
    match heard_packet(s, data) {
        None => true,
        Some(frame) => !answers(s.operation, s.request_cid, frame),
    }
}

/// One round of listening: what the stopwatch showed, and the bytes that the
/// channel then gave.
pub struct Round {
    pub at: u128,
    pub data: Seq<u8>,
}

/// One attempt that runs out of time: the rounds of listening, and what the
/// stopwatch showed when the time was over.
pub struct Attempt {
    pub rounds: Seq<Round>,
    pub expired: u128,
}

/// The events of some rounds of listening.
pub open spec fn round_events(rounds: Seq<Round>) -> Seq<EventView>
    decreases rounds.len(),
{
    if rounds.len() == 0 {
        Seq::empty()
    } else {
        round_events(rounds.drop_last()) + seq![
            EventView::Elapsed(rounds.last().at),
            EventView::Received(rounds.last().data),
        ]
    }
}

/// The events of an attempt: the request is written in full, the rounds
/// pass, the time is over.
pub open spec fn attempt_events(attempt: Attempt, request_len: usize) -> Seq<EventView> {
    seq![EventView::Written(Some(request_len))] + round_events(attempt.rounds) + seq![
        EventView::Elapsed(attempt.expired),
    ]
}

/// The events of some attempts, one after the other.
pub open spec fn attempts_events(tries: Seq<Attempt>, request_len: usize) -> Seq<EventView>
    decreases tries.len(),
{
    if tries.len() == 0 {
        Seq::empty()
    } else {
        attempts_events(tries.drop_last(), request_len) + attempt_events(tries.last(), request_len)
    }
}

/// Whether every round is within the delay and leaves the operation without
/// its answer.
pub open spec fn rounds_silent(s: ServerView, rounds: Seq<Round>) -> bool
    decreases rounds.len(),
{
    rounds.len() == 0 || {
        &&& rounds_silent(s, rounds.drop_last())
        &&& rounds.last().at < s.retry_delay
        &&& silent(server_run(s, round_events(rounds.drop_last())).0, rounds.last().data)
    }
}

/// Whether an attempt brings no answer before its time is over.
pub open spec fn attempt_fails(s: ServerView, attempt: Attempt) -> bool {
    &&& rounds_silent(
        server_step(s, EventView::Written(Some(s.request.len() as usize))).0,
        attempt.rounds,
    )
    &&& attempt.expired >= s.retry_delay
}

/// Whether each of the attempts brings no answer before its time is over.
pub open spec fn attempts_fail(s: ServerView, tries: Seq<Attempt>) -> bool
    decreases tries.len(),
{
    tries.len() == 0 || {
        &&& attempts_fail(s, tries.drop_last())
        &&& attempt_fails(
            server_run(s, attempts_events(tries.drop_last(), s.request.len() as usize)).0,
            tries.last(),
        )
    }
}

/// Whether two states of a transport belong to the same request with the
/// same limits.
pub open spec fn same_request(a: ServerView, b: ServerView) -> bool {
    &&& a.operation == b.operation
    &&& a.request_cid == b.request_cid
    &&& a.request == b.request
    &&& a.max_retries == b.max_retries
    &&& a.retry_delay == b.retry_delay
}

/// Whether the transport is busy with a request that is answered.
pub open spec fn awaits_answer(s: ServerView) -> bool {
    &&& s.operation == Operation::PollRequest || s.operation == Operation::SetRequest
    &&& s.request.len() <= usize::MAX
}

/// Events taken in two parts are events taken at once.
pub proof fn lemma_server_run_concat(s: ServerView, head: Seq<EventView>, tail: Seq<EventView>)
    ensures
        server_run(s, head + tail).0 == server_run(server_run(s, head).0, tail).0,
        server_run(s, head + tail).1 == server_run(s, head).1 + server_run(
            server_run(s, head).0,
            tail,
        ).1,
    decreases tail.len(),
{
    if tail.len() == 0 {
        assert(head + tail =~= head);
        assert(server_run(s, head).1 + Seq::<ActionView>::empty() =~= server_run(s, head).1);
    } else {
        lemma_server_run_concat(s, head, tail.drop_last());
        assert((head + tail).drop_last() =~= head + tail.drop_last());
        assert((head + tail).last() == tail.last());
        let mid = server_run(s, head).0;
        let step = server_step(server_run(mid, tail.drop_last()).0, tail.last());
        assert(server_run(s, head).1 + server_run(mid, tail.drop_last()).1.push(step.1) =~= (
        server_run(s, head).1 + server_run(mid, tail.drop_last()).1).push(step.1));
    }
}

/// One event is one step.
pub proof fn lemma_server_run_one(s: ServerView, event: EventView)
    ensures
        server_run(s, seq![event]).0 == server_step(s, event).0,
        server_run(s, seq![event]).1 == seq![server_step(s, event).1],
{
    reveal_with_fuel(server_run, 2);
    assert(seq![event].drop_last() =~= Seq::<EventView>::empty());
    assert(Seq::<ActionView>::empty().push(server_step(s, event).1) =~= seq![
        server_step(s, event).1,
    ]);
}

/// The sendings of two runs of actions add up.
pub proof fn lemma_sends_concat(head: Seq<ActionView>, tail: Seq<ActionView>)
    ensures
        sends(head + tail) == sends(head) + sends(tail),
    decreases tail.len(),
{
    if tail.len() == 0 {
        assert(head + tail =~= head);
    } else {
        lemma_sends_concat(head, tail.drop_last());
        assert((head + tail).drop_last() =~= head + tail.drop_last());
        assert((head + tail).last() == tail.last());
    }
}

/// An acknowledgement that names another request than the one sent is not
/// what a set request waits for.
pub proof fn lemma_stray_ack_is_no_answer(frame: FrameView, set_cid: UbxCID)
    requires
        frame.data.len() >= 2,
        UbxCID::new(frame.data[0], frame.data[1]) != set_cid,
    ensures
        ack_verdict(frame, set_cid) == Err::<(), Error>(Error::ModemUnexpectedAckNak),
        !answers(Operation::SetRequest, set_cid, frame),
{
}

/// Bytes that do not bring the answer leave the operation waiting: the
/// stopwatch is read next, and nothing of the request changes.
pub proof fn lemma_silent_round(s: ServerView, at: u128, data: Seq<u8>)
    requires
        s.stage == Stage::Timing,
        awaits_answer(s),
        at < s.retry_delay,
        silent(s, data),
    ensures
        ({
            let after = server_run(s, seq![EventView::Elapsed(at), EventView::Received(data)]);
            &&& after.0.stage == Stage::Timing
            &&& same_request(s, after.0)
            &&& after.0.attempts == s.attempts
            &&& sends(after.1) == 0
        }),
{
    let first = seq![EventView::Elapsed(at)];
    let second = seq![EventView::Received(data)];
    assert(seq![EventView::Elapsed(at), EventView::Received(data)] =~= first + second);
    lemma_server_run_concat(s, first, second);
    lemma_server_run_one(s, EventView::Elapsed(at));
    let reading = server_step(s, EventView::Elapsed(at)).0;
    lemma_server_run_one(reading, EventView::Received(data));
    assert(heard_packet(reading, data) == heard_packet(s, data));
    let actions = server_run(s, first + second).1;
    assert(actions =~= seq![ActionView::Receive, ActionView::Clock]);
    reveal_with_fuel(sends, 3);
    assert(actions.drop_last() =~= seq![ActionView::Receive]);
    assert(seq![ActionView::Receive].drop_last() =~= Seq::<ActionView>::empty());
}

/// Bytes that bring the answer end the operation: a poll delivers the frame
/// of the requested identifier, and a set request ends well on a positive
/// acknowledgement that names it and with `ModemNAK` on a negative one. The
/// request is not sent again.
pub proof fn lemma_answered_round(s: ServerView, at: u128, data: Seq<u8>, frame: FrameView)
    requires
        s.stage == Stage::Timing,
        awaits_answer(s),
        at < s.retry_delay,
        heard_packet(s, data) == Some(frame),
        answers(s.operation, s.request_cid, frame),
    ensures
        ({
            let after = server_run(s, seq![EventView::Elapsed(at), EventView::Received(data)]);
            &&& after.0.stage == Stage::Finished
            &&& after.0.attempts == s.attempts
            &&& sends(after.1) == 0
            &&& s.operation == Operation::PollRequest ==> {
                &&& after.1.last() == ActionView::Deliver(frame)
                &&& after.0.outcome == Ok::<(), Error>(())
            }
            &&& s.operation == Operation::SetRequest ==> {
                &&& after.1.last() == ActionView::Finish(ack_verdict(frame, s.request_cid))
                &&& after.0.outcome == ack_verdict(frame, s.request_cid)
                &&& frame.cid == cid_ack() ==> after.0.outcome == Ok::<(), Error>(())
                &&& frame.cid == cid_nak() ==> after.0.outcome == Err::<(), Error>(
                    Error::ModemNAK,
                )
            }
        }),
{
    let first = seq![EventView::Elapsed(at)];
    let second = seq![EventView::Received(data)];
    assert(seq![EventView::Elapsed(at), EventView::Received(data)] =~= first + second);
    lemma_server_run_concat(s, first, second);
    lemma_server_run_one(s, EventView::Elapsed(at));
    let reading = server_step(s, EventView::Elapsed(at)).0;
    lemma_server_run_one(reading, EventView::Received(data));
    assert(heard_packet(reading, data) == heard_packet(s, data));
    let actions = server_run(s, first + second).1;
    let done = server_step(reading, EventView::Received(data)).1;
    assert(actions =~= seq![ActionView::Receive, done]);
    reveal_with_fuel(sends, 3);
    assert(actions.drop_last() =~= seq![ActionView::Receive]);
    assert(seq![ActionView::Receive].drop_last() =~= Seq::<ActionView>::empty());
}

/// Rounds that do not bring the answer leave the operation waiting.
pub proof fn lemma_silent_rounds(s: ServerView, rounds: Seq<Round>)
    requires
        s.stage == Stage::Timing,
        awaits_answer(s),
        rounds_silent(s, rounds),
    ensures
        ({
            let after = server_run(s, round_events(rounds));
            &&& after.0.stage == Stage::Timing
            &&& same_request(s, after.0)
            &&& after.0.attempts == s.attempts
            &&& sends(after.1) == 0
        }),
    decreases rounds.len(),
{
    if rounds.len() > 0 {
        let before = rounds.drop_last();
        let last = rounds.last();
        lemma_silent_rounds(s, before);
        let mid = server_run(s, round_events(before));
        let pair = seq![EventView::Elapsed(last.at), EventView::Received(last.data)];
        lemma_server_run_concat(s, round_events(before), pair);
        lemma_silent_round(mid.0, last.at, last.data);
        lemma_sends_concat(mid.1, server_run(mid.0, pair).1);
    }
}

/// An attempt that brings no answer before its time is over is followed by
/// the next attempt while attempts are left, and by the end of the operation
/// with `ModemNotResponding` when none is left.
pub proof fn lemma_failed_attempt(s: ServerView, attempt: Attempt)
    requires
        s.stage == Stage::Sending,
        awaits_answer(s),
        attempt_fails(s, attempt),
    ensures
        ({
            let after = server_run(s, attempt_events(attempt, s.request.len() as usize));
            &&& same_request(s, after.0)
            &&& after.1.len() > 0
            &&& s.attempts < s.max_retries ==> {
                &&& after.0.stage == Stage::Sending
                &&& after.0.attempts == s.attempts + 1
                &&& after.1.last() == ActionView::Send(s.request)
                &&& sends(after.1) == 1
            }
            &&& s.attempts >= s.max_retries ==> {
                &&& after.0.stage == Stage::Finished
                &&& after.0.outcome == Err::<(), Error>(Error::ModemNotResponding)
                &&& after.0.attempts == s.attempts
                &&& after.1.last() == ActionView::Finish(Err(Error::ModemNotResponding))
                &&& sends(after.1) == 0
            }
        }),
{
    let len = s.request.len() as usize;
    let written = seq![EventView::Written(Some(len))];
    let rounds = round_events(attempt.rounds);
    let expired = seq![EventView::Elapsed(attempt.expired)];
    lemma_server_run_concat(s, written + rounds, expired);
    lemma_server_run_concat(s, written, rounds);
    lemma_server_run_one(s, EventView::Written(Some(len)));
    let timing = server_step(s, EventView::Written(Some(len)));
    assert(timing.1 == ActionView::Clock);
    lemma_silent_rounds(timing.0, attempt.rounds);
    let waited = server_run(timing.0, rounds);
    lemma_server_run_one(waited.0, EventView::Elapsed(attempt.expired));
    let last = server_step(waited.0, EventView::Elapsed(attempt.expired));
    lemma_sends_concat(seq![timing.1], waited.1);
    lemma_sends_concat(seq![timing.1] + waited.1, seq![last.1]);
    reveal_with_fuel(sends, 2);
    assert(seq![timing.1].drop_last() =~= Seq::<ActionView>::empty());
    assert(seq![last.1].drop_last() =~= Seq::<ActionView>::empty());
}

/// Attempts that bring no answer follow each other as long as attempts are
/// left: each of them ends with one more sending of the same request.
pub proof fn lemma_failed_attempts(s: ServerView, tries: Seq<Attempt>)
    requires
        s.stage == Stage::Sending,
        awaits_answer(s),
        attempts_fail(s, tries),
        s.attempts + tries.len() <= s.max_retries,
    ensures
        ({
            let after = server_run(s, attempts_events(tries, s.request.len() as usize));
            &&& same_request(s, after.0)
            &&& after.0.stage == Stage::Sending
            &&& after.0.attempts == s.attempts + tries.len()
            &&& sends(after.1) == tries.len()
        }),
    decreases tries.len(),
{
    if tries.len() > 0 {
        let len = s.request.len() as usize;
        let before = tries.drop_last();
        lemma_failed_attempts(s, before);
        let mid = server_run(s, attempts_events(before, len));
        lemma_server_run_concat(s, attempts_events(before, len), attempt_events(tries.last(), len));
        lemma_failed_attempt(mid.0, tries.last());
        lemma_sends_concat(mid.1, server_run(mid.0, attempt_events(tries.last(), len)).1);
    }
}

/// Retry success: where the first attempts of a set request bring no answer
/// before their time is over, and the last one brings a positive
/// acknowledgement that names the request, the request ends well, and it was
/// sent exactly once for each attempt. The first sending is the one that
/// `set` asked for; `earlier` are the attempts that failed.
pub proof fn lemma_retry_success(
    s: ServerView,
    earlier: Seq<Attempt>,
    rounds: Seq<Round>,
    at: u128,
    data: Seq<u8>,
)
    requires
        s.stage == Stage::Sending,
        s.operation == Operation::SetRequest,
        s.request.len() <= usize::MAX,
        s.attempts == 1,
        earlier.len() + 1 <= s.max_retries,
        attempts_fail(s, earlier),
        ({
            let len = s.request.len() as usize;
            let last = server_run(s, attempts_events(earlier, len)).0;
            let sent = server_step(last, EventView::Written(Some(len))).0;
            let waited = server_run(sent, round_events(rounds)).0;
            &&& rounds_silent(sent, rounds)
            &&& at < s.retry_delay
            &&& match heard_packet(waited, data) {
                Some(frame) => frame.cid != crc_error_cid() && ack_verdict(frame, s.request_cid)
                    is Ok,
                None => false,
            }
        }),
    ensures
        ({
            let len = s.request.len() as usize;
            let events = attempts_events(earlier, len) + (seq![EventView::Written(Some(len))]
                + round_events(rounds) + seq![
                EventView::Elapsed(at),
                EventView::Received(data),
            ]);
            let after = server_run(s, events);
            &&& after.1.last() == ActionView::Finish(Ok(()))
            &&& after.0.stage == Stage::Finished
            &&& after.0.outcome == Ok::<(), Error>(())
            &&& after.0.attempts == earlier.len() + 1
            &&& 1 + sends(after.1) == earlier.len() + 1
        }),
{
    let len = s.request.len() as usize;
    let head = attempts_events(earlier, len);
    let written = seq![EventView::Written(Some(len))];
    let listening = round_events(rounds);
    let answer = seq![EventView::Elapsed(at), EventView::Received(data)];
    lemma_failed_attempts(s, earlier);
    let last = server_run(s, head);
    lemma_server_run_concat(s, head, written + listening + answer);
    lemma_server_run_concat(last.0, written + listening, answer);
    lemma_server_run_concat(last.0, written, listening);
    lemma_server_run_one(last.0, EventView::Written(Some(len)));
    let sent = server_step(last.0, EventView::Written(Some(len)));
    lemma_silent_rounds(sent.0, rounds);
    let waited = server_run(sent.0, listening);
    lemma_server_run_concat(
        waited.0,
        seq![EventView::Elapsed(at)],
        seq![EventView::Received(data)],
    );
    assert(answer =~= seq![EventView::Elapsed(at)] + seq![EventView::Received(data)]);
    lemma_server_run_one(waited.0, EventView::Elapsed(at));
    let reading = server_step(waited.0, EventView::Elapsed(at));
    lemma_server_run_one(reading.0, EventView::Received(data));
    let done = server_step(reading.0, EventView::Received(data));
    assert(heard_packet(reading.0, data) == heard_packet(waited.0, data));
    assert(done.1 == ActionView::Finish(Ok(())));
    let tail_actions = server_run(last.0, written + listening + answer).1;
    assert(tail_actions =~= seq![sent.1] + waited.1 + seq![reading.1, done.1]);
    lemma_sends_concat(last.1, tail_actions);
    lemma_sends_concat(seq![sent.1] + waited.1, seq![reading.1, done.1]);
    lemma_sends_concat(seq![sent.1], waited.1);
    reveal_with_fuel(sends, 3);
    assert(seq![sent.1].drop_last() =~= Seq::<ActionView>::empty());
    assert(seq![reading.1, done.1].drop_last() =~= seq![reading.1]);
    assert(seq![reading.1].drop_last() =~= Seq::<ActionView>::empty());
}

/// Retries exhausted: where every attempt of a poll or a set request brings
/// no answer before its time is over, as it is where each acknowledgement
/// names another request, the operation ends with `ModemNotResponding` when
/// the request was sent as often as allowed, and it is never sent again. The
/// first sending is the one that `poll` or `set` asked for.
pub proof fn lemma_retries_exhausted(s: ServerView, tries: Seq<Attempt>)
    requires
        s.stage == Stage::Sending,
        awaits_answer(s),
        s.attempts == 1,
        tries.len() == s.max_retries,
        tries.len() >= 1,
        attempts_fail(s, tries),
    ensures
        ({
            let after = server_run(s, attempts_events(tries, s.request.len() as usize));
            &&& after.1.last() == ActionView::Finish(Err(Error::ModemNotResponding))
            &&& after.0.stage == Stage::Finished
            &&& after.0.outcome == Err::<(), Error>(Error::ModemNotResponding)
            &&& 1 + sends(after.1) == s.max_retries
        }),
{
    let len = s.request.len() as usize;
    let before = tries.drop_last();
    lemma_failed_attempts(s, before);
    let mid = server_run(s, attempts_events(before, len));
    lemma_server_run_concat(s, attempts_events(before, len), attempt_events(tries.last(), len));
    lemma_failed_attempt(mid.0, tries.last());
    let tail = server_run(mid.0, attempt_events(tries.last(), len));
    lemma_sends_concat(mid.1, tail.1);
    assert((mid.1 + tail.1).last() == tail.1.last());
}

} // verus!
