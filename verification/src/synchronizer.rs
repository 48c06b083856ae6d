//! Frame synchronization and validation over an unstructured byte stream.
//!
//! The transport delivers bytes with no alignment: the synchronizer scans
//! single-byte reads for the start marker, classifies the following
//! direction marker against the outstanding request, collects the fixed
//! remainder of the frame, and finally validates the whole frame —
//! direction, opcode echo, checksum, device id — in that order. Leading
//! garbage bytes are discarded without bound; a read timeout is no error
//! while a frame start is still being sought.
//!
//! The reading itself is left to the caller, which owns the transport: it
//! asks [`Synchronizer::wanted`] how many bytes to read, performs the read,
//! and feeds the outcome back through [`Synchronizer::advance`] or
//! [`Synchronizer::on_timeout`].

use vstd::prelude::*;

use crate::codec::{
    RECEIVE_BYTE, RESPONSE_BYTE, RESPONSE_LENGTH, SERIAL_START, generate_checksum,
    spec_generate_checksum,
};
use crate::commands::{Command, command_from_byte, spec_command_from_byte};
use crate::errors::ProtocolViolation;
use crate::sensor::SensorInfo;

verus! {

/// Where the synchronizer stands in assembling one frame.
#[derive(Debug, PartialEq, Eq, Clone, Copy, Structural)]
pub enum SyncState {
    /// Reading single bytes, waiting for the start marker.
    Scanning,
    /// Start marker seen; the next byte decides the frame's direction.
    AwaitDirection,
    /// Start and direction collected; the fixed remainder is owed.
    Collecting,
    /// A frame or the empty outcome was produced; the cycle is over.
    Done,
}

/// What feeding one read's bytes produced.
#[derive(Debug)]
pub enum SyncProgress {
    /// The frame is not complete yet; read again.
    Pending,
    /// The transport had no data at all: the sensor is presumed asleep or
    /// mid-duty-cycle, and the cycle ends without a frame.
    Empty,
    /// A complete frame of [`RESPONSE_LENGTH`] bytes, not yet validated.
    Frame(Vec<u8>),
}

/// A reply to a solicited command other than `Request` is awaited.
/// A `Request`, like no command at all, is answered by a measurement push.
pub open spec fn awaits_response(expected: Option<Command>) -> bool {
    expected matches Some(c) && c != Command::Request
}

/// The direction marker that classifies a frame for this expectation.
pub open spec fn spec_expected_direction(expected: Option<Command>) -> u8 {
    if awaits_response(expected) {
        RESPONSE_BYTE
    } else {
        RECEIVE_BYTE
    }
}

/// Assembles one response or measurement frame from reads of the stream.
pub struct Synchronizer {
    /// The solicited command whose reply is awaited; `None` when a
    /// spontaneous measurement push is awaited instead.
    pub expected: Option<Command>,
    pub state: SyncState,
    /// Frame bytes collected so far, aligned at the start marker.
    pub buf: Vec<u8>,
}

impl Synchronizer {
    /// The collected bytes fit the state: nothing while scanning, the
    /// start marker alone, or the start marker and the direction marker.
    pub open spec fn wf(&self) -> bool {
        match self.state {
            SyncState::Scanning => self.buf@.len() == 0,
            SyncState::AwaitDirection => self.buf@ == seq![SERIAL_START],
            SyncState::Collecting => self.buf@ == seq![
                SERIAL_START,
                spec_expected_direction(self.expected),
            ],
            SyncState::Done => true,
        }
    }

    /// How many bytes the next read should ask for.
    pub open spec fn spec_wanted(&self) -> usize {
        match self.state {
            SyncState::Scanning => 1,
            SyncState::AwaitDirection => 1,
            SyncState::Collecting => 8,
            SyncState::Done => 0,
        }
    }

    /// Start assembling one frame for the given outstanding request.
    pub fn new(expected: Option<Command>) -> (s: Self)
        ensures
            s.wf(),
            s.state == SyncState::Scanning,
            s.expected == expected,
    {
        Synchronizer { expected, state: SyncState::Scanning, buf: Vec::new() }
    }

    /// How many bytes the next read should ask for.
    pub fn wanted(&self) -> (n: usize)
        ensures
            n == self.spec_wanted(),
    {
        match self.state {
            SyncState::Scanning => 1,
            SyncState::AwaitDirection => 1,
            SyncState::Collecting => 8,
            SyncState::Done => 0,
        }
    }

    /// A single-byte read timed out. A timeout means "no byte yet", not
    /// "no frame": scanning simply goes on, and a partial frame start is
    /// discarded as a false start.
    pub fn on_timeout(&mut self)
        requires
            old(self).wf(),
            old(self).state == SyncState::Scanning || old(self).state
                == SyncState::AwaitDirection,
        ensures
            final(self).wf(),
            final(self).state == SyncState::Scanning,
            final(self).expected == old(self).expected,
    {
        self.state = SyncState::Scanning;
        self.buf = Vec::new();
    }

    /// Feed the bytes one read returned.
    ///
    /// While scanning, a read of zero bytes means the transport had no
    /// data at all: the cycle ends with [`SyncProgress::Empty`], and the
    /// caller treats it as "no measurement available now". Any byte other
    /// than the start marker is dropped and scanning goes on. After the
    /// start marker, only the direction marker fitting the outstanding
    /// request moves assembly forward; any other byte is a false start.
    /// The 8-byte remainder must arrive in one read: a short read there
    /// is a protocol violation, as is a zero-byte read where the
    /// direction marker was owed.
    pub fn advance(&mut self, bytes: &Vec<u8>) -> (r: Result<SyncProgress, ProtocolViolation>)
        requires
            old(self).wf(),
            old(self).state != SyncState::Done,
            bytes@.len() <= old(self).spec_wanted(),
        ensures
            final(self).wf(),
            final(self).expected == old(self).expected,
            match old(self).state {
                SyncState::Scanning => {
                    if bytes@.len() == 0 {
                        r matches Ok(p) && p is Empty && final(self).state == SyncState::Done
                    } else if bytes@[0] == SERIAL_START {
                        r matches Ok(p) && p is Pending && final(self).state
                            == SyncState::AwaitDirection
                    } else {
                        r matches Ok(p) && p is Pending && final(self).state
                            == SyncState::Scanning
                    }
                },
                SyncState::AwaitDirection => {
                    if bytes@.len() == 0 {
                        r matches Err(e) && e == ProtocolViolation::ShortRead && final(self).state == SyncState::Done
                    } else if bytes@[0] == spec_expected_direction(old(self).expected) {
                        r matches Ok(p) && p is Pending && final(self).state
                            == SyncState::Collecting
                    } else {
                        r matches Ok(p) && p is Pending && final(self).state
                            == SyncState::Scanning
                    }
                },
                SyncState::Collecting => {
                    if bytes@.len() == 8 {
                        r matches Ok(p) && p matches SyncProgress::Frame(f) && f@ == old(self).buf@ + bytes@ && f@.len() == RESPONSE_LENGTH && final(self).state
                            == SyncState::Done
                    } else {
                        r matches Err(e) && e == ProtocolViolation::ShortRead && final(self).state == SyncState::Done
                    }
                },
                SyncState::Done => false,
            },
    {
        match self.state {
            SyncState::Scanning => {
                if bytes.len() == 0 {
                    self.state = SyncState::Done;
                    Ok(SyncProgress::Empty)
                } else if bytes[0] == SERIAL_START {
                    self.buf.push(SERIAL_START);
                    proof {
                        assert(self.buf@ =~= seq![SERIAL_START]);
                    }
                    self.state = SyncState::AwaitDirection;
                    Ok(SyncProgress::Pending)
                } else {
                    Ok(SyncProgress::Pending)
                }
            },
            SyncState::AwaitDirection => {
                if bytes.len() == 0 {
                    self.state = SyncState::Done;
                    Err(ProtocolViolation::ShortRead)
                } else {
                    let direction = if self.is_awaiting_response() {
                        RESPONSE_BYTE
                    } else {
                        RECEIVE_BYTE
                    };
                    if bytes[0] == direction {
                        self.buf.push(direction);
                        proof {
                            assert(self.buf@ =~= seq![
                                SERIAL_START,
                                spec_expected_direction(self.expected),
                            ]);
                        }
                        self.state = SyncState::Collecting;
                        Ok(SyncProgress::Pending)
                    } else {
                        self.buf = Vec::new();
                        self.state = SyncState::Scanning;
                        Ok(SyncProgress::Pending)
                    }
                }
            },
            SyncState::Collecting => {
                if bytes.len() == 8 {
                    let ghost collected = self.buf@;
                    let mut frame: Vec<u8> = Vec::new();
                    core::mem::swap(&mut frame, &mut self.buf);
                    let mut i: usize = 0;
                    while i < bytes.len()
                        invariant
                            i <= bytes@.len(),
                            frame@ == collected + bytes@.subrange(0, i as int),
                        decreases bytes@.len() - i,
                    {
                        proof {
                            assert(collected + bytes@.subrange(0, i + 1int) =~= (collected
                                + bytes@.subrange(0, i as int)).push(bytes@[i as int]));
                        }
                        frame.push(bytes[i]);
                        i = i + 1;
                    }
                    proof {
                        assert(bytes@.subrange(0, bytes@.len() as int) =~= bytes@);
                    }
                    self.state = SyncState::Done;
                    Ok(SyncProgress::Frame(frame))
                } else {
                    self.state = SyncState::Done;
                    Err(ProtocolViolation::ShortRead)
                }
            },
            SyncState::Done => {
                proof {
                    assert(false);
                }
                Err(ProtocolViolation::ShortRead)
            },
        }
    }

    fn is_awaiting_response(&self) -> (b: bool)
        ensures
            b == awaits_response(self.expected),
    {
        match self.expected {
            Some(c) => match c {
                Command::Request => false,
                _ => true,
            },
            None => false,
        }
    }
}

/// The direction marker fits the outstanding request: a solicited
/// command other than `Request` is answered by a response frame echoing
/// its opcode; everything else must be a measurement push.
pub open spec fn spec_direction_ok(expected: Option<Command>, frame: Seq<u8>) -> bool {
    if awaits_response(expected) {
        frame[1] == RESPONSE_BYTE && spec_command_from_byte(frame[2]) == expected
    } else {
        frame[1] == RECEIVE_BYTE
    }
}

/// The next-to-last byte is the checksum of the frame before it.
pub open spec fn spec_checksum_ok(frame: Seq<u8>) -> bool {
    spec_generate_checksum(frame.subrange(0, frame.len() - 2)) == Some(
        frame[frame.len() - 2],
    )
}

/// The device id a frame carries: the two bytes before the checksum.
pub open spec fn spec_frame_id(frame: Seq<u8>) -> Seq<u8> {
    seq![frame[frame.len() - 4], frame[frame.len() - 3]]
}

/// The frame either names the device observed before, or is the first to
/// name one.
pub open spec fn spec_id_ok(prior: Option<[u8; 2]>, frame: Seq<u8>) -> bool {
    match prior {
        None => true,
        Some(ex) => ex@ == spec_frame_id(frame),
    }
}

/// Everything a complete frame must pass to be trusted.
pub open spec fn spec_frame_valid(
    expected: Option<Command>,
    frame: Seq<u8>,
    prior_id: Option<[u8; 2]>,
) -> bool {
    &&& spec_direction_ok(expected, frame)
    &&& spec_checksum_ok(frame)
    &&& spec_id_ok(prior_id, frame)
}

/// Law: a corrupted checksum byte is always caught. Take any frame whose
/// checksum byte is the one owed by its contents; replacing that byte
/// with any other value leaves a frame that no expectation and no prior
/// device id will accept.
pub proof fn lemma_corrupted_checksum_rejected(
    expected: Option<Command>,
    frame: Seq<u8>,
    prior_id: Option<[u8; 2]>,
    bad: u8,
)
    requires
        frame.len() == RESPONSE_LENGTH,
        spec_checksum_ok(frame),
        bad != frame[frame.len() - 2],
    ensures
        !spec_frame_valid(expected, frame.update(frame.len() - 2, bad), prior_id),
{
    let corrupted = frame.update(frame.len() - 2, bad);
    assert(corrupted.subrange(0, corrupted.len() - 2) =~= frame.subrange(0, frame.len() - 2));
}

/// The first check that fails on an invalid frame, in validation order.
pub open spec fn spec_validate_error(
    expected: Option<Command>,
    frame: Seq<u8>,
    prior_id: Option<[u8; 2]>,
) -> ProtocolViolation {
    if awaits_response(expected) && frame[1] != RESPONSE_BYTE {
        ProtocolViolation::UnexpectedDirection
    } else if awaits_response(expected) && spec_command_from_byte(frame[2]) != expected {
        ProtocolViolation::UnexpectedOpcode
    } else if !awaits_response(expected) && frame[1] != RECEIVE_BYTE {
        ProtocolViolation::UnexpectedDirection
    } else if !spec_checksum_ok(frame) {
        ProtocolViolation::ChecksumMismatch
    } else {
        ProtocolViolation::DeviceIdMismatch
    }
}

/// Validate a complete frame against the outstanding request and the
/// session's device id, in order: direction, opcode echo, checksum,
/// device id. The id is adopted on first observation. Any failure is
/// fatal for the frame — no partial credit — and leaves the record
/// unchanged.
pub fn validate_frame(
    expected: Option<Command>,
    frame: &Vec<u8>,
    info: &mut SensorInfo,
) -> (r: Result<(), ProtocolViolation>)
    requires
        frame@.len() == RESPONSE_LENGTH,
    ensures
        r is Ok <==> spec_frame_valid(expected, frame@, old(info).device_id),
        r matches Err(e) ==> e == spec_validate_error(expected, frame@, old(info).device_id)
            && *final(info) == *old(info),
        r is Ok ==> (final(info).device_id matches Some(id) && id@ == spec_frame_id(frame@)),
        final(info).firmware == old(info).firmware,
        final(info).report_mode == old(info).report_mode,
        final(info).work_state == old(info).work_state,
        final(info).duty_cycle == old(info).duty_cycle,
{
    let awaits = match expected {
        Some(c) => match c {
            Command::Request => false,
            _ => true,
        },
        None => false,
    };
    if awaits {
        if frame[1] != RESPONSE_BYTE {
            return Err(ProtocolViolation::UnexpectedDirection);
        }
        let cmd = expected.unwrap();
        match command_from_byte(frame[2]) {
            Some(c) => {
                if c != cmd {
                    return Err(ProtocolViolation::UnexpectedOpcode);
                }
            },
            None => {
                return Err(ProtocolViolation::UnexpectedOpcode);
            },
        }
    } else {
        if frame[1] != RECEIVE_BYTE {
            return Err(ProtocolViolation::UnexpectedDirection);
        }
    }

    let len = frame.len();
    let mut checksum_data: Vec<u8> = Vec::new();
    let mut i: usize = 0;
    while i < len - 2
        invariant
            i <= len - 2,
            len == frame@.len(),
            len == RESPONSE_LENGTH,
            checksum_data@ == frame@.subrange(0, i as int),
        decreases len - 2 - i,
    {
        proof {
            assert(frame@.subrange(0, i + 1int) =~= frame@.subrange(0, i as int).push(
                frame@[i as int],
            ));
        }
        checksum_data.push(frame[i]);
        i = i + 1;
    }
    let generated = generate_checksum(&checksum_data);
    let checksum_matches = match generated {
        Some(g) => g == frame[len - 2],
        None => false,
    };
    if !checksum_matches {
        return Err(ProtocolViolation::ChecksumMismatch);
    }

    let device_id: [u8; 2] = [frame[len - 4], frame[len - 3]];
    proof {
        assert(device_id@ =~= spec_frame_id(frame@));
    }
    info.observe_device_id(device_id)
}

} // verus!
