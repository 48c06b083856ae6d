//! Sensor state: what has been learned about the device so far.
//!
//! The record starts empty and is filled in lazily as queries succeed.
//! The device id is adopted from the first validated frame and must match
//! on every later one: a mismatch means cross-talk from another device on
//! the same line, and the frame cannot be trusted.

use vstd::prelude::*;

use crate::codec::RESPONSE_LENGTH;
use crate::commands::{
    Command, CommandMode, ReportMode, SendData, WorkState, report_mode_from_byte,
    spec_report_mode_from_byte, spec_work_state_byte,
};
use crate::errors::ProtocolViolation;

verus! {

/// Everything known about the sensor at some point in a session.
#[derive(Debug)]
pub struct SensorInfo {
    /// Firmware version, three bytes, as the firmware query reports it.
    pub firmware: Option<[u8; 3]>,
    /// Whether the sensor pushes measurements or waits to be asked.
    pub report_mode: Option<ReportMode>,
    /// Whether the sensor is asleep or measuring.
    pub work_state: Option<WorkState>,
    /// Minutes between spontaneous pushes; 0 means continuous reporting.
    pub duty_cycle: Option<u8>,
    /// The id of the device this session is bound to.
    pub device_id: Option<[u8; 2]>,
}

impl Default for SensorInfo {
    /// A record with nothing observed yet.
    fn default() -> (info: Self)
        ensures
            info.firmware is None,
            info.report_mode is None,
            info.work_state is None,
            info.duty_cycle is None,
            info.device_id is None,
    {
        SensorInfo {
            firmware: None,
            report_mode: None,
            work_state: None,
            duty_cycle: None,
            device_id: None,
        }
    }
}

impl SensorInfo {
    /// Law: once a device id is observed it is pinned. The first observed
    /// id is adopted; afterwards an equal id is accepted and any other id
    /// is rejected, leaving the record unchanged.
    pub fn observe_device_id(&mut self, id: [u8; 2]) -> (r: Result<(), ProtocolViolation>)
        ensures
            r is Ok <==> (old(self).device_id is None || (old(self).device_id matches Some(ex)
                && ex@ == id@)),
            r is Err ==> r == Err::<(), ProtocolViolation>(ProtocolViolation::DeviceIdMismatch)
                && *final(self) == *old(self),
            r is Ok ==> final(self).device_id == Some(id),
            final(self).firmware == old(self).firmware,
            final(self).report_mode == old(self).report_mode,
            final(self).work_state == old(self).work_state,
            final(self).duty_cycle == old(self).duty_cycle,
    {
        match self.device_id {
            None => {
                self.device_id = Some(id);
                Ok(())
            },
            Some(existing) => {
                if existing[0] == id[0] && existing[1] == id[1] {
                    proof {
                        assert(existing@ =~= id@);
                    }
                    self.device_id = Some(id);
                    Ok(())
                } else {
                    Err(ProtocolViolation::DeviceIdMismatch)
                }
            },
        }
    }
}

/// The decimal digit `d` as a character.
pub open spec fn spec_digit_char(d: int) -> char {
    if d == 0 {
        '0'
    } else if d == 1 {
        '1'
    } else if d == 2 {
        '2'
    } else if d == 3 {
        '3'
    } else if d == 4 {
        '4'
    } else if d == 5 {
        '5'
    } else if d == 6 {
        '6'
    } else if d == 7 {
        '7'
    } else if d == 8 {
        '8'
    } else {
        '9'
    }
}

/// A byte in decimal, zero-padded on the left to at least two digits.
pub open spec fn spec_two_digit(b: int) -> Seq<char> {
    if b < 100 {
        seq![spec_digit_char(b / 10), spec_digit_char(b % 10)]
    } else {
        seq![spec_digit_char(b / 100), spec_digit_char((b / 10) % 10), spec_digit_char(b % 10)]
    }
}

/// The firmware version rendered as text: each byte in decimal, padded
/// to two digits, concatenated.
pub open spec fn spec_firmware_chars(fw: [u8; 3]) -> Seq<char> {
    spec_two_digit(fw[0] as int) + spec_two_digit(fw[1] as int) + spec_two_digit(fw[2] as int)
}

/// Relies on `String::push`: appends the given character to the end of
/// the string.
#[verifier::external_body]
fn push_char(s: &mut String, c: char)
    ensures
        final(s)@ == old(s)@.push(c),
{
    s.push(c)
}

fn digit_char(d: u8) -> (c: char)
    requires
        d < 10,
    ensures
        c == spec_digit_char(d as int),
{
    match d {
        0 => '0',
        1 => '1',
        2 => '2',
        3 => '3',
        4 => '4',
        5 => '5',
        6 => '6',
        7 => '7',
        8 => '8',
        _ => '9',
    }
}

fn push_two_digits(s: &mut String, b: u8)
    ensures
        final(s)@ == old(s)@ + spec_two_digit(b as int),
{
    if b < 100 {
        push_char(s, digit_char(b / 10));
        push_char(s, digit_char(b % 10));
    } else {
        push_char(s, digit_char(b / 100));
        push_char(s, digit_char((b / 10) % 10));
        push_char(s, digit_char(b % 10));
    }
    proof {
        assert(s@ =~= old(s)@ + spec_two_digit(b as int));
    }
}

fn copy_range(v: &Vec<u8>, from: usize, to: usize) -> (r: Vec<u8>)
    requires
        from <= to <= v@.len(),
    ensures
        r@ == v@.subrange(from as int, to as int),
{
    let mut r: Vec<u8> = Vec::new();
    let mut i: usize = from;
    while i < to
        invariant
            from <= i <= to <= v@.len(),
            r@ == v@.subrange(from as int, i as int),
        decreases to - i,
    {
        proof {
            assert(v@.subrange(from as int, i + 1int) =~= v@.subrange(from as int, i as int).push(
                v@[i as int],
            ));
        }
        r.push(v[i]);
        i = i + 1;
    }
    r
}

/// What a send hands back to its caller once the reply is validated: for
/// any command but `Request`, the 3 header bytes and the trailing
/// checksum and end byte are stripped, leaving the 5-byte parameter
/// payload. A `Request` reply is a whole measurement frame and is
/// returned untouched.
pub fn strip_response(command: Command, response: &Vec<u8>) -> (r: Vec<u8>)
    requires
        response@.len() == RESPONSE_LENGTH,
    ensures
        command != Command::Request ==> r@ == response@.subrange(3, RESPONSE_LENGTH - 2),
        command == Command::Request ==> r@ == response@,
{
    let matches_request = match command {
        Command::Request => true,
        _ => false,
    };
    if !matches_request {
        copy_range(response, 3, response.len() - 2)
    } else {
        let r = copy_range(response, 0, response.len());
        proof {
            assert(response@.subrange(0, response@.len() as int) =~= response@);
        }
        r
    }
}

/// Where the information query stands.
#[derive(Debug, PartialEq, Eq, Clone, Copy, Structural)]
pub enum InfoStage {
    /// Read one unsolicited frame first, to learn whether the device is
    /// awake at all.
    Start,
    /// The first read produced nothing: wake the device by setting its
    /// work state to measuring.
    WakeWork,
    /// Then set its duty cycle to 0 (continuous reporting).
    WakeDuty,
    /// Ask for the duty cycle.
    QueryDuty,
    /// Ask for the report mode.
    QueryReport,
    /// Ask for the firmware version.
    QueryFirmware,
    /// Every field has been folded into the record.
    Done,
}

/// The next outside step an information query needs from its caller.
#[derive(Debug)]
pub enum InfoAction {
    /// Read one unsolicited frame from the transport.
    ReadFrame,
    /// Send this command and await its reply.
    Send(SendData),
    /// Nothing: the query is complete.
    Finished,
}

/// The information query: reads the device's duty cycle, report mode and
/// firmware version into a [`SensorInfo`], waking the device first if it
/// produced nothing. The caller owns the transport and performs each
/// [`InfoAction`]; this machine decides what comes next and folds the
/// payloads into the record.
pub struct InfoQuery {
    pub stage: InfoStage,
}

impl InfoQuery {
    pub fn new() -> (q: Self)
        ensures
            q.stage == InfoStage::Start,
    {
        InfoQuery { stage: InfoStage::Start }
    }

    /// What the caller must do next.
    pub fn next_action(&self) -> (a: InfoAction)
        ensures
            match self.stage {
                InfoStage::Start => a is ReadFrame,
                InfoStage::WakeWork => a matches InfoAction::Send(sd) && sd.command
                    == Command::WorkState && sd.mode == CommandMode::Setting && sd.data@ == seq![
                    spec_work_state_byte(WorkState::Measuring),
                ],
                InfoStage::WakeDuty => a matches InfoAction::Send(sd) && sd.command
                    == Command::DutyCycle && sd.mode == CommandMode::Setting && sd.data@ == seq![
                    0u8,
                ],
                InfoStage::QueryDuty => a matches InfoAction::Send(sd) && sd.command
                    == Command::DutyCycle && sd.mode == CommandMode::Getting && sd.data@ == seq![
                    0u8,
                ],
                InfoStage::QueryReport => a matches InfoAction::Send(sd) && sd.command
                    == Command::ReportMode && sd.mode == CommandMode::Getting && sd.data@ == seq![
                    0u8,
                ],
                InfoStage::QueryFirmware => a matches InfoAction::Send(sd) && sd.command
                    == Command::Firmware && sd.mode == CommandMode::Getting && sd.data@ == seq![
                    0u8,
                ],
                InfoStage::Done => a is Finished,
            },
    {
        match self.stage {
            InfoStage::Start => InfoAction::ReadFrame,
            InfoStage::WakeWork => InfoAction::Send(SendData::set_work_state(WorkState::Measuring)),
            InfoStage::WakeDuty => InfoAction::Send(SendData::set_duty_cycle(0)),
            InfoStage::QueryDuty => InfoAction::Send(SendData::get_duty_cycle()),
            InfoStage::QueryReport => InfoAction::Send(SendData::get_report_mode()),
            InfoStage::QueryFirmware => InfoAction::Send(SendData::get_firmware()),
            InfoStage::Done => InfoAction::Finished,
        }
    }

    /// The first unsolicited read came back. Empty means the device is
    /// presumed asleep: wake it before querying. Otherwise go straight
    /// to the parameter queries.
    pub fn on_first_frame(&mut self, empty: bool)
        requires
            old(self).stage == InfoStage::Start,
        ensures
            final(self).stage == if empty {
                InfoStage::WakeWork
            } else {
                InfoStage::QueryDuty
            },
    {
        if empty {
            self.stage = InfoStage::WakeWork;
        } else {
            self.stage = InfoStage::QueryDuty;
        }
    }

    /// A wake command was sent and answered; its payload carries nothing
    /// the record needs.
    pub fn on_wake_ack(&mut self)
        requires
            old(self).stage == InfoStage::WakeWork || old(self).stage == InfoStage::WakeDuty,
        ensures
            final(self).stage == if old(self).stage == InfoStage::WakeWork {
                InfoStage::WakeDuty
            } else {
                InfoStage::QueryDuty
            },
    {
        match self.stage {
            InfoStage::WakeWork => {
                self.stage = InfoStage::WakeDuty;
            },
            _ => {
                self.stage = InfoStage::QueryDuty;
            },
        }
    }

    /// Fold the 5-byte payload answering the current parameter query
    /// into the record and move to the next query. The duty cycle and
    /// the report mode sit in the payload's second byte; the firmware
    /// version is its first three bytes. With the last answer the work
    /// state is recorded as measuring — the queries themselves keep the
    /// device awake.
    pub fn on_payload(&mut self, info: &mut SensorInfo, payload: &Vec<u8>)
        requires
            old(self).stage == InfoStage::QueryDuty || old(self).stage == InfoStage::QueryReport
                || old(self).stage == InfoStage::QueryFirmware,
            payload@.len() == RESPONSE_LENGTH - 5,
        ensures
            match old(self).stage {
                InfoStage::QueryDuty => {
                    &&& final(self).stage == InfoStage::QueryReport
                    &&& final(info).duty_cycle == Some(payload@[1])
                    &&& final(info).firmware == old(info).firmware
                    &&& final(info).report_mode == old(info).report_mode
                    &&& final(info).work_state == old(info).work_state
                    &&& final(info).device_id == old(info).device_id
                },
                InfoStage::QueryReport => {
                    &&& final(self).stage == InfoStage::QueryFirmware
                    &&& final(info).report_mode == spec_report_mode_from_byte(payload@[1])
                    &&& final(info).firmware == old(info).firmware
                    &&& final(info).duty_cycle == old(info).duty_cycle
                    &&& final(info).work_state == old(info).work_state
                    &&& final(info).device_id == old(info).device_id
                },
                InfoStage::QueryFirmware => {
                    &&& final(self).stage == InfoStage::Done
                    &&& final(info).firmware matches Some(fw) && fw@ == seq![
                        payload@[0],
                        payload@[1],
                        payload@[2],
                    ]
                    &&& final(info).work_state == Some(WorkState::Measuring)
                    &&& final(info).report_mode == old(info).report_mode
                    &&& final(info).duty_cycle == old(info).duty_cycle
                    &&& final(info).device_id == old(info).device_id
                },
                _ => false,
            },
    {
        match self.stage {
            InfoStage::QueryDuty => {
                info.duty_cycle = Some(payload[1]);
                self.stage = InfoStage::QueryReport;
            },
            InfoStage::QueryReport => {
                info.report_mode = report_mode_from_byte(payload[1]);
                self.stage = InfoStage::QueryFirmware;
            },
            InfoStage::QueryFirmware => {
                let fw: [u8; 3] = [payload[0], payload[1], payload[2]];
                proof {
                    assert(fw@ =~= seq![payload@[0], payload@[1], payload@[2]]);
                }
                info.firmware = Some(fw);
                info.work_state = Some(WorkState::Measuring);
                self.stage = InfoStage::Done;
            },
            _ => {
                proof {
                    assert(false);
                }
            },
        }
    }
}

impl SensorInfo {
    /// The firmware version as text, if a firmware query has succeeded.
    pub fn firmware_string(&self) -> (r: Option<String>)
        ensures
            match self.firmware {
                Some(fw) => r matches Some(s) && s@ == spec_firmware_chars(fw),
                None => r is None,
            },
    {
        if let Some(firmware) = self.firmware {
            let mut s = String::new();
            push_two_digits(&mut s, firmware[0]);
            push_two_digits(&mut s, firmware[1]);
            push_two_digits(&mut s, firmware[2]);
            proof {
                assert(s@ =~= spec_firmware_chars(firmware));
            }
            Some(s)
        } else {
            None
        }
    }
}

} // verus!
