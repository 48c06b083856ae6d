//! The typed command set of the sensor and its byte-level encoding.

use vstd::prelude::*;

use crate::codec::{
    COMMAND_LENGTH, COMMAND_TERMINATOR, SEND_BYTE, SERIAL_END, SERIAL_START, frame_checksum,
    generate_checksum,
};

verus! {

/// Operations the sensor accepts, one 8-bit opcode each.
#[derive(Debug, PartialEq, Eq, Clone, Copy, Structural)]
pub enum Command {
    ReportMode,
    Request,
    DeviceId,
    WorkState,
    Firmware,
    DutyCycle,
}

/// Whether a command queries the current setting or changes it.
#[derive(Debug, PartialEq, Eq, Clone, Copy, Structural)]
pub enum CommandMode {
    Getting,
    Setting,
}

/// How the sensor reports: pushing measurements on its own (`Initiative`)
/// or only when asked (`Passive`).
#[derive(Debug, PartialEq, Eq, Clone, Copy, Structural)]
pub enum ReportMode {
    Initiative,
    Passive,
}

/// Whether the sensor is asleep (fan off, no data) or measuring.
#[derive(Debug, PartialEq, Eq, Clone, Copy, Structural)]
pub enum WorkState {
    Sleeping,
    Measuring,
}

/// The opcode of a command on the wire.
pub open spec fn spec_command_byte(c: Command) -> u8 {
    match c {
        Command::ReportMode => 2,
        Command::Request => 4,
        Command::DeviceId => 5,
        Command::WorkState => 6,
        Command::Firmware => 7,
        Command::DutyCycle => 8,
    }
}

/// The command whose opcode is `b`, if `b` is an opcode at all.
pub open spec fn spec_command_from_byte(b: u8) -> Option<Command> {
    if b == 2 {
        Some(Command::ReportMode)
    } else if b == 4 {
        Some(Command::Request)
    } else if b == 5 {
        Some(Command::DeviceId)
    } else if b == 6 {
        Some(Command::WorkState)
    } else if b == 7 {
        Some(Command::Firmware)
    } else if b == 8 {
        Some(Command::DutyCycle)
    } else {
        None
    }
}

/// `b` is the opcode of some command.
pub open spec fn is_command_byte(b: u8) -> bool {
    spec_command_from_byte(b) is Some
}

pub fn command_byte(c: Command) -> (b: u8)
    ensures
        b == spec_command_byte(c),
{
    match c {
        Command::ReportMode => 2,
        Command::Request => 4,
        Command::DeviceId => 5,
        Command::WorkState => 6,
        Command::Firmware => 7,
        Command::DutyCycle => 8,
    }
}

pub fn command_from_byte(b: u8) -> (c: Option<Command>)
    ensures
        c == spec_command_from_byte(b),
{
    match b {
        2 => Some(Command::ReportMode),
        4 => Some(Command::Request),
        5 => Some(Command::DeviceId),
        6 => Some(Command::WorkState),
        7 => Some(Command::Firmware),
        8 => Some(Command::DutyCycle),
        _ => None,
    }
}

/// The byte that selects getting or setting in a command frame.
pub open spec fn spec_mode_byte(m: CommandMode) -> u8 {
    match m {
        CommandMode::Getting => 0,
        CommandMode::Setting => 1,
    }
}

pub fn mode_byte(m: CommandMode) -> (b: u8)
    ensures
        b == spec_mode_byte(m),
{
    match m {
        CommandMode::Getting => 0,
        CommandMode::Setting => 1,
    }
}

/// The byte that stands for a report mode in a response payload.
pub open spec fn spec_report_mode_from_byte(b: u8) -> Option<ReportMode> {
    if b == 0 {
        Some(ReportMode::Initiative)
    } else if b == 1 {
        Some(ReportMode::Passive)
    } else {
        None
    }
}

pub fn report_mode_from_byte(b: u8) -> (m: Option<ReportMode>)
    ensures
        m == spec_report_mode_from_byte(b),
{
    match b {
        0 => Some(ReportMode::Initiative),
        1 => Some(ReportMode::Passive),
        _ => None,
    }
}

/// The byte that stands for a work state in a command payload.
pub open spec fn spec_work_state_byte(w: WorkState) -> u8 {
    match w {
        WorkState::Sleeping => 0,
        WorkState::Measuring => 1,
    }
}

pub fn work_state_byte(w: WorkState) -> (b: u8)
    ensures
        b == spec_work_state_byte(w),
{
    match w {
        WorkState::Sleeping => 0,
        WorkState::Measuring => 1,
    }
}

/// The payload window of a command frame: the command's data bytes,
/// zero-padded (or cut) to exactly 11 bytes.
pub open spec fn spec_padded_payload(data: Seq<u8>) -> Seq<u8> {
    Seq::new(11, |i: int| if i < data.len() { data[i] } else { 0u8 })
}

/// A command frame up to (not including) its checksum byte: start marker,
/// send marker, opcode, mode, 11 payload bytes, two terminators.
pub open spec fn spec_command_body(c: Command, m: CommandMode, data: Seq<u8>) -> Seq<u8> {
    seq![SERIAL_START, SEND_BYTE, spec_command_byte(c), spec_mode_byte(m)]
        + spec_padded_payload(data) + seq![COMMAND_TERMINATOR, COMMAND_TERMINATOR]
}

/// A whole 19-byte command frame: the body, its checksum, the end marker.
pub open spec fn spec_command_frame(c: Command, m: CommandMode, data: Seq<u8>) -> Seq<u8> {
    spec_command_body(c, m, data).push(
        frame_checksum(spec_command_body(c, m, data).subrange(2, 17)),
    ).push(SERIAL_END)
}

/// A command, the mode it is issued in, and its data bytes, ready to be
/// encoded into a frame.
#[derive(Debug)]
pub struct SendData {
    pub command: Command,
    pub mode: CommandMode,
    pub data: Vec<u8>,
}

impl SendData {
    /// Query the duty cycle: the interval in minutes between spontaneous
    /// measurement pushes (0 means continuous reporting).
    pub fn get_duty_cycle() -> (s: Self)
        ensures
            s.command == Command::DutyCycle,
            s.mode == CommandMode::Getting,
            s.data@ == seq![0u8],
    {
        SendData::new(Command::DutyCycle, CommandMode::Getting, 0)
    }

    /// Query whether the sensor reports on its own or only on request.
    pub fn get_report_mode() -> (s: Self)
        ensures
            s.command == Command::ReportMode,
            s.mode == CommandMode::Getting,
            s.data@ == seq![0u8],
    {
        SendData::new(Command::ReportMode, CommandMode::Getting, 0)
    }

    /// Query the firmware version.
    pub fn get_firmware() -> (s: Self)
        ensures
            s.command == Command::Firmware,
            s.mode == CommandMode::Getting,
            s.data@ == seq![0u8],
    {
        SendData::new(Command::Firmware, CommandMode::Getting, 0)
    }

    /// Set the duty cycle to `value` minutes (0 for continuous reporting).
    pub fn set_duty_cycle(value: u8) -> (s: Self)
        ensures
            s.command == Command::DutyCycle,
            s.mode == CommandMode::Setting,
            s.data@ == seq![value],
    {
        SendData::new(Command::DutyCycle, CommandMode::Setting, value)
    }

    /// Put the sensor to sleep or wake it up.
    pub fn set_work_state(work_state: WorkState) -> (s: Self)
        ensures
            s.command == Command::WorkState,
            s.mode == CommandMode::Setting,
            s.data@ == seq![spec_work_state_byte(work_state)],
    {
        SendData::new(Command::WorkState, CommandMode::Setting, work_state_byte(work_state))
    }

    pub fn new(command: Command, mode: CommandMode, value: u8) -> (s: Self)
        ensures
            s.command == command,
            s.mode == mode,
            s.data@ == seq![value],
    {
        let mut data: Vec<u8> = Vec::new();
        data.push(value);
        proof {
            assert(data@ =~= seq![value]);
        }
        SendData { command, mode, data }
    }

    /// Encode the command as a frame of exactly [`COMMAND_LENGTH`] bytes.
    pub fn to_command_data(&self) -> (r: Vec<u8>)
        ensures
            r@ == spec_command_frame(self.command, self.mode, self.data@),
            r@.len() == COMMAND_LENGTH,
    {
        let ghost body = spec_command_body(self.command, self.mode, self.data@);
        proof {
            assert(body.len() == 17);
        }
        let command = command_byte(self.command);
        let mode = mode_byte(self.mode);
        let mut bytes_to_send: Vec<u8> = Vec::new();
        bytes_to_send.push(SERIAL_START);
        bytes_to_send.push(SEND_BYTE);
        bytes_to_send.push(command);
        bytes_to_send.push(mode);

        let mut i: usize = 0;
        while i < 11
            invariant
                i <= 11,
                body == spec_command_body(self.command, self.mode, self.data@),
                body.len() == 17,
                bytes_to_send@.len() == 4 + i,
                bytes_to_send@ == body.subrange(0, 4 + i),
            decreases 11 - i,
        {
            proof {
                assert(body.subrange(0, 4 + i + 1).drop_last() =~= body.subrange(0, 4 + i));
            }
            if i < self.data.len() {
                bytes_to_send.push(self.data[i]);
            } else {
                bytes_to_send.push(0);
            }
            i = i + 1;
        }
        bytes_to_send.push(COMMAND_TERMINATOR);
        bytes_to_send.push(COMMAND_TERMINATOR);
        proof {
            assert(bytes_to_send@ =~= body);
        }

        let checksum = generate_checksum(&bytes_to_send);
        proof {
            assert(body.len() == 17);
            assert(body[2] == spec_command_byte(self.command));
        }
        bytes_to_send.push(checksum.unwrap());
        bytes_to_send.push(SERIAL_END);
        proof {
            assert(bytes_to_send@ =~= spec_command_frame(self.command, self.mode, self.data@));
        }
        bytes_to_send
    }
}

} // verus!
