//! Typed protocol failures.
//!
//! A frame whose direction, opcode, checksum or device id is wrong is
//! untrustworthy as a whole: the operation that asked for it must abort
//! rather than guess. These variants name the first check that failed.

use vstd::prelude::*;

verus! {

/// A fatal protocol violation found while validating a frame.
#[derive(Debug, PartialEq, Eq, Clone, Copy, Structural)]
pub enum ProtocolViolation {
    /// The direction marker did not fit the outstanding request.
    UnexpectedDirection,
    /// The opcode did not echo the command that was sent.
    UnexpectedOpcode,
    /// The checksum byte did not match the one recomputed over the frame.
    ChecksumMismatch,
    /// The frame named a device other than the one first observed.
    DeviceIdMismatch,
    /// The transport handed back fewer bytes than the frame layout owes.
    ShortRead,
}

} // verus!
