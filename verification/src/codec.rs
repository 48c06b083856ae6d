//! Frame-level constants and the wire checksum.
//!
//! Every frame starts with [`SERIAL_START`], carries a direction marker as
//! its second byte, and ends with a checksum followed by [`SERIAL_END`].
//! The checksum of a window is the sum of its bytes from index 2 on,
//! accumulated with byte wraparound, reduced mod 255.

use vstd::arithmetic::div_mod::{lemma_add_mod_noop, lemma_mod_bound, lemma_small_mod};
use vstd::prelude::*;

use crate::commands::is_command_byte;
use crate::commands::command_from_byte;

verus! {

/// First byte of every frame on the wire.
pub const SERIAL_START: u8 = 0xAA;

/// Last byte of every frame on the wire.
pub const SERIAL_END: u8 = 0xAB;

/// Direction marker: host to device.
pub const SEND_BYTE: u8 = 0xB4;

/// Direction marker: device to host, replying to a query.
pub const RESPONSE_BYTE: u8 = 0xC5;

/// Direction marker: device to host, a spontaneous measurement push.
pub const RECEIVE_BYTE: u8 = 0xC0;

/// Filler that closes a command payload.
pub const COMMAND_TERMINATOR: u8 = 0xFF;

/// Length of a response or measurement frame.
pub const RESPONSE_LENGTH: usize = 10;

/// Length of an outgoing command frame.
pub const COMMAND_LENGTH: usize = 19;

/// Plain (unwrapped) sum of the bytes of a window.
pub open spec fn byte_sum(s: Seq<u8>) -> int
    decreases s.len(),
{
    if s.len() == 0 {
        0
    } else {
        byte_sum(s.drop_last()) + s.last()
    }
}

/// The wire checksum of a window: the byte sum, wrapped to a byte
/// (mod 256), then reduced mod 255.
pub open spec fn frame_checksum(s: Seq<u8>) -> u8 {
    (byte_sum(s) % 256 % 255) as u8
}

/// A window over which a checksum may be formed: 8 bytes (a response
/// without its checksum and end byte) or 17 (a command likewise), opening
/// with the start marker, a direction marker, and — unless the frame is a
/// measurement push — a recognized command opcode.
pub open spec fn checksum_window_ok(s: Seq<u8>) -> bool {
    &&& s.len() == RESPONSE_LENGTH - 2 || s.len() == COMMAND_LENGTH - 2
    &&& s[0] == SERIAL_START
    &&& s[1] == SEND_BYTE || s[1] == RECEIVE_BYTE || s[1] == RESPONSE_BYTE
    &&& s[1] != RECEIVE_BYTE ==> is_command_byte(s[2])
}

/// What [`generate_checksum`] returns on a window.
pub open spec fn spec_generate_checksum(s: Seq<u8>) -> Option<u8> {
    if checksum_window_ok(s) {
        Some(frame_checksum(s.subrange(2, s.len() as int)))
    } else {
        None
    }
}

proof fn lemma_byte_sum_bounds(s: Seq<u8>)
    ensures
        0 <= byte_sum(s) <= 255 * s.len(),
    decreases s.len(),
{
    if s.len() > 0 {
        lemma_byte_sum_bounds(s.drop_last());
    }
}

proof fn lemma_byte_sum_update(s1: Seq<u8>, s2: Seq<u8>, i: int)
    requires
        s1.len() == s2.len(),
        0 <= i < s1.len(),
        forall|j: int| 0 <= j < s1.len() && j != i ==> s1[j] == s2[j],
    ensures
        byte_sum(s2) == byte_sum(s1) - s1[i] + s2[i],
    decreases s1.len(),
{
    if i == s1.len() - 1 {
        assert(s1.drop_last() =~= s2.drop_last());
    } else {
        assert(forall|j: int|
            0 <= j < s1.drop_last().len() && j != i ==> s1.drop_last()[j] == s2.drop_last()[j]);
        lemma_byte_sum_update(s1.drop_last(), s2.drop_last(), i);
    }
}

/// Law: the checksum detects any single corrupted byte in the window.
/// Two windows that differ in exactly one byte carry the same checksum
/// only in one case out of 255: when their wrapped byte sums are 0 and
/// 255, which the reduction mod 255 maps to the same value.
pub proof fn lemma_checksum_single_byte_change(s1: Seq<u8>, s2: Seq<u8>, i: int)
    requires
        s1.len() == s2.len(),
        0 <= i < s1.len(),
        s1[i] != s2[i],
        forall|j: int| 0 <= j < s1.len() && j != i ==> s1[j] == s2[j],
    ensures
        frame_checksum(s1) == frame_checksum(s2) <==> (byte_sum(s1) % 256 == 0 && byte_sum(s2)
            % 256 == 255) || (byte_sum(s1) % 256 == 255 && byte_sum(s2) % 256 == 0),
{
    lemma_byte_sum_update(s1, s2, i);
    lemma_byte_sum_bounds(s1);
    lemma_byte_sum_bounds(s2);
    let a = byte_sum(s1) % 256;
    let b = byte_sum(s2) % 256;
    lemma_mod_bound(byte_sum(s1), 256);
    lemma_mod_bound(byte_sum(s2), 256);

    // The two wrapped sums differ: the sums differ by the one changed
    // byte, which is too small a difference to be a multiple of 256.
    let d = s2[i] - s1[i];
    assert(-255 <= d <= 255 && d != 0);
    lemma_add_mod_noop(byte_sum(s1), d, 256);
    assert((d % 256) != 0) by {
        if d > 0 {
            lemma_small_mod(d as nat, 256);
        } else {
            assert(d % 256 == (d + 256) % 256) by {
                lemma_add_mod_noop(d, 256, 256);
                lemma_mod_bound(d, 256);
            }
            lemma_small_mod((d + 256) as nat, 256);
        }
    }
    assert(a != b) by {
        if a == b {
            lemma_add_mod_noop(byte_sum(s1) % 256, d % 256, 256);
            lemma_mod_bound(d, 256);
            lemma_small_mod(a as nat, 256);
            if a + d % 256 < 256 {
                lemma_small_mod((a + d % 256) as nat, 256);
            } else {
                lemma_add_mod_noop(a + d % 256, -256, 256);
                lemma_small_mod((a + d % 256 - 256) as nat, 256);
            }
        }
    }

    // Distinct values below 256 collide mod 255 exactly when they are 0
    // and 255.
    if a < 255 {
        lemma_small_mod(a as nat, 255);
    }
    if b < 255 {
        lemma_small_mod(b as nat, 255);
    }
}

/// Checksum a window, refusing one whose length, start marker, direction
/// marker or command opcode is wrong.
pub fn generate_checksum(data: &Vec<u8>) -> (r: Option<u8>)
    ensures
        r == spec_generate_checksum(data@),
{
    let n = data.len();
    if n != RESPONSE_LENGTH - 2 && n != COMMAND_LENGTH - 2 {
        return None;
    }
    if data[0] != SERIAL_START {
        return None;
    }
    let second = data[1];
    if second != SEND_BYTE && second != RECEIVE_BYTE && second != RESPONSE_BYTE {
        return None;
    }
    if second != RECEIVE_BYTE && command_from_byte(data[2]).is_none() {
        return None;
    }
    let mut checksum: u8 = 0;
    let mut i: usize = 2;
    while i < n
        invariant
            2 <= i <= n,
            n == data@.len(),
            n == 8 || n == 17,
            checksum == byte_sum(data@.subrange(2, i as int)) % 256,
        decreases n - i,
    {
        proof {
            let prefix = data@.subrange(2, i as int);
            let next = data@.subrange(2, i + 1int);
            assert(next.drop_last() =~= prefix);
            lemma_byte_sum_bounds(prefix);
            lemma_mod_bound(byte_sum(prefix), 256);
            lemma_small_mod(data@[i as int] as nat, 256);
            lemma_add_mod_noop(byte_sum(prefix), data@[i as int] as int, 256);
        }
        checksum = checksum.wrapping_add(data[i]);
        i = i + 1;
    }
    proof {
        assert(data@.subrange(2, n as int) =~= data@.subrange(2, i as int));
        lemma_byte_sum_bounds(data@.subrange(2, n as int));
        lemma_mod_bound(byte_sum(data@.subrange(2, n as int)), 256);
    }
    Some(checksum % 255)
}

} // verus!
