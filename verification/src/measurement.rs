//! Decoding the payload of a measurement frame.
//!
//! Bytes 2..6 of a measurement frame hold two 16-bit little-endian raw
//! counts, PM2.5 then PM10, each in tenths of a microgram per cubic
//! metre. The decoded value keeps the counts in tenths — exactly what the
//! wire carries — and stamps the moment the frame was validated: the
//! protocol carries no device-side timestamp.

use vstd::prelude::*;

use crate::codec::RESPONSE_LENGTH;

verus! {

/// One decoded reading: concentrations in tenths of µg/m³, and the
/// milliseconds since the Unix epoch at which the frame was accepted.
#[derive(Debug, PartialEq, Eq, Clone, Copy, Structural)]
pub struct SensorMeasurement {
    /// PM2.5 concentration, tenths of µg/m³.
    pub pm2_5_tenths: u16,
    /// PM10 concentration, tenths of µg/m³.
    pub pm10_tenths: u16,
    /// Capture time, milliseconds since the Unix epoch.
    pub timestamp_millis: i64,
}

/// The 16-bit little-endian count starting at byte `i` of a frame.
pub open spec fn spec_le_count(frame: Seq<u8>, i: int) -> int {
    frame[i] + 256 * frame[i + 1]
}

/// Relies on `chrono::Utc::now` and `chrono::DateTime::timestamp_millis`:
/// the current time of the system clock, as non-leap-milliseconds since
/// the Unix epoch. `Utc::now` only returns when the clock is at or after
/// the epoch, so the result is never negative.
#[verifier::external_body]
fn now_millis() -> (r: i64)
    ensures
        r >= 0,
{
    chrono::Utc::now().timestamp_millis()
}

/// Decode the raw counts of a validated measurement frame, stamping it
/// with the given capture time.
pub fn decode_measurement(frame: &Vec<u8>, timestamp_millis: i64) -> (m: SensorMeasurement)
    requires
        frame@.len() == RESPONSE_LENGTH,
    ensures
        m.pm2_5_tenths == spec_le_count(frame@, 2),
        m.pm10_tenths == spec_le_count(frame@, 4),
        m.timestamp_millis == timestamp_millis,
{
    let pm2_5_tenths: u16 = frame[2] as u16 + 256 * frame[3] as u16;
    let pm10_tenths: u16 = frame[4] as u16 + 256 * frame[5] as u16;
    SensorMeasurement { pm2_5_tenths, pm10_tenths, timestamp_millis }
}

/// Decode a validated measurement frame and stamp it with the current
/// time. The capture time is assigned now, when the frame has been
/// validated, not when the device sampled it.
pub fn get_measurement(frame: &Vec<u8>) -> (m: SensorMeasurement)
    requires
        frame@.len() == RESPONSE_LENGTH,
    ensures
        m.pm2_5_tenths == spec_le_count(frame@, 2),
        m.pm10_tenths == spec_le_count(frame@, 4),
        m.timestamp_millis >= 0,
{
    let timestamp_millis = now_millis();
    decode_measurement(frame, timestamp_millis)
}

} // verus!
