//! Reading motion data and the device's clock.
//!
//! Each read is one request and one decoding of what came back: the six data
//! words come in one read, so that they belong to one sample, and so do the
//! three bytes of the clock. Nothing is retried: how old a sample may be is
//! for the caller to decide.

use super::bus::Request;
use super::frame::{read_request, read_request_at, read_request_spec};
use super::ints::u24_from_le_bytes;
use super::regs::{InternalStatus, SensorTime0};
use crate::peripheral::Register;
use vstd::prelude::*;

verus! {

/// Address of the first of the twelve data registers: acceleration x, y, z,
/// then angular rate x, y, z, each as two bytes, low byte first.
pub const DATA_ADDRESS: u32 = 0x0c;

/// Bytes received by a read of the data registers: one filler and twelve of
/// payload.
pub const DATA_LEN: usize = 13;

/// Bytes received by a read of the clock: one filler and three of payload.
pub const SENSOR_TIME_LEN: usize = 4;

/// Bytes received by a read of one register: one filler and one of payload.
pub const REGISTER_LEN: usize = 2;

/// The clock wraps to zero after this many ticks.
pub const SENSOR_TIME_MODULUS: u32 = 0x100_0000;

/// The signed 16-bit number whose low byte is `low` and whose high byte is
/// `high`, in two's complement.
pub open spec fn i16_from_le_spec(low: u8, high: u8) -> int {
    if high < 0x80 {
        low + 0x100 * high
    } else {
        low + 0x100 * high - 0x1_0000
    }
}

/// The number of ticks whose three bytes are these, lowest first.
pub open spec fn sensor_time_spec(low: u8, middle: u8, high: u8) -> int {
    low + 0x100 * middle + 0x1_0000 * high
}

/// The signed 16-bit number whose low byte is `low` and whose high byte is
/// `high`.
pub fn i16_from_le(low: u8, high: u8) -> (value: i16)
    ensures
        value == i16_from_le_spec(low, high),
{
    let unsigned: i32 = low as i32 + 0x100 * (high as i32);
    if high < 0x80 {
        unsigned as i16
    } else {
        (unsigned - 0x1_0000) as i16
    }
}

/// The request that reads one sample.
pub fn data_request() -> (request: Request)
    ensures
        request@ == read_request_spec(DATA_ADDRESS, DATA_LEN as nat),
        request@.read_len() == DATA_LEN,
{
    read_request_at(DATA_ADDRESS, DATA_LEN)
}

/// One sample from what a read of the data registers received: acceleration
/// (x, y, z), then angular rate (x, y, z). The first byte is the filler.
pub fn data(buf: &[u8; 13]) -> (sample: ((i16, i16, i16), (i16, i16, i16)))
    ensures
        sample.0.0 == i16_from_le_spec(buf[1], buf[2]),
        sample.0.1 == i16_from_le_spec(buf[3], buf[4]),
        sample.0.2 == i16_from_le_spec(buf[5], buf[6]),
        sample.1.0 == i16_from_le_spec(buf[7], buf[8]),
        sample.1.1 == i16_from_le_spec(buf[9], buf[10]),
        sample.1.2 == i16_from_le_spec(buf[11], buf[12]),
{
    (
        (i16_from_le(buf[1], buf[2]), i16_from_le(buf[3], buf[4]), i16_from_le(buf[5], buf[6])),
        (i16_from_le(buf[7], buf[8]), i16_from_le(buf[9], buf[10]), i16_from_le(buf[11], buf[12])),
    )
}

/// The request that reads the clock.
pub fn sensor_time_request() -> (request: Request)
    ensures
        request@ == read_request_spec(SensorTime0::ADDRESS, SENSOR_TIME_LEN as nat),
        request@.read_len() == SENSOR_TIME_LEN,
{
    read_request::<SensorTime0>(SENSOR_TIME_LEN)
}

/// The clock from what a read of it received. The first byte is the filler.
/// The count has 24 bits, and so wraps from 16,777,215 to 0.
pub fn sensor_time(buf: &[u8; 4]) -> (ticks: u32)
    ensures
        ticks == sensor_time_spec(buf[1], buf[2], buf[3]),
        ticks < SENSOR_TIME_MODULUS,
{
    u24_from_le_bytes([buf[1], buf[2], buf[3]])
}

/// The request that reads the status of the configuration load.
pub fn status_request() -> (request: Request)
    ensures
        request@ == read_request_spec(InternalStatus::ADDRESS, REGISTER_LEN as nat),
        request@.read_len() == REGISTER_LEN,
{
    read_request::<InternalStatus>(REGISTER_LEN)
}

/// The status from what a read of it received.
pub fn status(buf: &[u8; 2]) -> (status: InternalStatus)
    ensures
        status == InternalStatus::decode_spec(buf[1]),
{
    read::<InternalStatus>(buf)
}

/// The register `T` from what a read of it received. The first byte is the
/// filler; the second is decoded.
pub fn read<T: Register>(buf: &[u8; 2]) -> (value: T)
    ensures
        value == T::decode_spec(buf[1]),
        value.well_formed(),
{
    T::decode(buf[1])
}

} // verus!
