//! Registers that the device fills and the host only reads.

use super::bits::lemma_low_bits;
use super::fields::{ErrorCode, InternalStatusMessage};
use crate::peripheral::Register;
use vstd::prelude::*;

verus! {

/// Identity of the device.
///
/// Register `0x00`; `0x24` after reset.
#[derive(Clone, Copy, Debug, PartialEq, Eq, Structural)]
pub struct ChipId {
    /// Identity code; fixed for one device family. (bits 7 to 0, read-only)
    pub id: u8,
}

impl ChipId {
    /// What the register holds after a reset.
    pub open spec fn reset_spec() -> Self {
        ChipId {
            id: 0x24,
        }
    }

    /// The byte that the register holds after a reset.
    pub const RESET: u8 = 0x24;

    /// The byte that the register holds after a reset.
    pub open spec fn reset_byte_spec() -> u8 {
        0x24
    }

    /// The fields that `byte` stands for. A field that cannot be read holds
    /// what it holds after a reset.
    pub open spec fn new_with_raw_value_spec(byte: u8) -> Self {
        ChipId {
            id: byte,
        }
    }

    /// The byte that is written for these fields. A field that cannot be
    /// written leaves its bits clear.
    pub open spec fn raw_value_spec(self) -> u8 {
        0
    }

    pub fn new_with_raw_value(byte: u8) -> (r: Self)
        ensures
            r == Self::new_with_raw_value_spec(byte),
    {
        ChipId {
            id: byte,
        }
    }

    pub fn raw_value(&self) -> (byte: u8)
        ensures
            byte == self.raw_value_spec(),
    {
        0
    }

    pub fn id(&self) -> (r: u8)
        ensures
            r == self.id,
    {
        self.id
    }

    /// The value after a reset is the value of the reset byte.
    pub proof fn lemma_reset()
        ensures
            Self::RESET == Self::reset_byte_spec(),
            Self::new_with_raw_value_spec(Self::reset_byte_spec()) == Self::reset_spec(),
    {
    }

    /// Each field holds what the byte holds at the field's place: decoding
    /// keeps every bit that can be read.
    pub proof fn lemma_decode_extracts_fields(byte: u8)
        ensures
            Self::new_with_raw_value_spec(byte).id == byte,
    {
    }
}

impl Default for ChipId {
    fn default() -> (r: Self)
        ensures
            r == Self::reset_spec(),
    {
        ChipId {
            id: 0x24,
        }
    }
}

impl Register for ChipId {
    const ADDRESS: u32 = 0x00;

    open spec fn address_spec() -> u32 {
        0x00
    }

    open spec fn decode_spec(byte: u8) -> Self {
        Self::new_with_raw_value_spec(byte)
    }

    open spec fn encode_spec(self) -> u8 {
        self.raw_value_spec()
    }

    open spec fn well_formed(self) -> bool {
        true
    }

    open spec fn read_write_mask() -> u8 {
        0x00
    }

    fn decode(byte: u8) -> (r: Self) {
        Self::new_with_raw_value(byte)
    }

    fn encode(&self) -> (byte: u8) {
        self.raw_value()
    }

    proof fn lemma_address() {
    }

    proof fn lemma_read_then_write(byte: u8) {
        lemma_low_bits(byte);
    }
}

/// Error flags, cleared when read.
///
/// Register `0x02`; `0x00` after reset.
#[derive(Clone, Copy, Debug, PartialEq, Eq, Structural)]
pub struct ErrReg {
    /// The device hit an error it cannot recover from. (bit 1, read-only)
    pub fatal_err: bool,
    /// Internal error code. (bits 4 to 1, read-only)
    pub internal_err: u8,
    /// The FIFO reported an error. (bit 6, read-only)
    pub fifo_err: bool,
    /// The auxiliary interface reported an error. (bit 7, read-only)
    pub aux_err: bool,
}

impl ErrReg {
    /// What the register holds after a reset.
    pub open spec fn reset_spec() -> Self {
        ErrReg {
            fatal_err: false,
            internal_err: 0x00,
            fifo_err: false,
            aux_err: false,
        }
    }

    /// The byte that the register holds after a reset.
    pub const RESET: u8 = 0x00;

    /// The byte that the register holds after a reset.
    pub open spec fn reset_byte_spec() -> u8 {
        0x00
    }

    /// The fields that `byte` stands for. A field that cannot be read holds
    /// what it holds after a reset.
    pub open spec fn new_with_raw_value_spec(byte: u8) -> Self {
        ErrReg {
            fatal_err: (byte >> 1) & 0x01 != 0,
            internal_err: (byte >> 1) & 0x0f,
            fifo_err: (byte >> 6) & 0x01 != 0,
            aux_err: (byte >> 7) & 0x01 != 0,
        }
    }

    /// The byte that is written for these fields. A field that cannot be
    /// written leaves its bits clear.
    pub open spec fn raw_value_spec(self) -> u8 {
        0
    }

    pub fn new_with_raw_value(byte: u8) -> (r: Self)
        ensures
            r == Self::new_with_raw_value_spec(byte),
            r.internal_err <= 0x0f,
    {
        proof {
            lemma_low_bits(byte);
            lemma_low_bits(byte >> 1);
        }
        ErrReg {
            fatal_err: (byte >> 1) & 0x01 != 0,
            internal_err: (byte >> 1) & 0x0f,
            fifo_err: (byte >> 6) & 0x01 != 0,
            aux_err: (byte >> 7) & 0x01 != 0,
        }
    }

    pub fn raw_value(&self) -> (byte: u8)
        ensures
            byte == self.raw_value_spec(),
    {
        0
    }

    pub fn fatal_err(&self) -> (r: bool)
        ensures
            r == self.fatal_err,
    {
        self.fatal_err
    }

    pub fn internal_err(&self) -> (r: u8)
        ensures
            r == self.internal_err,
    {
        self.internal_err
    }

    pub fn fifo_err(&self) -> (r: bool)
        ensures
            r == self.fifo_err,
    {
        self.fifo_err
    }

    pub fn aux_err(&self) -> (r: bool)
        ensures
            r == self.aux_err,
    {
        self.aux_err
    }

    /// The value after a reset is the value of the reset byte.
    pub proof fn lemma_reset()
        ensures
            Self::RESET == Self::reset_byte_spec(),
            Self::new_with_raw_value_spec(Self::reset_byte_spec()) == Self::reset_spec(),
    {
        assert((0x00u8 >> 1) & 0x01 == 0x00
            && (0x00u8 >> 1) & 0x0f == 0x00
            && (0x00u8 >> 6) & 0x01 == 0x00
            && (0x00u8 >> 7) & 0x01 == 0x00) by (bit_vector);
    }

    /// Each field holds what the byte holds at the field's place: decoding
    /// keeps every bit that can be read.
    pub proof fn lemma_decode_extracts_fields(byte: u8)
        ensures
            Self::new_with_raw_value_spec(byte).fatal_err == ((byte >> 1) & 0x01 == 1),
            Self::new_with_raw_value_spec(byte).internal_err == (byte >> 1) & 0x0f,
            Self::new_with_raw_value_spec(byte).fifo_err == ((byte >> 6) & 0x01 == 1),
            Self::new_with_raw_value_spec(byte).aux_err == ((byte >> 7) & 0x01 == 1),
    {
        lemma_low_bits(byte >> 1);
        lemma_low_bits(byte >> 6);
        lemma_low_bits(byte >> 7);
    }
}

impl Default for ErrReg {
    fn default() -> (r: Self)
        ensures
            r == Self::reset_spec(),
    {
        ErrReg {
            fatal_err: false,
            internal_err: 0x00,
            fifo_err: false,
            aux_err: false,
        }
    }
}

impl Register for ErrReg {
    const ADDRESS: u32 = 0x02;

    open spec fn address_spec() -> u32 {
        0x02
    }

    open spec fn decode_spec(byte: u8) -> Self {
        Self::new_with_raw_value_spec(byte)
    }

    open spec fn encode_spec(self) -> u8 {
        self.raw_value_spec()
    }

    open spec fn well_formed(self) -> bool {
        self.internal_err <= 0x0f
    }

    open spec fn read_write_mask() -> u8 {
        0x00
    }

    fn decode(byte: u8) -> (r: Self) {
        Self::new_with_raw_value(byte)
    }

    fn encode(&self) -> (byte: u8) {
        self.raw_value()
    }

    proof fn lemma_address() {
    }

    proof fn lemma_read_then_write(byte: u8) {
        lemma_low_bits(byte);
    }
}

/// Readiness flags of the sensors and the command decoder.
///
/// Register `0x03`; `0x10` after reset.
#[derive(Clone, Copy, Debug, PartialEq, Eq, Structural)]
pub struct Status {
    /// An auxiliary transfer is in progress. (bit 2, read-only)
    pub aux_busy: bool,
    /// The command decoder accepts a command. (bit 4, read-only)
    pub cmd_rdy: bool,
    /// Auxiliary data is ready. (bit 5, read-only)
    pub drdy_aux: bool,
    /// Gyroscope data is ready. (bit 6, read-only)
    pub drdy_gyr: bool,
    /// Accelerometer data is ready. (bit 7, read-only)
    pub drdy_acc: bool,
}

impl Status {
    /// What the register holds after a reset.
    pub open spec fn reset_spec() -> Self {
        Status {
            aux_busy: false,
            cmd_rdy: true,
            drdy_aux: false,
            drdy_gyr: false,
            drdy_acc: false,
        }
    }

    /// The byte that the register holds after a reset.
    pub const RESET: u8 = 0x10;

    /// The byte that the register holds after a reset.
    pub open spec fn reset_byte_spec() -> u8 {
        0x10
    }

    /// The fields that `byte` stands for. A field that cannot be read holds
    /// what it holds after a reset.
    pub open spec fn new_with_raw_value_spec(byte: u8) -> Self {
        Status {
            aux_busy: (byte >> 2) & 0x01 != 0,
            cmd_rdy: (byte >> 4) & 0x01 != 0,
            drdy_aux: (byte >> 5) & 0x01 != 0,
            drdy_gyr: (byte >> 6) & 0x01 != 0,
            drdy_acc: (byte >> 7) & 0x01 != 0,
        }
    }

    /// The byte that is written for these fields. A field that cannot be
    /// written leaves its bits clear.
    pub open spec fn raw_value_spec(self) -> u8 {
        0
    }

    pub fn new_with_raw_value(byte: u8) -> (r: Self)
        ensures
            r == Self::new_with_raw_value_spec(byte),
    {
        Status {
            aux_busy: (byte >> 2) & 0x01 != 0,
            cmd_rdy: (byte >> 4) & 0x01 != 0,
            drdy_aux: (byte >> 5) & 0x01 != 0,
            drdy_gyr: (byte >> 6) & 0x01 != 0,
            drdy_acc: (byte >> 7) & 0x01 != 0,
        }
    }

    pub fn raw_value(&self) -> (byte: u8)
        ensures
            byte == self.raw_value_spec(),
    {
        0
    }

    pub fn aux_busy(&self) -> (r: bool)
        ensures
            r == self.aux_busy,
    {
        self.aux_busy
    }

    pub fn cmd_rdy(&self) -> (r: bool)
        ensures
            r == self.cmd_rdy,
    {
        self.cmd_rdy
    }

    pub fn drdy_aux(&self) -> (r: bool)
        ensures
            r == self.drdy_aux,
    {
        self.drdy_aux
    }

    pub fn drdy_gyr(&self) -> (r: bool)
        ensures
            r == self.drdy_gyr,
    {
        self.drdy_gyr
    }

    pub fn drdy_acc(&self) -> (r: bool)
        ensures
            r == self.drdy_acc,
    {
        self.drdy_acc
    }

    /// The value after a reset is the value of the reset byte.
    pub proof fn lemma_reset()
        ensures
            Self::RESET == Self::reset_byte_spec(),
            Self::new_with_raw_value_spec(Self::reset_byte_spec()) == Self::reset_spec(),
    {
        assert((0x10u8 >> 2) & 0x01 == 0x00
            && (0x10u8 >> 4) & 0x01 == 0x01
            && (0x10u8 >> 5) & 0x01 == 0x00
            && (0x10u8 >> 6) & 0x01 == 0x00
            && (0x10u8 >> 7) & 0x01 == 0x00) by (bit_vector);
    }

    /// Each field holds what the byte holds at the field's place: decoding
    /// keeps every bit that can be read.
    pub proof fn lemma_decode_extracts_fields(byte: u8)
        ensures
            Self::new_with_raw_value_spec(byte).aux_busy == ((byte >> 2) & 0x01 == 1),
            Self::new_with_raw_value_spec(byte).cmd_rdy == ((byte >> 4) & 0x01 == 1),
            Self::new_with_raw_value_spec(byte).drdy_aux == ((byte >> 5) & 0x01 == 1),
            Self::new_with_raw_value_spec(byte).drdy_gyr == ((byte >> 6) & 0x01 == 1),
            Self::new_with_raw_value_spec(byte).drdy_acc == ((byte >> 7) & 0x01 == 1),
    {
        lemma_low_bits(byte >> 2);
        lemma_low_bits(byte >> 4);
        lemma_low_bits(byte >> 5);
        lemma_low_bits(byte >> 6);
        lemma_low_bits(byte >> 7);
    }
}

impl Default for Status {
    fn default() -> (r: Self)
        ensures
            r == Self::reset_spec(),
    {
        Status {
            aux_busy: false,
            cmd_rdy: true,
            drdy_aux: false,
            drdy_gyr: false,
            drdy_acc: false,
        }
    }
}

impl Register for Status {
    const ADDRESS: u32 = 0x03;

    open spec fn address_spec() -> u32 {
        0x03
    }

    open spec fn decode_spec(byte: u8) -> Self {
        Self::new_with_raw_value_spec(byte)
    }

    open spec fn encode_spec(self) -> u8 {
        self.raw_value_spec()
    }

    open spec fn well_formed(self) -> bool {
        true
    }

    open spec fn read_write_mask() -> u8 {
        0x00
    }

    fn decode(byte: u8) -> (r: Self) {
        Self::new_with_raw_value(byte)
    }

    fn encode(&self) -> (byte: u8) {
        self.raw_value()
    }

    proof fn lemma_address() {
    }

    proof fn lemma_read_then_write(byte: u8) {
        lemma_low_bits(byte);
    }
}

/// Lowest byte of the device's tick counter.
///
/// Register `0x18`; `0x00` after reset.
#[derive(Clone, Copy, Debug, PartialEq, Eq, Structural)]
pub struct SensorTime0 {
    /// Bits 7 to 0 of the counter. (bits 7 to 0, read-only)
    pub sensor_time_7_0: u8,
}

impl SensorTime0 {
    /// What the register holds after a reset.
    pub open spec fn reset_spec() -> Self {
        SensorTime0 {
            sensor_time_7_0: 0x00,
        }
    }

    /// The byte that the register holds after a reset.
    pub const RESET: u8 = 0x00;

    /// The byte that the register holds after a reset.
    pub open spec fn reset_byte_spec() -> u8 {
        0x00
    }

    /// The fields that `byte` stands for. A field that cannot be read holds
    /// what it holds after a reset.
    pub open spec fn new_with_raw_value_spec(byte: u8) -> Self {
        SensorTime0 {
            sensor_time_7_0: byte,
        }
    }

    /// The byte that is written for these fields. A field that cannot be
    /// written leaves its bits clear.
    pub open spec fn raw_value_spec(self) -> u8 {
        0
    }

    pub fn new_with_raw_value(byte: u8) -> (r: Self)
        ensures
            r == Self::new_with_raw_value_spec(byte),
    {
        SensorTime0 {
            sensor_time_7_0: byte,
        }
    }

    pub fn raw_value(&self) -> (byte: u8)
        ensures
            byte == self.raw_value_spec(),
    {
        0
    }

    pub fn sensor_time_7_0(&self) -> (r: u8)
        ensures
            r == self.sensor_time_7_0,
    {
        self.sensor_time_7_0
    }

    /// The value after a reset is the value of the reset byte.
    pub proof fn lemma_reset()
        ensures
            Self::RESET == Self::reset_byte_spec(),
            Self::new_with_raw_value_spec(Self::reset_byte_spec()) == Self::reset_spec(),
    {
    }

    /// Each field holds what the byte holds at the field's place: decoding
    /// keeps every bit that can be read.
    pub proof fn lemma_decode_extracts_fields(byte: u8)
        ensures
            Self::new_with_raw_value_spec(byte).sensor_time_7_0 == byte,
    {
    }
}

impl Default for SensorTime0 {
    fn default() -> (r: Self)
        ensures
            r == Self::reset_spec(),
    {
        SensorTime0 {
            sensor_time_7_0: 0x00,
        }
    }
}

impl Register for SensorTime0 {
    const ADDRESS: u32 = 0x18;

    open spec fn address_spec() -> u32 {
        0x18
    }

    open spec fn decode_spec(byte: u8) -> Self {
        Self::new_with_raw_value_spec(byte)
    }

    open spec fn encode_spec(self) -> u8 {
        self.raw_value_spec()
    }

    open spec fn well_formed(self) -> bool {
        true
    }

    open spec fn read_write_mask() -> u8 {
        0x00
    }

    fn decode(byte: u8) -> (r: Self) {
        Self::new_with_raw_value(byte)
    }

    fn encode(&self) -> (byte: u8) {
        self.raw_value()
    }

    proof fn lemma_address() {
    }

    proof fn lemma_read_then_write(byte: u8) {
        lemma_low_bits(byte);
    }
}

/// Middle byte of the device's tick counter.
///
/// Register `0x19`; `0x00` after reset.
#[derive(Clone, Copy, Debug, PartialEq, Eq, Structural)]
pub struct SensorTime1 {
    /// Bits 15 to 8 of the counter. (bits 7 to 0, read-only)
    pub sensor_time_15_8: u8,
}

impl SensorTime1 {
    /// What the register holds after a reset.
    pub open spec fn reset_spec() -> Self {
        SensorTime1 {
            sensor_time_15_8: 0x00,
        }
    }

    /// The byte that the register holds after a reset.
    pub const RESET: u8 = 0x00;

    /// The byte that the register holds after a reset.
    pub open spec fn reset_byte_spec() -> u8 {
        0x00
    }

    /// The fields that `byte` stands for. A field that cannot be read holds
    /// what it holds after a reset.
    pub open spec fn new_with_raw_value_spec(byte: u8) -> Self {
        SensorTime1 {
            sensor_time_15_8: byte,
        }
    }

    /// The byte that is written for these fields. A field that cannot be
    /// written leaves its bits clear.
    pub open spec fn raw_value_spec(self) -> u8 {
        0
    }

    pub fn new_with_raw_value(byte: u8) -> (r: Self)
        ensures
            r == Self::new_with_raw_value_spec(byte),
    {
        SensorTime1 {
            sensor_time_15_8: byte,
        }
    }

    pub fn raw_value(&self) -> (byte: u8)
        ensures
            byte == self.raw_value_spec(),
    {
        0
    }

    pub fn sensor_time_15_8(&self) -> (r: u8)
        ensures
            r == self.sensor_time_15_8,
    {
        self.sensor_time_15_8
    }

    /// The value after a reset is the value of the reset byte.
    pub proof fn lemma_reset()
        ensures
            Self::RESET == Self::reset_byte_spec(),
            Self::new_with_raw_value_spec(Self::reset_byte_spec()) == Self::reset_spec(),
    {
    }

    /// Each field holds what the byte holds at the field's place: decoding
    /// keeps every bit that can be read.
    pub proof fn lemma_decode_extracts_fields(byte: u8)
        ensures
            Self::new_with_raw_value_spec(byte).sensor_time_15_8 == byte,
    {
    }
}

impl Default for SensorTime1 {
    fn default() -> (r: Self)
        ensures
            r == Self::reset_spec(),
    {
        SensorTime1 {
            sensor_time_15_8: 0x00,
        }
    }
}

impl Register for SensorTime1 {
    const ADDRESS: u32 = 0x19;

    open spec fn address_spec() -> u32 {
        0x19
    }

    open spec fn decode_spec(byte: u8) -> Self {
        Self::new_with_raw_value_spec(byte)
    }

    open spec fn encode_spec(self) -> u8 {
        self.raw_value_spec()
    }

    open spec fn well_formed(self) -> bool {
        true
    }

    open spec fn read_write_mask() -> u8 {
        0x00
    }

    fn decode(byte: u8) -> (r: Self) {
        Self::new_with_raw_value(byte)
    }

    fn encode(&self) -> (byte: u8) {
        self.raw_value()
    }

    proof fn lemma_address() {
    }

    proof fn lemma_read_then_write(byte: u8) {
        lemma_low_bits(byte);
    }
}

/// Highest byte of the device's tick counter.
///
/// Register `0x1a`; `0x00` after reset.
#[derive(Clone, Copy, Debug, PartialEq, Eq, Structural)]
pub struct SensorTime2 {
    /// Bits 23 to 16 of the counter. (bits 7 to 0, read-only)
    pub sensor_time_23_16: u8,
}

impl SensorTime2 {
    /// What the register holds after a reset.
    pub open spec fn reset_spec() -> Self {
        SensorTime2 {
            sensor_time_23_16: 0x00,
        }
    }

    /// The byte that the register holds after a reset.
    pub const RESET: u8 = 0x00;

    /// The byte that the register holds after a reset.
    pub open spec fn reset_byte_spec() -> u8 {
        0x00
    }

    /// The fields that `byte` stands for. A field that cannot be read holds
    /// what it holds after a reset.
    pub open spec fn new_with_raw_value_spec(byte: u8) -> Self {
        SensorTime2 {
            sensor_time_23_16: byte,
        }
    }

    /// The byte that is written for these fields. A field that cannot be
    /// written leaves its bits clear.
    pub open spec fn raw_value_spec(self) -> u8 {
        0
    }

    pub fn new_with_raw_value(byte: u8) -> (r: Self)
        ensures
            r == Self::new_with_raw_value_spec(byte),
    {
        SensorTime2 {
            sensor_time_23_16: byte,
        }
    }

    pub fn raw_value(&self) -> (byte: u8)
        ensures
            byte == self.raw_value_spec(),
    {
        0
    }

    pub fn sensor_time_23_16(&self) -> (r: u8)
        ensures
            r == self.sensor_time_23_16,
    {
        self.sensor_time_23_16
    }

    /// The value after a reset is the value of the reset byte.
    pub proof fn lemma_reset()
        ensures
            Self::RESET == Self::reset_byte_spec(),
            Self::new_with_raw_value_spec(Self::reset_byte_spec()) == Self::reset_spec(),
    {
    }

    /// Each field holds what the byte holds at the field's place: decoding
    /// keeps every bit that can be read.
    pub proof fn lemma_decode_extracts_fields(byte: u8)
        ensures
            Self::new_with_raw_value_spec(byte).sensor_time_23_16 == byte,
    {
    }
}

impl Default for SensorTime2 {
    fn default() -> (r: Self)
        ensures
            r == Self::reset_spec(),
    {
        SensorTime2 {
            sensor_time_23_16: 0x00,
        }
    }
}

impl Register for SensorTime2 {
    const ADDRESS: u32 = 0x1a;

    open spec fn address_spec() -> u32 {
        0x1a
    }

    open spec fn decode_spec(byte: u8) -> Self {
        Self::new_with_raw_value_spec(byte)
    }

    open spec fn encode_spec(self) -> u8 {
        self.raw_value_spec()
    }

    open spec fn well_formed(self) -> bool {
        true
    }

    open spec fn read_write_mask() -> u8 {
        0x00
    }

    fn decode(byte: u8) -> (r: Self) {
        Self::new_with_raw_value(byte)
    }

    fn encode(&self) -> (byte: u8) {
        self.raw_value()
    }

    proof fn lemma_address() {
    }

    proof fn lemma_read_then_write(byte: u8) {
        lemma_low_bits(byte);
    }
}

/// Events since the last read.
///
/// Register `0x1b`; `0x01` after reset.
#[derive(Clone, Copy, Debug, PartialEq, Eq, Structural)]
pub struct Event {
    /// The device went through a power-on reset. (bit 0, read-only)
    pub por_detected: bool,
    /// Which sensor reported an error. (bits 3 to 2, read-only)
    pub error_code: ErrorCode,
}

impl Event {
    /// What the register holds after a reset.
    pub open spec fn reset_spec() -> Self {
        Event {
            por_detected: true,
            error_code: ErrorCode::NoError,
        }
    }

    /// The byte that the register holds after a reset.
    pub const RESET: u8 = 0x01;

    /// The byte that the register holds after a reset.
    pub open spec fn reset_byte_spec() -> u8 {
        0x01
    }

    /// The fields that `byte` stands for. A field that cannot be read holds
    /// what it holds after a reset.
    pub open spec fn new_with_raw_value_spec(byte: u8) -> Self {
        Event {
            por_detected: byte & 0x01 != 0,
            error_code: ErrorCode::new_with_raw_value_spec(byte >> 2),
        }
    }

    /// The byte that is written for these fields. A field that cannot be
    /// written leaves its bits clear.
    pub open spec fn raw_value_spec(self) -> u8 {
        0
    }

    pub fn new_with_raw_value(byte: u8) -> (r: Self)
        ensures
            r == Self::new_with_raw_value_spec(byte),
    {
        Event {
            por_detected: byte & 0x01 != 0,
            error_code: ErrorCode::new_with_raw_value(byte >> 2),
        }
    }

    pub fn raw_value(&self) -> (byte: u8)
        ensures
            byte == self.raw_value_spec(),
    {
        0
    }

    pub fn por_detected(&self) -> (r: bool)
        ensures
            r == self.por_detected,
    {
        self.por_detected
    }

    pub fn error_code(&self) -> (r: ErrorCode)
        ensures
            r == self.error_code,
    {
        self.error_code
    }

    /// The value after a reset is the value of the reset byte.
    pub proof fn lemma_reset()
        ensures
            Self::RESET == Self::reset_byte_spec(),
            Self::new_with_raw_value_spec(Self::reset_byte_spec()) == Self::reset_spec(),
    {
        assert(0x01u8 & 0x01 == 0x01
            && (0x01u8 >> 2) & 0x03 == 0x00) by (bit_vector);
    }

    /// Each field holds what the byte holds at the field's place: decoding
    /// keeps every bit that can be read.
    pub proof fn lemma_decode_extracts_fields(byte: u8)
        ensures
            Self::new_with_raw_value_spec(byte).por_detected == (byte & 0x01 == 1),
            Self::new_with_raw_value_spec(byte).error_code.raw_value_spec() == (byte >> 2) & 0x03,
    {
        lemma_low_bits(byte);
        ErrorCode::lemma_new_with_raw_value(byte >> 2);
    }
}

impl Default for Event {
    fn default() -> (r: Self)
        ensures
            r == Self::reset_spec(),
    {
        Event {
            por_detected: true,
            error_code: ErrorCode::NoError,
        }
    }
}

impl Register for Event {
    const ADDRESS: u32 = 0x1b;

    open spec fn address_spec() -> u32 {
        0x1b
    }

    open spec fn decode_spec(byte: u8) -> Self {
        Self::new_with_raw_value_spec(byte)
    }

    open spec fn encode_spec(self) -> u8 {
        self.raw_value_spec()
    }

    open spec fn well_formed(self) -> bool {
        true
    }

    open spec fn read_write_mask() -> u8 {
        0x00
    }

    fn decode(byte: u8) -> (r: Self) {
        Self::new_with_raw_value(byte)
    }

    fn encode(&self) -> (byte: u8) {
        self.raw_value()
    }

    proof fn lemma_address() {
    }

    proof fn lemma_read_then_write(byte: u8) {
        lemma_low_bits(byte);
    }
}

/// Interrupt status of the motion features.
///
/// Register `0x1c`; `0x00` after reset.
#[derive(Clone, Copy, Debug, PartialEq, Eq, Structural)]
pub struct IntStatus0 {
    /// Significant motion was detected. (bit 0, read-only)
    pub sig_motion_out: bool,
    /// The step counter reached its watermark. (bit 1, read-only)
    pub step_counter_out: bool,
    /// The recognised activity changed. (bit 2, read-only)
    pub activity_out: bool,
    /// A wrist-wear wake-up was detected. (bit 3, read-only)
    pub wrist_wear_wakeup_out: bool,
    /// A wrist gesture was detected. (bit 4, read-only)
    pub wrist_gesture_out: bool,
    /// No motion was detected. (bit 5, read-only)
    pub no_motion_out: bool,
    /// Some motion was detected. (bit 6, read-only)
    pub any_motion_out: bool,
}

impl IntStatus0 {
    /// What the register holds after a reset.
    pub open spec fn reset_spec() -> Self {
        IntStatus0 {
            sig_motion_out: false,
            step_counter_out: false,
            activity_out: false,
            wrist_wear_wakeup_out: false,
            wrist_gesture_out: false,
            no_motion_out: false,
            any_motion_out: false,
        }
    }

    /// The byte that the register holds after a reset.
    pub const RESET: u8 = 0x00;

    /// The byte that the register holds after a reset.
    pub open spec fn reset_byte_spec() -> u8 {
        0x00
    }

    /// The fields that `byte` stands for. A field that cannot be read holds
    /// what it holds after a reset.
    pub open spec fn new_with_raw_value_spec(byte: u8) -> Self {
        IntStatus0 {
            sig_motion_out: byte & 0x01 != 0,
            step_counter_out: (byte >> 1) & 0x01 != 0,
            activity_out: (byte >> 2) & 0x01 != 0,
            wrist_wear_wakeup_out: (byte >> 3) & 0x01 != 0,
            wrist_gesture_out: (byte >> 4) & 0x01 != 0,
            no_motion_out: (byte >> 5) & 0x01 != 0,
            any_motion_out: (byte >> 6) & 0x01 != 0,
        }
    }

    /// The byte that is written for these fields. A field that cannot be
    /// written leaves its bits clear.
    pub open spec fn raw_value_spec(self) -> u8 {
        0
    }

    pub fn new_with_raw_value(byte: u8) -> (r: Self)
        ensures
            r == Self::new_with_raw_value_spec(byte),
    {
        IntStatus0 {
            sig_motion_out: byte & 0x01 != 0,
            step_counter_out: (byte >> 1) & 0x01 != 0,
            activity_out: (byte >> 2) & 0x01 != 0,
            wrist_wear_wakeup_out: (byte >> 3) & 0x01 != 0,
            wrist_gesture_out: (byte >> 4) & 0x01 != 0,
            no_motion_out: (byte >> 5) & 0x01 != 0,
            any_motion_out: (byte >> 6) & 0x01 != 0,
        }
    }

    pub fn raw_value(&self) -> (byte: u8)
        ensures
            byte == self.raw_value_spec(),
    {
        0
    }

    pub fn sig_motion_out(&self) -> (r: bool)
        ensures
            r == self.sig_motion_out,
    {
        self.sig_motion_out
    }

    pub fn step_counter_out(&self) -> (r: bool)
        ensures
            r == self.step_counter_out,
    {
        self.step_counter_out
    }

    pub fn activity_out(&self) -> (r: bool)
        ensures
            r == self.activity_out,
    {
        self.activity_out
    }

    pub fn wrist_wear_wakeup_out(&self) -> (r: bool)
        ensures
            r == self.wrist_wear_wakeup_out,
    {
        self.wrist_wear_wakeup_out
    }

    pub fn wrist_gesture_out(&self) -> (r: bool)
        ensures
            r == self.wrist_gesture_out,
    {
        self.wrist_gesture_out
    }

    pub fn no_motion_out(&self) -> (r: bool)
        ensures
            r == self.no_motion_out,
    {
        self.no_motion_out
    }

    pub fn any_motion_out(&self) -> (r: bool)
        ensures
            r == self.any_motion_out,
    {
        self.any_motion_out
    }

    /// The value after a reset is the value of the reset byte.
    pub proof fn lemma_reset()
        ensures
            Self::RESET == Self::reset_byte_spec(),
            Self::new_with_raw_value_spec(Self::reset_byte_spec()) == Self::reset_spec(),
    {
        assert(0x00u8 & 0x01 == 0x00
            && (0x00u8 >> 1) & 0x01 == 0x00
            && (0x00u8 >> 2) & 0x01 == 0x00
            && (0x00u8 >> 3) & 0x01 == 0x00
            && (0x00u8 >> 4) & 0x01 == 0x00
            && (0x00u8 >> 5) & 0x01 == 0x00
            && (0x00u8 >> 6) & 0x01 == 0x00) by (bit_vector);
    }

    /// Each field holds what the byte holds at the field's place: decoding
    /// keeps every bit that can be read.
    pub proof fn lemma_decode_extracts_fields(byte: u8)
        ensures
            Self::new_with_raw_value_spec(byte).sig_motion_out == (byte & 0x01 == 1),
            Self::new_with_raw_value_spec(byte).step_counter_out == ((byte >> 1) & 0x01 == 1),
            Self::new_with_raw_value_spec(byte).activity_out == ((byte >> 2) & 0x01 == 1),
            Self::new_with_raw_value_spec(byte).wrist_wear_wakeup_out == ((byte >> 3) & 0x01 == 1),
            Self::new_with_raw_value_spec(byte).wrist_gesture_out == ((byte >> 4) & 0x01 == 1),
            Self::new_with_raw_value_spec(byte).no_motion_out == ((byte >> 5) & 0x01 == 1),
            Self::new_with_raw_value_spec(byte).any_motion_out == ((byte >> 6) & 0x01 == 1),
    {
        lemma_low_bits(byte);
        lemma_low_bits(byte >> 1);
        lemma_low_bits(byte >> 2);
        lemma_low_bits(byte >> 3);
        lemma_low_bits(byte >> 4);
        lemma_low_bits(byte >> 5);
        lemma_low_bits(byte >> 6);
    }
}

impl Default for IntStatus0 {
    fn default() -> (r: Self)
        ensures
            r == Self::reset_spec(),
    {
        IntStatus0 {
            sig_motion_out: false,
            step_counter_out: false,
            activity_out: false,
            wrist_wear_wakeup_out: false,
            wrist_gesture_out: false,
            no_motion_out: false,
            any_motion_out: false,
        }
    }
}

impl Register for IntStatus0 {
    const ADDRESS: u32 = 0x1c;

    open spec fn address_spec() -> u32 {
        0x1c
    }

    open spec fn decode_spec(byte: u8) -> Self {
        Self::new_with_raw_value_spec(byte)
    }

    open spec fn encode_spec(self) -> u8 {
        self.raw_value_spec()
    }

    open spec fn well_formed(self) -> bool {
        true
    }

    open spec fn read_write_mask() -> u8 {
        0x00
    }

    fn decode(byte: u8) -> (r: Self) {
        Self::new_with_raw_value(byte)
    }

    fn encode(&self) -> (byte: u8) {
        self.raw_value()
    }

    proof fn lemma_address() {
    }

    proof fn lemma_read_then_write(byte: u8) {
        lemma_low_bits(byte);
    }
}

/// Interrupt status of the data path.
///
/// Register `0x1d`; `0x00` after reset.
#[derive(Clone, Copy, Debug, PartialEq, Eq, Structural)]
pub struct IntStatus1 {
    /// The FIFO is full. (bit 0, read-only)
    pub ffull_int: bool,
    /// The FIFO reached its watermark. (bit 1, read-only)
    pub fwm_int: bool,
    /// An error was raised. (bit 2, read-only)
    pub err_int: bool,
    /// Auxiliary data became ready. (bit 5, read-only)
    pub aux_drdy_int: bool,
    /// Gyroscope data became ready. (bit 6, read-only)
    pub gyr_drdy_int: bool,
    /// Accelerometer data became ready. (bit 7, read-only)
    pub acc_drdy_int: bool,
}

impl IntStatus1 {
    /// What the register holds after a reset.
    pub open spec fn reset_spec() -> Self {
        IntStatus1 {
            ffull_int: false,
            fwm_int: false,
            err_int: false,
            aux_drdy_int: false,
            gyr_drdy_int: false,
            acc_drdy_int: false,
        }
    }

    /// The byte that the register holds after a reset.
    pub const RESET: u8 = 0x00;

    /// The byte that the register holds after a reset.
    pub open spec fn reset_byte_spec() -> u8 {
        0x00
    }

    /// The fields that `byte` stands for. A field that cannot be read holds
    /// what it holds after a reset.
    pub open spec fn new_with_raw_value_spec(byte: u8) -> Self {
        IntStatus1 {
            ffull_int: byte & 0x01 != 0,
            fwm_int: (byte >> 1) & 0x01 != 0,
            err_int: (byte >> 2) & 0x01 != 0,
            aux_drdy_int: (byte >> 5) & 0x01 != 0,
            gyr_drdy_int: (byte >> 6) & 0x01 != 0,
            acc_drdy_int: (byte >> 7) & 0x01 != 0,
        }
    }

    /// The byte that is written for these fields. A field that cannot be
    /// written leaves its bits clear.
    pub open spec fn raw_value_spec(self) -> u8 {
        0
    }

    pub fn new_with_raw_value(byte: u8) -> (r: Self)
        ensures
            r == Self::new_with_raw_value_spec(byte),
    {
        IntStatus1 {
            ffull_int: byte & 0x01 != 0,
            fwm_int: (byte >> 1) & 0x01 != 0,
            err_int: (byte >> 2) & 0x01 != 0,
            aux_drdy_int: (byte >> 5) & 0x01 != 0,
            gyr_drdy_int: (byte >> 6) & 0x01 != 0,
            acc_drdy_int: (byte >> 7) & 0x01 != 0,
        }
    }

    pub fn raw_value(&self) -> (byte: u8)
        ensures
            byte == self.raw_value_spec(),
    {
        0
    }

    pub fn ffull_int(&self) -> (r: bool)
        ensures
            r == self.ffull_int,
    {
        self.ffull_int
    }

    pub fn fwm_int(&self) -> (r: bool)
        ensures
            r == self.fwm_int,
    {
        self.fwm_int
    }

    pub fn err_int(&self) -> (r: bool)
        ensures
            r == self.err_int,
    {
        self.err_int
    }

    pub fn aux_drdy_int(&self) -> (r: bool)
        ensures
            r == self.aux_drdy_int,
    {
        self.aux_drdy_int
    }

    pub fn gyr_drdy_int(&self) -> (r: bool)
        ensures
            r == self.gyr_drdy_int,
    {
        self.gyr_drdy_int
    }

    pub fn acc_drdy_int(&self) -> (r: bool)
        ensures
            r == self.acc_drdy_int,
    {
        self.acc_drdy_int
    }

    /// The value after a reset is the value of the reset byte.
    pub proof fn lemma_reset()
        ensures
            Self::RESET == Self::reset_byte_spec(),
            Self::new_with_raw_value_spec(Self::reset_byte_spec()) == Self::reset_spec(),
    {
        assert(0x00u8 & 0x01 == 0x00
            && (0x00u8 >> 1) & 0x01 == 0x00
            && (0x00u8 >> 2) & 0x01 == 0x00
            && (0x00u8 >> 5) & 0x01 == 0x00
            && (0x00u8 >> 6) & 0x01 == 0x00
            && (0x00u8 >> 7) & 0x01 == 0x00) by (bit_vector);
    }

    /// Each field holds what the byte holds at the field's place: decoding
    /// keeps every bit that can be read.
    pub proof fn lemma_decode_extracts_fields(byte: u8)
        ensures
            Self::new_with_raw_value_spec(byte).ffull_int == (byte & 0x01 == 1),
            Self::new_with_raw_value_spec(byte).fwm_int == ((byte >> 1) & 0x01 == 1),
            Self::new_with_raw_value_spec(byte).err_int == ((byte >> 2) & 0x01 == 1),
            Self::new_with_raw_value_spec(byte).aux_drdy_int == ((byte >> 5) & 0x01 == 1),
            Self::new_with_raw_value_spec(byte).gyr_drdy_int == ((byte >> 6) & 0x01 == 1),
            Self::new_with_raw_value_spec(byte).acc_drdy_int == ((byte >> 7) & 0x01 == 1),
    {
        lemma_low_bits(byte);
        lemma_low_bits(byte >> 1);
        lemma_low_bits(byte >> 2);
        lemma_low_bits(byte >> 5);
        lemma_low_bits(byte >> 6);
        lemma_low_bits(byte >> 7);
    }
}

impl Default for IntStatus1 {
    fn default() -> (r: Self)
        ensures
            r == Self::reset_spec(),
    {
        IntStatus1 {
            ffull_int: false,
            fwm_int: false,
            err_int: false,
            aux_drdy_int: false,
            gyr_drdy_int: false,
            acc_drdy_int: false,
        }
    }
}

impl Register for IntStatus1 {
    const ADDRESS: u32 = 0x1d;

    open spec fn address_spec() -> u32 {
        0x1d
    }

    open spec fn decode_spec(byte: u8) -> Self {
        Self::new_with_raw_value_spec(byte)
    }

    open spec fn encode_spec(self) -> u8 {
        self.raw_value_spec()
    }

    open spec fn well_formed(self) -> bool {
        true
    }

    open spec fn read_write_mask() -> u8 {
        0x00
    }

    fn decode(byte: u8) -> (r: Self) {
        Self::new_with_raw_value(byte)
    }

    fn encode(&self) -> (byte: u8) {
        self.raw_value()
    }

    proof fn lemma_address() {
    }

    proof fn lemma_read_then_write(byte: u8) {
        lemma_low_bits(byte);
    }
}

/// Outcome of the configuration load and configuration faults.
///
/// Register `0x21`; `0x00` after reset.
#[derive(Clone, Copy, Debug, PartialEq, Eq, Structural)]
pub struct InternalStatus {
    /// State of the configuration load. (bits 2 to 0, read-only)
    pub message: InternalStatusMessage,
    /// The axis remapping is not valid. (bit 5, read-only)
    pub axes_remap_error: bool,
    /// A feature needs at least 50 Hz and has less. (bit 6, read-only)
    pub odr_50hz_error: bool,
}

impl InternalStatus {
    /// What the register holds after a reset.
    pub open spec fn reset_spec() -> Self {
        InternalStatus {
            message: InternalStatusMessage::NotInit,
            axes_remap_error: false,
            odr_50hz_error: false,
        }
    }

    /// The byte that the register holds after a reset.
    pub const RESET: u8 = 0x00;

    /// The byte that the register holds after a reset.
    pub open spec fn reset_byte_spec() -> u8 {
        0x00
    }

    /// The fields that `byte` stands for. A field that cannot be read holds
    /// what it holds after a reset.
    pub open spec fn new_with_raw_value_spec(byte: u8) -> Self {
        InternalStatus {
            message: InternalStatusMessage::new_with_raw_value_spec(byte),
            axes_remap_error: (byte >> 5) & 0x01 != 0,
            odr_50hz_error: (byte >> 6) & 0x01 != 0,
        }
    }

    /// The byte that is written for these fields. A field that cannot be
    /// written leaves its bits clear.
    pub open spec fn raw_value_spec(self) -> u8 {
        0
    }

    pub fn new_with_raw_value(byte: u8) -> (r: Self)
        ensures
            r == Self::new_with_raw_value_spec(byte),
    {
        InternalStatus {
            message: InternalStatusMessage::new_with_raw_value(byte),
            axes_remap_error: (byte >> 5) & 0x01 != 0,
            odr_50hz_error: (byte >> 6) & 0x01 != 0,
        }
    }

    pub fn raw_value(&self) -> (byte: u8)
        ensures
            byte == self.raw_value_spec(),
    {
        0
    }

    pub fn message(&self) -> (r: InternalStatusMessage)
        ensures
            r == self.message,
    {
        self.message
    }

    pub fn axes_remap_error(&self) -> (r: bool)
        ensures
            r == self.axes_remap_error,
    {
        self.axes_remap_error
    }

    pub fn odr_50hz_error(&self) -> (r: bool)
        ensures
            r == self.odr_50hz_error,
    {
        self.odr_50hz_error
    }

    /// The value after a reset is the value of the reset byte.
    pub proof fn lemma_reset()
        ensures
            Self::RESET == Self::reset_byte_spec(),
            Self::new_with_raw_value_spec(Self::reset_byte_spec()) == Self::reset_spec(),
    {
        assert(0x00u8 & 0x07 == 0x00
            && (0x00u8 >> 5) & 0x01 == 0x00
            && (0x00u8 >> 6) & 0x01 == 0x00) by (bit_vector);
    }

    /// Each field holds what the byte holds at the field's place: decoding
    /// keeps every bit that can be read.
    pub proof fn lemma_decode_extracts_fields(byte: u8)
        ensures
            Self::new_with_raw_value_spec(byte).message.raw_value_spec() == byte & 0x07,
            Self::new_with_raw_value_spec(byte).axes_remap_error == ((byte >> 5) & 0x01 == 1),
            Self::new_with_raw_value_spec(byte).odr_50hz_error == ((byte >> 6) & 0x01 == 1),
    {
        InternalStatusMessage::lemma_new_with_raw_value(byte);
        lemma_low_bits(byte >> 5);
        lemma_low_bits(byte >> 6);
    }
}

impl Default for InternalStatus {
    fn default() -> (r: Self)
        ensures
            r == Self::reset_spec(),
    {
        InternalStatus {
            message: InternalStatusMessage::NotInit,
            axes_remap_error: false,
            odr_50hz_error: false,
        }
    }
}

impl Register for InternalStatus {
    const ADDRESS: u32 = 0x21;

    open spec fn address_spec() -> u32 {
        0x21
    }

    open spec fn decode_spec(byte: u8) -> Self {
        Self::new_with_raw_value_spec(byte)
    }

    open spec fn encode_spec(self) -> u8 {
        self.raw_value_spec()
    }

    open spec fn well_formed(self) -> bool {
        true
    }

    open spec fn read_write_mask() -> u8 {
        0x00
    }

    fn decode(byte: u8) -> (r: Self) {
        Self::new_with_raw_value(byte)
    }

    fn encode(&self) -> (byte: u8) {
        self.raw_value()
    }

    proof fn lemma_address() {
    }

    proof fn lemma_read_then_write(byte: u8) {
        lemma_low_bits(byte);
    }
}

/// Internal error flags.
///
/// Register `0x5f`; `0x00` after reset.
#[derive(Clone, Copy, Debug, PartialEq, Eq, Structural)]
pub struct InternalError {
    /// Long processing time; the device must be reset. (bit 0, read-only)
    pub int_err_1: bool,
    /// Fatal error; the device must be reset. (bit 2, read-only)
    pub int_err_2: bool,
    /// The feature engine was switched off by the host. (bit 4, read-only)
    pub feat_eng_disabled: bool,
}

impl InternalError {
    /// What the register holds after a reset.
    pub open spec fn reset_spec() -> Self {
        InternalError {
            int_err_1: false,
            int_err_2: false,
            feat_eng_disabled: false,
        }
    }

    /// The byte that the register holds after a reset.
    pub const RESET: u8 = 0x00;

    /// The byte that the register holds after a reset.
    pub open spec fn reset_byte_spec() -> u8 {
        0x00
    }

    /// The fields that `byte` stands for. A field that cannot be read holds
    /// what it holds after a reset.
    pub open spec fn new_with_raw_value_spec(byte: u8) -> Self {
        InternalError {
            int_err_1: byte & 0x01 != 0,
            int_err_2: (byte >> 2) & 0x01 != 0,
            feat_eng_disabled: (byte >> 4) & 0x01 != 0,
        }
    }

    /// The byte that is written for these fields. A field that cannot be
    /// written leaves its bits clear.
    pub open spec fn raw_value_spec(self) -> u8 {
        0
    }

    pub fn new_with_raw_value(byte: u8) -> (r: Self)
        ensures
            r == Self::new_with_raw_value_spec(byte),
    {
        InternalError {
            int_err_1: byte & 0x01 != 0,
            int_err_2: (byte >> 2) & 0x01 != 0,
            feat_eng_disabled: (byte >> 4) & 0x01 != 0,
        }
    }

    pub fn raw_value(&self) -> (byte: u8)
        ensures
            byte == self.raw_value_spec(),
    {
        0
    }

    pub fn int_err_1(&self) -> (r: bool)
        ensures
            r == self.int_err_1,
    {
        self.int_err_1
    }

    pub fn int_err_2(&self) -> (r: bool)
        ensures
            r == self.int_err_2,
    {
        self.int_err_2
    }

    pub fn feat_eng_disabled(&self) -> (r: bool)
        ensures
            r == self.feat_eng_disabled,
    {
        self.feat_eng_disabled
    }

    /// The value after a reset is the value of the reset byte.
    pub proof fn lemma_reset()
        ensures
            Self::RESET == Self::reset_byte_spec(),
            Self::new_with_raw_value_spec(Self::reset_byte_spec()) == Self::reset_spec(),
    {
        assert(0x00u8 & 0x01 == 0x00
            && (0x00u8 >> 2) & 0x01 == 0x00
            && (0x00u8 >> 4) & 0x01 == 0x00) by (bit_vector);
    }

    /// Each field holds what the byte holds at the field's place: decoding
    /// keeps every bit that can be read.
    pub proof fn lemma_decode_extracts_fields(byte: u8)
        ensures
            Self::new_with_raw_value_spec(byte).int_err_1 == (byte & 0x01 == 1),
            Self::new_with_raw_value_spec(byte).int_err_2 == ((byte >> 2) & 0x01 == 1),
            Self::new_with_raw_value_spec(byte).feat_eng_disabled == ((byte >> 4) & 0x01 == 1),
    {
        lemma_low_bits(byte);
        lemma_low_bits(byte >> 2);
        lemma_low_bits(byte >> 4);
    }
}

impl Default for InternalError {
    fn default() -> (r: Self)
        ensures
            r == Self::reset_spec(),
    {
        InternalError {
            int_err_1: false,
            int_err_2: false,
            feat_eng_disabled: false,
        }
    }
}

impl Register for InternalError {
    const ADDRESS: u32 = 0x5f;

    open spec fn address_spec() -> u32 {
        0x5f
    }

    open spec fn decode_spec(byte: u8) -> Self {
        Self::new_with_raw_value_spec(byte)
    }

    open spec fn encode_spec(self) -> u8 {
        self.raw_value_spec()
    }

    open spec fn well_formed(self) -> bool {
        true
    }

    open spec fn read_write_mask() -> u8 {
        0x00
    }

    fn decode(byte: u8) -> (r: Self) {
        Self::new_with_raw_value(byte)
    }

    fn encode(&self) -> (byte: u8) {
        self.raw_value()
    }

    proof fn lemma_address() {
    }

    proof fn lemma_read_then_write(byte: u8) {
        lemma_low_bits(byte);
    }
}

} // verus!
