//! Registers that the host writes to configure the device.

use super::bits::lemma_low_bits;
use super::fields::{AccBwp, AccRangeMode, GyrBwp, GyrRangeMode, OisRange, OutputDataRate};
use crate::peripheral::Register;
use vstd::prelude::*;

verus! {

/// Accelerometer rate, bandwidth and filter mode.
///
/// Register `0x40`; `0xa8` after reset.
#[derive(Clone, Copy, Debug, PartialEq, Eq, Structural)]
pub struct AccConf {
    /// Output data rate. (bits 3 to 0, read-write)
    pub acc_odr: OutputDataRate,
    /// Bandwidth. (bits 6 to 4, read-write)
    pub acc_bwp: AccBwp,
    /// Performance-optimised filtering rather than power-optimised. (bit 7, read-write)
    pub acc_filter_perf: bool,
}

impl AccConf {
    /// What the register holds after a reset.
    pub open spec fn reset_spec() -> Self {
        AccConf {
            acc_odr: OutputDataRate::Odr100,
            acc_bwp: AccBwp::NormAvg4,
            acc_filter_perf: true,
        }
    }

    /// The byte that the register holds after a reset.
    pub const RESET: u8 = 0xa8;

    /// The byte that the register holds after a reset.
    pub open spec fn reset_byte_spec() -> u8 {
        0xa8
    }

    /// The fields that `byte` stands for. A field that cannot be read holds
    /// what it holds after a reset.
    pub open spec fn new_with_raw_value_spec(byte: u8) -> Self {
        AccConf {
            acc_odr: OutputDataRate::new_with_raw_value_spec(byte),
            acc_bwp: AccBwp::new_with_raw_value_spec(byte >> 4),
            acc_filter_perf: (byte >> 7) & 0x01 != 0,
        }
    }

    /// The byte that is written for these fields. A field that cannot be
    /// written leaves its bits clear.
    pub open spec fn raw_value_spec(self) -> u8 {
        self.acc_odr.raw_value_spec()
            | (self.acc_bwp.raw_value_spec() << 4)
            | ((if self.acc_filter_perf { 1u8 } else { 0u8 }) << 7)
    }

    pub fn new_with_raw_value(byte: u8) -> (r: Self)
        ensures
            r == Self::new_with_raw_value_spec(byte),
    {
        AccConf {
            acc_odr: OutputDataRate::new_with_raw_value(byte),
            acc_bwp: AccBwp::new_with_raw_value(byte >> 4),
            acc_filter_perf: (byte >> 7) & 0x01 != 0,
        }
    }

    pub fn raw_value(&self) -> (byte: u8)
        ensures
            byte == self.raw_value_spec(),
    {
        self.acc_odr.raw_value()
            | (self.acc_bwp.raw_value() << 4)
            | ((if self.acc_filter_perf { 1u8 } else { 0u8 }) << 7)
    }

    pub fn acc_odr(&self) -> (r: OutputDataRate)
        ensures
            r == self.acc_odr,
    {
        self.acc_odr
    }

    pub fn acc_bwp(&self) -> (r: AccBwp)
        ensures
            r == self.acc_bwp,
    {
        self.acc_bwp
    }

    pub fn acc_filter_perf(&self) -> (r: bool)
        ensures
            r == self.acc_filter_perf,
    {
        self.acc_filter_perf
    }

    /// The same register value with `acc_odr` replaced.
    pub fn with_acc_odr(self, value: OutputDataRate) -> (r: Self)
        ensures
            r == (AccConf { acc_odr: value, ..self }),
    {
        AccConf { acc_odr: value, ..self }
    }

    /// The same register value with `acc_bwp` replaced.
    pub fn with_acc_bwp(self, value: AccBwp) -> (r: Self)
        ensures
            r == (AccConf { acc_bwp: value, ..self }),
    {
        AccConf { acc_bwp: value, ..self }
    }

    /// The same register value with `acc_filter_perf` replaced.
    pub fn with_acc_filter_perf(self, value: bool) -> (r: Self)
        ensures
            r == (AccConf { acc_filter_perf: value, ..self }),
    {
        AccConf { acc_filter_perf: value, ..self }
    }

    proof fn lemma_bits(byte: u8, f0: u8, f1: u8, f2: u8)
        by (bit_vector)
        requires
            f0 <= 0x0f,
            f1 <= 0x07,
            f2 <= 0x01,
        ensures
            (byte & 0x0f)
                | (((byte >> 4) & 0x07) << 4)
                | ((if (byte >> 7) & 0x01 != 0 { 1u8 } else { 0u8 }) << 7) == byte & 0xff,
            (f0 | (f1 << 4) | (f2 << 7)) & 0x0f == f0,
            ((f0 | (f1 << 4) | (f2 << 7)) >> 4) & 0x07 == f1,
            ((f0 | (f1 << 4) | (f2 << 7)) >> 7) & 0x01 == f2,
    {
    }

    /// What was written is what a read gives back: encoding and then decoding
    /// keeps every field.
    pub proof fn lemma_write_then_read(self)
        ensures
            Self::new_with_raw_value_spec(self.raw_value_spec()) == self,
    {
        self.acc_odr.lemma_raw_value_round_trip();
        self.acc_bwp.lemma_raw_value_round_trip();
        Self::lemma_bits(
            0,
            self.acc_odr.raw_value_spec(),
            self.acc_bwp.raw_value_spec(),
            if self.acc_filter_perf { 1u8 } else { 0u8 },
        );
    }

    /// The value after a reset is the value of the reset byte.
    pub proof fn lemma_reset()
        ensures
            Self::RESET == Self::reset_byte_spec(),
            Self::new_with_raw_value_spec(Self::reset_byte_spec()) == Self::reset_spec(),
            Self::reset_spec().raw_value_spec() == Self::reset_byte_spec(),
    {
        assert(0xa8u8 & 0x0f == 0x08
            && (0xa8u8 >> 4) & 0x07 == 0x02
            && (0xa8u8 >> 7) & 0x01 == 0x01
            && 0x08u8 | (0x02u8 << 4) | (0x01u8 << 7) == 0xa8) by (bit_vector);
    }

    /// Each field holds what the byte holds at the field's place: decoding
    /// keeps every bit that can be read.
    pub proof fn lemma_decode_extracts_fields(byte: u8)
        ensures
            Self::new_with_raw_value_spec(byte).acc_odr.raw_value_spec() == byte & 0x0f,
            Self::new_with_raw_value_spec(byte).acc_bwp.raw_value_spec() == (byte >> 4) & 0x07,
            Self::new_with_raw_value_spec(byte).acc_filter_perf == ((byte >> 7) & 0x01 == 1),
    {
        OutputDataRate::lemma_new_with_raw_value(byte);
        AccBwp::lemma_new_with_raw_value(byte >> 4);
        lemma_low_bits(byte >> 7);
    }
}

impl Default for AccConf {
    fn default() -> (r: Self)
        ensures
            r == Self::reset_spec(),
    {
        AccConf {
            acc_odr: OutputDataRate::Odr100,
            acc_bwp: AccBwp::NormAvg4,
            acc_filter_perf: true,
        }
    }
}

impl Register for AccConf {
    const ADDRESS: u32 = 0x40;

    open spec fn address_spec() -> u32 {
        0x40
    }

    open spec fn decode_spec(byte: u8) -> Self {
        Self::new_with_raw_value_spec(byte)
    }

    open spec fn encode_spec(self) -> u8 {
        self.raw_value_spec()
    }

    open spec fn well_formed(self) -> bool {
        true
    }

    open spec fn read_write_mask() -> u8 {
        0xff
    }

    fn decode(byte: u8) -> (r: Self) {
        Self::new_with_raw_value(byte)
    }

    fn encode(&self) -> (byte: u8) {
        self.raw_value()
    }

    proof fn lemma_address() {
    }

    proof fn lemma_read_then_write(byte: u8) {
        OutputDataRate::lemma_new_with_raw_value(byte);
        AccBwp::lemma_new_with_raw_value(byte >> 4);
        Self::lemma_bits(byte, 0, 0, 0);
    }
}

/// Accelerometer full-scale range.
///
/// Register `0x41`; `0x02` after reset.
#[derive(Clone, Copy, Debug, PartialEq, Eq, Structural)]
pub struct AccRange {
    /// Full-scale range. (bits 1 to 0, read-write)
    pub acc_range: AccRangeMode,
}

impl AccRange {
    /// What the register holds after a reset.
    pub open spec fn reset_spec() -> Self {
        AccRange {
            acc_range: AccRangeMode::Range8G,
        }
    }

    /// The byte that the register holds after a reset.
    pub const RESET: u8 = 0x02;

    /// The byte that the register holds after a reset.
    pub open spec fn reset_byte_spec() -> u8 {
        0x02
    }

    /// The fields that `byte` stands for. A field that cannot be read holds
    /// what it holds after a reset.
    pub open spec fn new_with_raw_value_spec(byte: u8) -> Self {
        AccRange {
            acc_range: AccRangeMode::new_with_raw_value_spec(byte),
        }
    }

    /// The byte that is written for these fields. A field that cannot be
    /// written leaves its bits clear.
    pub open spec fn raw_value_spec(self) -> u8 {
        self.acc_range.raw_value_spec()
    }

    pub fn new_with_raw_value(byte: u8) -> (r: Self)
        ensures
            r == Self::new_with_raw_value_spec(byte),
    {
        AccRange {
            acc_range: AccRangeMode::new_with_raw_value(byte),
        }
    }

    pub fn raw_value(&self) -> (byte: u8)
        ensures
            byte == self.raw_value_spec(),
    {
        self.acc_range.raw_value()
    }

    pub fn acc_range(&self) -> (r: AccRangeMode)
        ensures
            r == self.acc_range,
    {
        self.acc_range
    }

    /// The same register value with `acc_range` replaced.
    pub fn with_acc_range(self, value: AccRangeMode) -> (r: Self)
        ensures
            r == (AccRange { acc_range: value, ..self }),
    {
        AccRange { acc_range: value, ..self }
    }

    proof fn lemma_bits(byte: u8, f0: u8)
        by (bit_vector)
        requires
            f0 <= 0x03,
        ensures
            (byte & 0x03) == byte & 0x03,
            f0 & 0x03 == f0,
    {
    }

    /// What was written is what a read gives back: encoding and then decoding
    /// keeps every field.
    pub proof fn lemma_write_then_read(self)
        ensures
            Self::new_with_raw_value_spec(self.raw_value_spec()) == self,
    {
        self.acc_range.lemma_raw_value_round_trip();
        Self::lemma_bits(
            0,
            self.acc_range.raw_value_spec(),
        );
    }

    /// The value after a reset is the value of the reset byte.
    pub proof fn lemma_reset()
        ensures
            Self::RESET == Self::reset_byte_spec(),
            Self::new_with_raw_value_spec(Self::reset_byte_spec()) == Self::reset_spec(),
            Self::reset_spec().raw_value_spec() == Self::reset_byte_spec(),
    {
        assert(0x02u8 & 0x03 == 0x02) by (bit_vector);
    }

    /// Each field holds what the byte holds at the field's place: decoding
    /// keeps every bit that can be read.
    pub proof fn lemma_decode_extracts_fields(byte: u8)
        ensures
            Self::new_with_raw_value_spec(byte).acc_range.raw_value_spec() == byte & 0x03,
    {
        AccRangeMode::lemma_new_with_raw_value(byte);
    }
}

impl Default for AccRange {
    fn default() -> (r: Self)
        ensures
            r == Self::reset_spec(),
    {
        AccRange {
            acc_range: AccRangeMode::Range8G,
        }
    }
}

impl Register for AccRange {
    const ADDRESS: u32 = 0x41;

    open spec fn address_spec() -> u32 {
        0x41
    }

    open spec fn decode_spec(byte: u8) -> Self {
        Self::new_with_raw_value_spec(byte)
    }

    open spec fn encode_spec(self) -> u8 {
        self.raw_value_spec()
    }

    open spec fn well_formed(self) -> bool {
        true
    }

    open spec fn read_write_mask() -> u8 {
        0x03
    }

    fn decode(byte: u8) -> (r: Self) {
        Self::new_with_raw_value(byte)
    }

    fn encode(&self) -> (byte: u8) {
        self.raw_value()
    }

    proof fn lemma_address() {
    }

    proof fn lemma_read_then_write(byte: u8) {
        AccRangeMode::lemma_new_with_raw_value(byte);
        Self::lemma_bits(byte, 0);
    }
}

/// Gyroscope rate, bandwidth and filter modes.
///
/// Register `0x42`; `0xa9` after reset.
#[derive(Clone, Copy, Debug, PartialEq, Eq, Structural)]
pub struct GyrConf {
    /// Output data rate. (bits 3 to 0, read-write)
    pub gyr_odr: OutputDataRate,
    /// Bandwidth. (bits 5 to 4, read-write)
    pub gyro_bwp: GyrBwp,
    /// Performance-optimised noise behaviour rather than power-optimised. (bit 6, read-write)
    pub gyr_noise_perf: bool,
    /// Performance-optimised filtering rather than power-optimised. (bit 7, read-write)
    pub gyr_filter_perf: bool,
}

impl GyrConf {
    /// What the register holds after a reset.
    pub open spec fn reset_spec() -> Self {
        GyrConf {
            gyr_odr: OutputDataRate::Odr200,
            gyro_bwp: GyrBwp::Norm,
            gyr_noise_perf: false,
            gyr_filter_perf: true,
        }
    }

    /// The byte that the register holds after a reset.
    pub const RESET: u8 = 0xa9;

    /// The byte that the register holds after a reset.
    pub open spec fn reset_byte_spec() -> u8 {
        0xa9
    }

    /// The fields that `byte` stands for. A field that cannot be read holds
    /// what it holds after a reset.
    pub open spec fn new_with_raw_value_spec(byte: u8) -> Self {
        GyrConf {
            gyr_odr: OutputDataRate::new_with_raw_value_spec(byte),
            gyro_bwp: GyrBwp::new_with_raw_value_spec(byte >> 4),
            gyr_noise_perf: (byte >> 6) & 0x01 != 0,
            gyr_filter_perf: (byte >> 7) & 0x01 != 0,
        }
    }

    /// The byte that is written for these fields. A field that cannot be
    /// written leaves its bits clear.
    pub open spec fn raw_value_spec(self) -> u8 {
        self.gyr_odr.raw_value_spec()
            | (self.gyro_bwp.raw_value_spec() << 4)
            | ((if self.gyr_noise_perf { 1u8 } else { 0u8 }) << 6)
            | ((if self.gyr_filter_perf { 1u8 } else { 0u8 }) << 7)
    }

    pub fn new_with_raw_value(byte: u8) -> (r: Self)
        ensures
            r == Self::new_with_raw_value_spec(byte),
    {
        GyrConf {
            gyr_odr: OutputDataRate::new_with_raw_value(byte),
            gyro_bwp: GyrBwp::new_with_raw_value(byte >> 4),
            gyr_noise_perf: (byte >> 6) & 0x01 != 0,
            gyr_filter_perf: (byte >> 7) & 0x01 != 0,
        }
    }

    pub fn raw_value(&self) -> (byte: u8)
        ensures
            byte == self.raw_value_spec(),
    {
        self.gyr_odr.raw_value()
            | (self.gyro_bwp.raw_value() << 4)
            | ((if self.gyr_noise_perf { 1u8 } else { 0u8 }) << 6)
            | ((if self.gyr_filter_perf { 1u8 } else { 0u8 }) << 7)
    }

    pub fn gyr_odr(&self) -> (r: OutputDataRate)
        ensures
            r == self.gyr_odr,
    {
        self.gyr_odr
    }

    pub fn gyro_bwp(&self) -> (r: GyrBwp)
        ensures
            r == self.gyro_bwp,
    {
        self.gyro_bwp
    }

    pub fn gyr_noise_perf(&self) -> (r: bool)
        ensures
            r == self.gyr_noise_perf,
    {
        self.gyr_noise_perf
    }

    pub fn gyr_filter_perf(&self) -> (r: bool)
        ensures
            r == self.gyr_filter_perf,
    {
        self.gyr_filter_perf
    }

    /// The same register value with `gyr_odr` replaced.
    pub fn with_gyr_odr(self, value: OutputDataRate) -> (r: Self)
        ensures
            r == (GyrConf { gyr_odr: value, ..self }),
    {
        GyrConf { gyr_odr: value, ..self }
    }

    /// The same register value with `gyro_bwp` replaced.
    pub fn with_gyro_bwp(self, value: GyrBwp) -> (r: Self)
        ensures
            r == (GyrConf { gyro_bwp: value, ..self }),
    {
        GyrConf { gyro_bwp: value, ..self }
    }

    /// The same register value with `gyr_noise_perf` replaced.
    pub fn with_gyr_noise_perf(self, value: bool) -> (r: Self)
        ensures
            r == (GyrConf { gyr_noise_perf: value, ..self }),
    {
        GyrConf { gyr_noise_perf: value, ..self }
    }

    /// The same register value with `gyr_filter_perf` replaced.
    pub fn with_gyr_filter_perf(self, value: bool) -> (r: Self)
        ensures
            r == (GyrConf { gyr_filter_perf: value, ..self }),
    {
        GyrConf { gyr_filter_perf: value, ..self }
    }

    proof fn lemma_bits(byte: u8, f0: u8, f1: u8, f2: u8, f3: u8)
        by (bit_vector)
        requires
            f0 <= 0x0f,
            f1 <= 0x03,
            f2 <= 0x01,
            f3 <= 0x01,
        ensures
            (byte & 0x0f)
                | (((byte >> 4) & 0x03) << 4)
                | ((if (byte >> 6) & 0x01 != 0 { 1u8 } else { 0u8 }) << 6)
                | ((if (byte >> 7) & 0x01 != 0 { 1u8 } else { 0u8 }) << 7) == byte & 0xff,
            (f0 | (f1 << 4) | (f2 << 6) | (f3 << 7)) & 0x0f == f0,
            ((f0 | (f1 << 4) | (f2 << 6) | (f3 << 7)) >> 4) & 0x03 == f1,
            ((f0 | (f1 << 4) | (f2 << 6) | (f3 << 7)) >> 6) & 0x01 == f2,
            ((f0 | (f1 << 4) | (f2 << 6) | (f3 << 7)) >> 7) & 0x01 == f3,
    {
    }

    /// What was written is what a read gives back: encoding and then decoding
    /// keeps every field.
    pub proof fn lemma_write_then_read(self)
        ensures
            Self::new_with_raw_value_spec(self.raw_value_spec()) == self,
    {
        self.gyr_odr.lemma_raw_value_round_trip();
        self.gyro_bwp.lemma_raw_value_round_trip();
        Self::lemma_bits(
            0,
            self.gyr_odr.raw_value_spec(),
            self.gyro_bwp.raw_value_spec(),
            if self.gyr_noise_perf { 1u8 } else { 0u8 },
            if self.gyr_filter_perf { 1u8 } else { 0u8 },
        );
    }

    /// The value after a reset is the value of the reset byte.
    pub proof fn lemma_reset()
        ensures
            Self::RESET == Self::reset_byte_spec(),
            Self::new_with_raw_value_spec(Self::reset_byte_spec()) == Self::reset_spec(),
            Self::reset_spec().raw_value_spec() == Self::reset_byte_spec(),
    {
        assert(0xa9u8 & 0x0f == 0x09
            && (0xa9u8 >> 4) & 0x03 == 0x02
            && (0xa9u8 >> 6) & 0x01 == 0x00
            && (0xa9u8 >> 7) & 0x01 == 0x01
            && 0x09u8 | (0x02u8 << 4) | (0x00u8 << 6) | (0x01u8 << 7) == 0xa9) by (bit_vector);
    }

    /// Each field holds what the byte holds at the field's place: decoding
    /// keeps every bit that can be read.
    pub proof fn lemma_decode_extracts_fields(byte: u8)
        ensures
            Self::new_with_raw_value_spec(byte).gyr_odr.raw_value_spec() == byte & 0x0f,
            Self::new_with_raw_value_spec(byte).gyro_bwp.raw_value_spec() == (byte >> 4) & 0x03,
            Self::new_with_raw_value_spec(byte).gyr_noise_perf == ((byte >> 6) & 0x01 == 1),
            Self::new_with_raw_value_spec(byte).gyr_filter_perf == ((byte >> 7) & 0x01 == 1),
    {
        OutputDataRate::lemma_new_with_raw_value(byte);
        GyrBwp::lemma_new_with_raw_value(byte >> 4);
        lemma_low_bits(byte >> 6);
        lemma_low_bits(byte >> 7);
    }
}

impl Default for GyrConf {
    fn default() -> (r: Self)
        ensures
            r == Self::reset_spec(),
    {
        GyrConf {
            gyr_odr: OutputDataRate::Odr200,
            gyro_bwp: GyrBwp::Norm,
            gyr_noise_perf: false,
            gyr_filter_perf: true,
        }
    }
}

impl Register for GyrConf {
    const ADDRESS: u32 = 0x42;

    open spec fn address_spec() -> u32 {
        0x42
    }

    open spec fn decode_spec(byte: u8) -> Self {
        Self::new_with_raw_value_spec(byte)
    }

    open spec fn encode_spec(self) -> u8 {
        self.raw_value_spec()
    }

    open spec fn well_formed(self) -> bool {
        true
    }

    open spec fn read_write_mask() -> u8 {
        0xff
    }

    fn decode(byte: u8) -> (r: Self) {
        Self::new_with_raw_value(byte)
    }

    fn encode(&self) -> (byte: u8) {
        self.raw_value()
    }

    proof fn lemma_address() {
    }

    proof fn lemma_read_then_write(byte: u8) {
        OutputDataRate::lemma_new_with_raw_value(byte);
        GyrBwp::lemma_new_with_raw_value(byte >> 4);
        Self::lemma_bits(byte, 0, 0, 0, 0);
    }
}

/// Gyroscope full-scale ranges.
///
/// Register `0x43`; `0x00` after reset.
#[derive(Clone, Copy, Debug, PartialEq, Eq, Structural)]
pub struct GyrRange {
    /// Full-scale range of the main output. (bits 2 to 0, read-write)
    pub gyr_range: GyrRangeMode,
    /// Full-scale range of the image-stabilisation output. (bit 3, read-write)
    pub ois_range: OisRange,
}

impl GyrRange {
    /// What the register holds after a reset.
    pub open spec fn reset_spec() -> Self {
        GyrRange {
            gyr_range: GyrRangeMode::Range2000,
            ois_range: OisRange::Range250,
        }
    }

    /// The byte that the register holds after a reset.
    pub const RESET: u8 = 0x00;

    /// The byte that the register holds after a reset.
    pub open spec fn reset_byte_spec() -> u8 {
        0x00
    }

    /// The fields that `byte` stands for. A field that cannot be read holds
    /// what it holds after a reset.
    pub open spec fn new_with_raw_value_spec(byte: u8) -> Self {
        GyrRange {
            gyr_range: GyrRangeMode::new_with_raw_value_spec(byte),
            ois_range: OisRange::new_with_raw_value_spec(byte >> 3),
        }
    }

    /// The byte that is written for these fields. A field that cannot be
    /// written leaves its bits clear.
    pub open spec fn raw_value_spec(self) -> u8 {
        self.gyr_range.raw_value_spec() | (self.ois_range.raw_value_spec() << 3)
    }

    pub fn new_with_raw_value(byte: u8) -> (r: Self)
        ensures
            r == Self::new_with_raw_value_spec(byte),
    {
        GyrRange {
            gyr_range: GyrRangeMode::new_with_raw_value(byte),
            ois_range: OisRange::new_with_raw_value(byte >> 3),
        }
    }

    pub fn raw_value(&self) -> (byte: u8)
        ensures
            byte == self.raw_value_spec(),
    {
        self.gyr_range.raw_value() | (self.ois_range.raw_value() << 3)
    }

    pub fn gyr_range(&self) -> (r: GyrRangeMode)
        ensures
            r == self.gyr_range,
    {
        self.gyr_range
    }

    pub fn ois_range(&self) -> (r: OisRange)
        ensures
            r == self.ois_range,
    {
        self.ois_range
    }

    /// The same register value with `gyr_range` replaced.
    pub fn with_gyr_range(self, value: GyrRangeMode) -> (r: Self)
        ensures
            r == (GyrRange { gyr_range: value, ..self }),
    {
        GyrRange { gyr_range: value, ..self }
    }

    /// The same register value with `ois_range` replaced.
    pub fn with_ois_range(self, value: OisRange) -> (r: Self)
        ensures
            r == (GyrRange { ois_range: value, ..self }),
    {
        GyrRange { ois_range: value, ..self }
    }

    proof fn lemma_bits(byte: u8, f0: u8, f1: u8)
        by (bit_vector)
        requires
            f0 <= 0x07,
            f1 <= 0x01,
        ensures
            (byte & 0x07) | (((byte >> 3) & 0x01) << 3) == byte & 0x0f,
            (f0 | (f1 << 3)) & 0x07 == f0,
            ((f0 | (f1 << 3)) >> 3) & 0x01 == f1,
    {
    }

    /// What was written is what a read gives back: encoding and then decoding
    /// keeps every field.
    pub proof fn lemma_write_then_read(self)
        ensures
            Self::new_with_raw_value_spec(self.raw_value_spec()) == self,
    {
        self.gyr_range.lemma_raw_value_round_trip();
        self.ois_range.lemma_raw_value_round_trip();
        Self::lemma_bits(
            0,
            self.gyr_range.raw_value_spec(),
            self.ois_range.raw_value_spec(),
        );
    }

    /// The value after a reset is the value of the reset byte.
    pub proof fn lemma_reset()
        ensures
            Self::RESET == Self::reset_byte_spec(),
            Self::new_with_raw_value_spec(Self::reset_byte_spec()) == Self::reset_spec(),
            Self::reset_spec().raw_value_spec() == Self::reset_byte_spec(),
    {
        assert(0x00u8 & 0x07 == 0x00
            && (0x00u8 >> 3) & 0x01 == 0x00
            && 0x00u8 | (0x00u8 << 3) == 0x00) by (bit_vector);
    }

    /// Each field holds what the byte holds at the field's place: decoding
    /// keeps every bit that can be read.
    pub proof fn lemma_decode_extracts_fields(byte: u8)
        ensures
            Self::new_with_raw_value_spec(byte).gyr_range.raw_value_spec() == byte & 0x07,
            Self::new_with_raw_value_spec(byte).ois_range.raw_value_spec() == (byte >> 3) & 0x01,
    {
        GyrRangeMode::lemma_new_with_raw_value(byte);
        OisRange::lemma_new_with_raw_value(byte >> 3);
    }
}

impl Default for GyrRange {
    fn default() -> (r: Self)
        ensures
            r == Self::reset_spec(),
    {
        GyrRange {
            gyr_range: GyrRangeMode::Range2000,
            ois_range: OisRange::Range250,
        }
    }
}

impl Register for GyrRange {
    const ADDRESS: u32 = 0x43;

    open spec fn address_spec() -> u32 {
        0x43
    }

    open spec fn decode_spec(byte: u8) -> Self {
        Self::new_with_raw_value_spec(byte)
    }

    open spec fn encode_spec(self) -> u8 {
        self.raw_value_spec()
    }

    open spec fn well_formed(self) -> bool {
        true
    }

    open spec fn read_write_mask() -> u8 {
        0x0f
    }

    fn decode(byte: u8) -> (r: Self) {
        Self::new_with_raw_value(byte)
    }

    fn encode(&self) -> (byte: u8) {
        self.raw_value()
    }

    proof fn lemma_address() {
    }

    proof fn lemma_read_then_write(byte: u8) {
        GyrRangeMode::lemma_new_with_raw_value(byte);
        OisRange::lemma_new_with_raw_value(byte >> 3);
        Self::lemma_bits(byte, 0, 0);
    }
}

/// Start of the configuration load.
///
/// Register `0x59`; `0x00` after reset.
#[derive(Clone, Copy, Debug, PartialEq, Eq, Structural)]
pub struct InitCtrl {
    /// Set once the configuration is uploaded; clear while uploading. (bit 0, read-write)
    pub init_ctrl: bool,
}

impl InitCtrl {
    /// What the register holds after a reset.
    pub open spec fn reset_spec() -> Self {
        InitCtrl {
            init_ctrl: false,
        }
    }

    /// The byte that the register holds after a reset.
    pub const RESET: u8 = 0x00;

    /// The byte that the register holds after a reset.
    pub open spec fn reset_byte_spec() -> u8 {
        0x00
    }

    /// The fields that `byte` stands for. A field that cannot be read holds
    /// what it holds after a reset.
    pub open spec fn new_with_raw_value_spec(byte: u8) -> Self {
        InitCtrl {
            init_ctrl: byte & 0x01 != 0,
        }
    }

    /// The byte that is written for these fields. A field that cannot be
    /// written leaves its bits clear.
    pub open spec fn raw_value_spec(self) -> u8 {
        (if self.init_ctrl { 1u8 } else { 0u8 })
    }

    pub fn new_with_raw_value(byte: u8) -> (r: Self)
        ensures
            r == Self::new_with_raw_value_spec(byte),
    {
        InitCtrl {
            init_ctrl: byte & 0x01 != 0,
        }
    }

    pub fn raw_value(&self) -> (byte: u8)
        ensures
            byte == self.raw_value_spec(),
    {
        (if self.init_ctrl { 1u8 } else { 0u8 })
    }

    pub fn init_ctrl(&self) -> (r: bool)
        ensures
            r == self.init_ctrl,
    {
        self.init_ctrl
    }

    /// The same register value with `init_ctrl` replaced.
    pub fn with_init_ctrl(self, value: bool) -> (r: Self)
        ensures
            r == (InitCtrl { init_ctrl: value, ..self }),
    {
        InitCtrl { init_ctrl: value, ..self }
    }

    proof fn lemma_bits(byte: u8, f0: u8)
        by (bit_vector)
        requires
            f0 <= 0x01,
        ensures
            (if byte & 0x01 != 0 { 1u8 } else { 0u8 }) == byte & 0x01,
            f0 & 0x01 == f0,
    {
    }

    /// What was written is what a read gives back: encoding and then decoding
    /// keeps every field.
    pub proof fn lemma_write_then_read(self)
        ensures
            Self::new_with_raw_value_spec(self.raw_value_spec()) == self,
    {
        Self::lemma_bits(
            0,
            if self.init_ctrl { 1u8 } else { 0u8 },
        );
    }

    /// The value after a reset is the value of the reset byte.
    pub proof fn lemma_reset()
        ensures
            Self::RESET == Self::reset_byte_spec(),
            Self::new_with_raw_value_spec(Self::reset_byte_spec()) == Self::reset_spec(),
            Self::reset_spec().raw_value_spec() == Self::reset_byte_spec(),
    {
        assert(0x00u8 & 0x01 == 0x00) by (bit_vector);
    }

    /// Each field holds what the byte holds at the field's place: decoding
    /// keeps every bit that can be read.
    pub proof fn lemma_decode_extracts_fields(byte: u8)
        ensures
            Self::new_with_raw_value_spec(byte).init_ctrl == (byte & 0x01 == 1),
    {
        lemma_low_bits(byte);
    }
}

impl Default for InitCtrl {
    fn default() -> (r: Self)
        ensures
            r == Self::reset_spec(),
    {
        InitCtrl {
            init_ctrl: false,
        }
    }
}

impl Register for InitCtrl {
    const ADDRESS: u32 = 0x59;

    open spec fn address_spec() -> u32 {
        0x59
    }

    open spec fn decode_spec(byte: u8) -> Self {
        Self::new_with_raw_value_spec(byte)
    }

    open spec fn encode_spec(self) -> u8 {
        self.raw_value_spec()
    }

    open spec fn well_formed(self) -> bool {
        true
    }

    open spec fn read_write_mask() -> u8 {
        0x01
    }

    fn decode(byte: u8) -> (r: Self) {
        Self::new_with_raw_value(byte)
    }

    fn encode(&self) -> (byte: u8) {
        self.raw_value()
    }

    proof fn lemma_address() {
    }

    proof fn lemma_read_then_write(byte: u8) {
        Self::lemma_bits(byte, 0);
    }
}

/// Low part of the word address at which an upload continues.
///
/// Register `0x5b`; `0x00` after reset.
#[derive(Clone, Copy, Debug, PartialEq, Eq, Structural)]
pub struct InitAddr0 {
    /// Bits 3 to 0 of the address. (bits 3 to 0, read-write)
    pub base_0_3: u8,
}

impl InitAddr0 {
    /// What the register holds after a reset.
    pub open spec fn reset_spec() -> Self {
        InitAddr0 {
            base_0_3: 0x00,
        }
    }

    /// The byte that the register holds after a reset.
    pub const RESET: u8 = 0x00;

    /// The byte that the register holds after a reset.
    pub open spec fn reset_byte_spec() -> u8 {
        0x00
    }

    /// The fields that `byte` stands for. A field that cannot be read holds
    /// what it holds after a reset.
    pub open spec fn new_with_raw_value_spec(byte: u8) -> Self {
        InitAddr0 {
            base_0_3: byte & 0x0f,
        }
    }

    /// The byte that is written for these fields. A field that cannot be
    /// written leaves its bits clear.
    pub open spec fn raw_value_spec(self) -> u8 {
        self.base_0_3 & 0x0f
    }

    pub fn new_with_raw_value(byte: u8) -> (r: Self)
        ensures
            r == Self::new_with_raw_value_spec(byte),
            r.base_0_3 <= 0x0f,
    {
        proof {
            lemma_low_bits(byte);
        }
        InitAddr0 {
            base_0_3: byte & 0x0f,
        }
    }

    pub fn raw_value(&self) -> (byte: u8)
        ensures
            byte == self.raw_value_spec(),
    {
        self.base_0_3 & 0x0f
    }

    pub fn base_0_3(&self) -> (r: u8)
        ensures
            r == self.base_0_3,
    {
        self.base_0_3
    }

    /// The same register value with `base_0_3` replaced.
    pub fn with_base_0_3(self, value: u8) -> (r: Self)
        requires
            value <= 0x0f,
        ensures
            r == (InitAddr0 { base_0_3: value, ..self }),
    {
        InitAddr0 { base_0_3: value, ..self }
    }

    proof fn lemma_bits(byte: u8, f0: u8)
        by (bit_vector)
        requires
            f0 <= 0x0f,
        ensures
            (byte & 0x0f & 0x0f) == byte & 0x0f,
            f0 & 0x0f & 0x0f == f0,
    {
    }

    /// What was written is what a read gives back: encoding and then decoding
    /// keeps every field.
    pub proof fn lemma_write_then_read(self)
        requires
            self.base_0_3 <= 0x0f,
        ensures
            Self::new_with_raw_value_spec(self.raw_value_spec()) == self,
    {
        Self::lemma_bits(
            0,
            self.base_0_3,
        );
    }

    /// The value after a reset is the value of the reset byte.
    pub proof fn lemma_reset()
        ensures
            Self::RESET == Self::reset_byte_spec(),
            Self::new_with_raw_value_spec(Self::reset_byte_spec()) == Self::reset_spec(),
            Self::reset_spec().raw_value_spec() == Self::reset_byte_spec(),
    {
        assert(0x00u8 & 0x0f == 0x00
            && 0x00u8 & 0x0f == 0x00) by (bit_vector);
    }

    /// Each field holds what the byte holds at the field's place: decoding
    /// keeps every bit that can be read.
    pub proof fn lemma_decode_extracts_fields(byte: u8)
        ensures
            Self::new_with_raw_value_spec(byte).base_0_3 == byte & 0x0f,
    {
    }
}

impl Default for InitAddr0 {
    fn default() -> (r: Self)
        ensures
            r == Self::reset_spec(),
    {
        InitAddr0 {
            base_0_3: 0x00,
        }
    }
}

impl Register for InitAddr0 {
    const ADDRESS: u32 = 0x5b;

    open spec fn address_spec() -> u32 {
        0x5b
    }

    open spec fn decode_spec(byte: u8) -> Self {
        Self::new_with_raw_value_spec(byte)
    }

    open spec fn encode_spec(self) -> u8 {
        self.raw_value_spec()
    }

    open spec fn well_formed(self) -> bool {
        self.base_0_3 <= 0x0f
    }

    open spec fn read_write_mask() -> u8 {
        0x0f
    }

    fn decode(byte: u8) -> (r: Self) {
        Self::new_with_raw_value(byte)
    }

    fn encode(&self) -> (byte: u8) {
        self.raw_value()
    }

    proof fn lemma_address() {
    }

    proof fn lemma_read_then_write(byte: u8) {
        Self::lemma_bits(byte, 0);
    }
}

/// High part of the word address at which an upload continues.
///
/// Register `0x5c`; `0x00` after reset.
#[derive(Clone, Copy, Debug, PartialEq, Eq, Structural)]
pub struct InitAddr1 {
    /// Bits 11 to 4 of the address. (bits 7 to 0, read-write)
    pub base_11_4: u8,
}

impl InitAddr1 {
    /// What the register holds after a reset.
    pub open spec fn reset_spec() -> Self {
        InitAddr1 {
            base_11_4: 0x00,
        }
    }

    /// The byte that the register holds after a reset.
    pub const RESET: u8 = 0x00;

    /// The byte that the register holds after a reset.
    pub open spec fn reset_byte_spec() -> u8 {
        0x00
    }

    /// The fields that `byte` stands for. A field that cannot be read holds
    /// what it holds after a reset.
    pub open spec fn new_with_raw_value_spec(byte: u8) -> Self {
        InitAddr1 {
            base_11_4: byte,
        }
    }

    /// The byte that is written for these fields. A field that cannot be
    /// written leaves its bits clear.
    pub open spec fn raw_value_spec(self) -> u8 {
        self.base_11_4
    }

    pub fn new_with_raw_value(byte: u8) -> (r: Self)
        ensures
            r == Self::new_with_raw_value_spec(byte),
    {
        InitAddr1 {
            base_11_4: byte,
        }
    }

    pub fn raw_value(&self) -> (byte: u8)
        ensures
            byte == self.raw_value_spec(),
    {
        self.base_11_4
    }

    pub fn base_11_4(&self) -> (r: u8)
        ensures
            r == self.base_11_4,
    {
        self.base_11_4
    }

    /// The same register value with `base_11_4` replaced.
    pub fn with_base_11_4(self, value: u8) -> (r: Self)
        ensures
            r == (InitAddr1 { base_11_4: value, ..self }),
    {
        InitAddr1 { base_11_4: value, ..self }
    }

    /// What was written is what a read gives back: encoding and then decoding
    /// keeps every field.
    pub proof fn lemma_write_then_read(self)
        ensures
            Self::new_with_raw_value_spec(self.raw_value_spec()) == self,
    {

    }

    /// The value after a reset is the value of the reset byte.
    pub proof fn lemma_reset()
        ensures
            Self::RESET == Self::reset_byte_spec(),
            Self::new_with_raw_value_spec(Self::reset_byte_spec()) == Self::reset_spec(),
            Self::reset_spec().raw_value_spec() == Self::reset_byte_spec(),
    {
    }

    /// Each field holds what the byte holds at the field's place: decoding
    /// keeps every bit that can be read.
    pub proof fn lemma_decode_extracts_fields(byte: u8)
        ensures
            Self::new_with_raw_value_spec(byte).base_11_4 == byte,
    {
    }
}

impl Default for InitAddr1 {
    fn default() -> (r: Self)
        ensures
            r == Self::reset_spec(),
    {
        InitAddr1 {
            base_11_4: 0x00,
        }
    }
}

impl Register for InitAddr1 {
    const ADDRESS: u32 = 0x5c;

    open spec fn address_spec() -> u32 {
        0x5c
    }

    open spec fn decode_spec(byte: u8) -> Self {
        Self::new_with_raw_value_spec(byte)
    }

    open spec fn encode_spec(self) -> u8 {
        self.raw_value_spec()
    }

    open spec fn well_formed(self) -> bool {
        true
    }

    open spec fn read_write_mask() -> u8 {
        0xff
    }

    fn decode(byte: u8) -> (r: Self) {
        Self::new_with_raw_value(byte)
    }

    fn encode(&self) -> (byte: u8) {
        self.raw_value()
    }

    proof fn lemma_address() {
    }

    proof fn lemma_read_then_write(byte: u8) {
        lemma_low_bits(byte);
    }
}

/// Window through which the configuration is uploaded.
///
/// Register `0x5e`; `0x00` after reset.
#[derive(Clone, Copy, Debug, PartialEq, Eq, Structural)]
pub struct InitData {
    /// The next byte of the configuration. (bits 7 to 0, read-write)
    pub data: u8,
}

impl InitData {
    /// What the register holds after a reset.
    pub open spec fn reset_spec() -> Self {
        InitData {
            data: 0x00,
        }
    }

    /// The byte that the register holds after a reset.
    pub const RESET: u8 = 0x00;

    /// The byte that the register holds after a reset.
    pub open spec fn reset_byte_spec() -> u8 {
        0x00
    }

    /// The fields that `byte` stands for. A field that cannot be read holds
    /// what it holds after a reset.
    pub open spec fn new_with_raw_value_spec(byte: u8) -> Self {
        InitData {
            data: byte,
        }
    }

    /// The byte that is written for these fields. A field that cannot be
    /// written leaves its bits clear.
    pub open spec fn raw_value_spec(self) -> u8 {
        self.data
    }

    pub fn new_with_raw_value(byte: u8) -> (r: Self)
        ensures
            r == Self::new_with_raw_value_spec(byte),
    {
        InitData {
            data: byte,
        }
    }

    pub fn raw_value(&self) -> (byte: u8)
        ensures
            byte == self.raw_value_spec(),
    {
        self.data
    }

    pub fn data(&self) -> (r: u8)
        ensures
            r == self.data,
    {
        self.data
    }

    /// The same register value with `data` replaced.
    pub fn with_data(self, value: u8) -> (r: Self)
        ensures
            r == (InitData { data: value, ..self }),
    {
        InitData { data: value, ..self }
    }

    /// What was written is what a read gives back: encoding and then decoding
    /// keeps every field.
    pub proof fn lemma_write_then_read(self)
        ensures
            Self::new_with_raw_value_spec(self.raw_value_spec()) == self,
    {

    }

    /// The value after a reset is the value of the reset byte.
    pub proof fn lemma_reset()
        ensures
            Self::RESET == Self::reset_byte_spec(),
            Self::new_with_raw_value_spec(Self::reset_byte_spec()) == Self::reset_spec(),
            Self::reset_spec().raw_value_spec() == Self::reset_byte_spec(),
    {
    }

    /// Each field holds what the byte holds at the field's place: decoding
    /// keeps every bit that can be read.
    pub proof fn lemma_decode_extracts_fields(byte: u8)
        ensures
            Self::new_with_raw_value_spec(byte).data == byte,
    {
    }
}

impl Default for InitData {
    fn default() -> (r: Self)
        ensures
            r == Self::reset_spec(),
    {
        InitData {
            data: 0x00,
        }
    }
}

impl Register for InitData {
    const ADDRESS: u32 = 0x5e;

    open spec fn address_spec() -> u32 {
        0x5e
    }

    open spec fn decode_spec(byte: u8) -> Self {
        Self::new_with_raw_value_spec(byte)
    }

    open spec fn encode_spec(self) -> u8 {
        self.raw_value_spec()
    }

    open spec fn well_formed(self) -> bool {
        true
    }

    open spec fn read_write_mask() -> u8 {
        0xff
    }

    fn decode(byte: u8) -> (r: Self) {
        Self::new_with_raw_value(byte)
    }

    fn encode(&self) -> (byte: u8) {
        self.raw_value()
    }

    proof fn lemma_address() {
    }

    proof fn lemma_read_then_write(byte: u8) {
        lemma_low_bits(byte);
    }
}

/// Power-saving behaviour.
///
/// Register `0x7c`; `0x03` after reset.
#[derive(Clone, Copy, Debug, PartialEq, Eq, Structural)]
pub struct PwrConf {
    /// Advanced power save; must be clear while the configuration is uploaded. (bit 0, read-write)
    pub adv_power_save: bool,
    /// The FIFO stays readable in low-power mode. (bit 1, read-write)
    pub fifo_self_wake_up: bool,
    /// Fast power-up. (bit 2, read-write)
    pub fup_en: bool,
}

impl PwrConf {
    /// What the register holds after a reset.
    pub open spec fn reset_spec() -> Self {
        PwrConf {
            adv_power_save: true,
            fifo_self_wake_up: true,
            fup_en: false,
        }
    }

    /// The byte that the register holds after a reset.
    pub const RESET: u8 = 0x03;

    /// The byte that the register holds after a reset.
    pub open spec fn reset_byte_spec() -> u8 {
        0x03
    }

    /// The fields that `byte` stands for. A field that cannot be read holds
    /// what it holds after a reset.
    pub open spec fn new_with_raw_value_spec(byte: u8) -> Self {
        PwrConf {
            adv_power_save: byte & 0x01 != 0,
            fifo_self_wake_up: (byte >> 1) & 0x01 != 0,
            fup_en: (byte >> 2) & 0x01 != 0,
        }
    }

    /// The byte that is written for these fields. A field that cannot be
    /// written leaves its bits clear.
    pub open spec fn raw_value_spec(self) -> u8 {
        (if self.adv_power_save { 1u8 } else { 0u8 })
            | ((if self.fifo_self_wake_up { 1u8 } else { 0u8 }) << 1)
            | ((if self.fup_en { 1u8 } else { 0u8 }) << 2)
    }

    pub fn new_with_raw_value(byte: u8) -> (r: Self)
        ensures
            r == Self::new_with_raw_value_spec(byte),
    {
        PwrConf {
            adv_power_save: byte & 0x01 != 0,
            fifo_self_wake_up: (byte >> 1) & 0x01 != 0,
            fup_en: (byte >> 2) & 0x01 != 0,
        }
    }

    pub fn raw_value(&self) -> (byte: u8)
        ensures
            byte == self.raw_value_spec(),
    {
        (if self.adv_power_save { 1u8 } else { 0u8 })
            | ((if self.fifo_self_wake_up { 1u8 } else { 0u8 }) << 1)
            | ((if self.fup_en { 1u8 } else { 0u8 }) << 2)
    }

    pub fn adv_power_save(&self) -> (r: bool)
        ensures
            r == self.adv_power_save,
    {
        self.adv_power_save
    }

    pub fn fifo_self_wake_up(&self) -> (r: bool)
        ensures
            r == self.fifo_self_wake_up,
    {
        self.fifo_self_wake_up
    }

    pub fn fup_en(&self) -> (r: bool)
        ensures
            r == self.fup_en,
    {
        self.fup_en
    }

    /// The same register value with `adv_power_save` replaced.
    pub fn with_adv_power_save(self, value: bool) -> (r: Self)
        ensures
            r == (PwrConf { adv_power_save: value, ..self }),
    {
        PwrConf { adv_power_save: value, ..self }
    }

    /// The same register value with `fifo_self_wake_up` replaced.
    pub fn with_fifo_self_wake_up(self, value: bool) -> (r: Self)
        ensures
            r == (PwrConf { fifo_self_wake_up: value, ..self }),
    {
        PwrConf { fifo_self_wake_up: value, ..self }
    }

    /// The same register value with `fup_en` replaced.
    pub fn with_fup_en(self, value: bool) -> (r: Self)
        ensures
            r == (PwrConf { fup_en: value, ..self }),
    {
        PwrConf { fup_en: value, ..self }
    }

    proof fn lemma_bits(byte: u8, f0: u8, f1: u8, f2: u8)
        by (bit_vector)
        requires
            f0 <= 0x01,
            f1 <= 0x01,
            f2 <= 0x01,
        ensures
            (if byte & 0x01 != 0 { 1u8 } else { 0u8 })
                | ((if (byte >> 1) & 0x01 != 0 { 1u8 } else { 0u8 }) << 1)
                | ((if (byte >> 2) & 0x01 != 0 { 1u8 } else { 0u8 }) << 2) == byte & 0x07,
            (f0 | (f1 << 1) | (f2 << 2)) & 0x01 == f0,
            ((f0 | (f1 << 1) | (f2 << 2)) >> 1) & 0x01 == f1,
            ((f0 | (f1 << 1) | (f2 << 2)) >> 2) & 0x01 == f2,
    {
    }

    /// What was written is what a read gives back: encoding and then decoding
    /// keeps every field.
    pub proof fn lemma_write_then_read(self)
        ensures
            Self::new_with_raw_value_spec(self.raw_value_spec()) == self,
    {
        Self::lemma_bits(
            0,
            if self.adv_power_save { 1u8 } else { 0u8 },
            if self.fifo_self_wake_up { 1u8 } else { 0u8 },
            if self.fup_en { 1u8 } else { 0u8 },
        );
    }

    /// The value after a reset is the value of the reset byte.
    pub proof fn lemma_reset()
        ensures
            Self::RESET == Self::reset_byte_spec(),
            Self::new_with_raw_value_spec(Self::reset_byte_spec()) == Self::reset_spec(),
            Self::reset_spec().raw_value_spec() == Self::reset_byte_spec(),
    {
        assert(0x03u8 & 0x01 == 0x01
            && (0x03u8 >> 1) & 0x01 == 0x01
            && (0x03u8 >> 2) & 0x01 == 0x00
            && 0x01u8 | (0x01u8 << 1) | (0x00u8 << 2) == 0x03) by (bit_vector);
    }

    /// Each field holds what the byte holds at the field's place: decoding
    /// keeps every bit that can be read.
    pub proof fn lemma_decode_extracts_fields(byte: u8)
        ensures
            Self::new_with_raw_value_spec(byte).adv_power_save == (byte & 0x01 == 1),
            Self::new_with_raw_value_spec(byte).fifo_self_wake_up == ((byte >> 1) & 0x01 == 1),
            Self::new_with_raw_value_spec(byte).fup_en == ((byte >> 2) & 0x01 == 1),
    {
        lemma_low_bits(byte);
        lemma_low_bits(byte >> 1);
        lemma_low_bits(byte >> 2);
    }
}

impl Default for PwrConf {
    fn default() -> (r: Self)
        ensures
            r == Self::reset_spec(),
    {
        PwrConf {
            adv_power_save: true,
            fifo_self_wake_up: true,
            fup_en: false,
        }
    }
}

impl Register for PwrConf {
    const ADDRESS: u32 = 0x7c;

    open spec fn address_spec() -> u32 {
        0x7c
    }

    open spec fn decode_spec(byte: u8) -> Self {
        Self::new_with_raw_value_spec(byte)
    }

    open spec fn encode_spec(self) -> u8 {
        self.raw_value_spec()
    }

    open spec fn well_formed(self) -> bool {
        true
    }

    open spec fn read_write_mask() -> u8 {
        0x07
    }

    fn decode(byte: u8) -> (r: Self) {
        Self::new_with_raw_value(byte)
    }

    fn encode(&self) -> (byte: u8) {
        self.raw_value()
    }

    proof fn lemma_address() {
    }

    proof fn lemma_read_then_write(byte: u8) {
        Self::lemma_bits(byte, 0, 0, 0);
    }
}

/// Which sensors are switched on.
///
/// Register `0x7d`; `0x00` after reset.
#[derive(Clone, Copy, Debug, PartialEq, Eq, Structural)]
pub struct PwrCtrl {
    /// The auxiliary sensor. (bit 0, read-write)
    pub aux_en: bool,
    /// The gyroscope. (bit 1, read-write)
    pub gyr_en: bool,
    /// The accelerometer. (bit 2, read-write)
    pub acc_en: bool,
    /// The temperature sensor. (bit 3, read-write)
    pub temp_en: bool,
}

impl PwrCtrl {
    /// What the register holds after a reset.
    pub open spec fn reset_spec() -> Self {
        PwrCtrl {
            aux_en: false,
            gyr_en: false,
            acc_en: false,
            temp_en: false,
        }
    }

    /// The byte that the register holds after a reset.
    pub const RESET: u8 = 0x00;

    /// The byte that the register holds after a reset.
    pub open spec fn reset_byte_spec() -> u8 {
        0x00
    }

    /// The fields that `byte` stands for. A field that cannot be read holds
    /// what it holds after a reset.
    pub open spec fn new_with_raw_value_spec(byte: u8) -> Self {
        PwrCtrl {
            aux_en: byte & 0x01 != 0,
            gyr_en: (byte >> 1) & 0x01 != 0,
            acc_en: (byte >> 2) & 0x01 != 0,
            temp_en: (byte >> 3) & 0x01 != 0,
        }
    }

    /// The byte that is written for these fields. A field that cannot be
    /// written leaves its bits clear.
    pub open spec fn raw_value_spec(self) -> u8 {
        (if self.aux_en { 1u8 } else { 0u8 })
            | ((if self.gyr_en { 1u8 } else { 0u8 }) << 1)
            | ((if self.acc_en { 1u8 } else { 0u8 }) << 2)
            | ((if self.temp_en { 1u8 } else { 0u8 }) << 3)
    }

    pub fn new_with_raw_value(byte: u8) -> (r: Self)
        ensures
            r == Self::new_with_raw_value_spec(byte),
    {
        PwrCtrl {
            aux_en: byte & 0x01 != 0,
            gyr_en: (byte >> 1) & 0x01 != 0,
            acc_en: (byte >> 2) & 0x01 != 0,
            temp_en: (byte >> 3) & 0x01 != 0,
        }
    }

    pub fn raw_value(&self) -> (byte: u8)
        ensures
            byte == self.raw_value_spec(),
    {
        (if self.aux_en { 1u8 } else { 0u8 })
            | ((if self.gyr_en { 1u8 } else { 0u8 }) << 1)
            | ((if self.acc_en { 1u8 } else { 0u8 }) << 2)
            | ((if self.temp_en { 1u8 } else { 0u8 }) << 3)
    }

    pub fn aux_en(&self) -> (r: bool)
        ensures
            r == self.aux_en,
    {
        self.aux_en
    }

    pub fn gyr_en(&self) -> (r: bool)
        ensures
            r == self.gyr_en,
    {
        self.gyr_en
    }

    pub fn acc_en(&self) -> (r: bool)
        ensures
            r == self.acc_en,
    {
        self.acc_en
    }

    pub fn temp_en(&self) -> (r: bool)
        ensures
            r == self.temp_en,
    {
        self.temp_en
    }

    /// The same register value with `aux_en` replaced.
    pub fn with_aux_en(self, value: bool) -> (r: Self)
        ensures
            r == (PwrCtrl { aux_en: value, ..self }),
    {
        PwrCtrl { aux_en: value, ..self }
    }

    /// The same register value with `gyr_en` replaced.
    pub fn with_gyr_en(self, value: bool) -> (r: Self)
        ensures
            r == (PwrCtrl { gyr_en: value, ..self }),
    {
        PwrCtrl { gyr_en: value, ..self }
    }

    /// The same register value with `acc_en` replaced.
    pub fn with_acc_en(self, value: bool) -> (r: Self)
        ensures
            r == (PwrCtrl { acc_en: value, ..self }),
    {
        PwrCtrl { acc_en: value, ..self }
    }

    /// The same register value with `temp_en` replaced.
    pub fn with_temp_en(self, value: bool) -> (r: Self)
        ensures
            r == (PwrCtrl { temp_en: value, ..self }),
    {
        PwrCtrl { temp_en: value, ..self }
    }

    proof fn lemma_bits(byte: u8, f0: u8, f1: u8, f2: u8, f3: u8)
        by (bit_vector)
        requires
            f0 <= 0x01,
            f1 <= 0x01,
            f2 <= 0x01,
            f3 <= 0x01,
        ensures
            (if byte & 0x01 != 0 { 1u8 } else { 0u8 })
                | ((if (byte >> 1) & 0x01 != 0 { 1u8 } else { 0u8 }) << 1)
                | ((if (byte >> 2) & 0x01 != 0 { 1u8 } else { 0u8 }) << 2)
                | ((if (byte >> 3) & 0x01 != 0 { 1u8 } else { 0u8 }) << 3) == byte & 0x0f,
            (f0 | (f1 << 1) | (f2 << 2) | (f3 << 3)) & 0x01 == f0,
            ((f0 | (f1 << 1) | (f2 << 2) | (f3 << 3)) >> 1) & 0x01 == f1,
            ((f0 | (f1 << 1) | (f2 << 2) | (f3 << 3)) >> 2) & 0x01 == f2,
            ((f0 | (f1 << 1) | (f2 << 2) | (f3 << 3)) >> 3) & 0x01 == f3,
    {
    }

    /// What was written is what a read gives back: encoding and then decoding
    /// keeps every field.
    pub proof fn lemma_write_then_read(self)
        ensures
            Self::new_with_raw_value_spec(self.raw_value_spec()) == self,
    {
        Self::lemma_bits(
            0,
            if self.aux_en { 1u8 } else { 0u8 },
            if self.gyr_en { 1u8 } else { 0u8 },
            if self.acc_en { 1u8 } else { 0u8 },
            if self.temp_en { 1u8 } else { 0u8 },
        );
    }

    /// The value after a reset is the value of the reset byte.
    pub proof fn lemma_reset()
        ensures
            Self::RESET == Self::reset_byte_spec(),
            Self::new_with_raw_value_spec(Self::reset_byte_spec()) == Self::reset_spec(),
            Self::reset_spec().raw_value_spec() == Self::reset_byte_spec(),
    {
        assert(0x00u8 & 0x01 == 0x00
            && (0x00u8 >> 1) & 0x01 == 0x00
            && (0x00u8 >> 2) & 0x01 == 0x00
            && (0x00u8 >> 3) & 0x01 == 0x00
            && 0x00u8 | (0x00u8 << 1) | (0x00u8 << 2) | (0x00u8 << 3) == 0x00) by (bit_vector);
    }

    /// Each field holds what the byte holds at the field's place: decoding
    /// keeps every bit that can be read.
    pub proof fn lemma_decode_extracts_fields(byte: u8)
        ensures
            Self::new_with_raw_value_spec(byte).aux_en == (byte & 0x01 == 1),
            Self::new_with_raw_value_spec(byte).gyr_en == ((byte >> 1) & 0x01 == 1),
            Self::new_with_raw_value_spec(byte).acc_en == ((byte >> 2) & 0x01 == 1),
            Self::new_with_raw_value_spec(byte).temp_en == ((byte >> 3) & 0x01 == 1),
    {
        lemma_low_bits(byte);
        lemma_low_bits(byte >> 1);
        lemma_low_bits(byte >> 2);
        lemma_low_bits(byte >> 3);
    }
}

impl Default for PwrCtrl {
    fn default() -> (r: Self)
        ensures
            r == Self::reset_spec(),
    {
        PwrCtrl {
            aux_en: false,
            gyr_en: false,
            acc_en: false,
            temp_en: false,
        }
    }
}

impl Register for PwrCtrl {
    const ADDRESS: u32 = 0x7d;

    open spec fn address_spec() -> u32 {
        0x7d
    }

    open spec fn decode_spec(byte: u8) -> Self {
        Self::new_with_raw_value_spec(byte)
    }

    open spec fn encode_spec(self) -> u8 {
        self.raw_value_spec()
    }

    open spec fn well_formed(self) -> bool {
        true
    }

    open spec fn read_write_mask() -> u8 {
        0x0f
    }

    fn decode(byte: u8) -> (r: Self) {
        Self::new_with_raw_value(byte)
    }

    fn encode(&self) -> (byte: u8) {
        self.raw_value()
    }

    proof fn lemma_address() {
    }

    proof fn lemma_read_then_write(byte: u8) {
        Self::lemma_bits(byte, 0, 0, 0, 0);
    }
}

} // verus!
