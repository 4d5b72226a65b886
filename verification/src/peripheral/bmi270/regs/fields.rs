//! The enumerated codes that register fields hold.

use super::bits::lemma_low_bits;
use vstd::prelude::*;

verus! {

/// Which sensor reported an error since the last read of the event register.
///
/// A 2-bit code: every pattern of those bits is one of the variants.
#[derive(Clone, Copy, Debug, PartialEq, Eq, Structural)]
pub enum ErrorCode {
    /// No error is pending.
    NoError,
    /// The accelerometer reported an error.
    AccErr,
    /// The gyroscope reported an error.
    GyrErr,
    /// Both sensors reported an error.
    AccAndGyrErr,
}

impl ErrorCode {
    /// The code that stands for this variant.
    pub open spec fn raw_value_spec(self) -> u8 {
        match self {
            ErrorCode::NoError => 0x00,
            ErrorCode::AccErr => 0x01,
            ErrorCode::GyrErr => 0x02,
            ErrorCode::AccAndGyrErr => 0x03,
        }
    }

    /// The variant that the low 2 bits of `bits` stand for; higher bits are ignored.
    pub open spec fn new_with_raw_value_spec(bits: u8) -> Self {
        match bits & 0x03 {
            0x00 => ErrorCode::NoError,
            0x01 => ErrorCode::AccErr,
            0x02 => ErrorCode::GyrErr,
            _ => ErrorCode::AccAndGyrErr,
        }
    }

    pub fn raw_value(self) -> (bits: u8)
        ensures
            bits == self.raw_value_spec(),
            bits <= 0x03,
    {
        match self {
            ErrorCode::NoError => 0x00,
            ErrorCode::AccErr => 0x01,
            ErrorCode::GyrErr => 0x02,
            ErrorCode::AccAndGyrErr => 0x03,
        }
    }

    pub fn new_with_raw_value(bits: u8) -> (r: Self)
        ensures
            r == Self::new_with_raw_value_spec(bits),
    {
        match bits & 0x03 {
            0x00 => ErrorCode::NoError,
            0x01 => ErrorCode::AccErr,
            0x02 => ErrorCode::GyrErr,
            _ => ErrorCode::AccAndGyrErr,
        }
    }

    /// A variant is found again from its own code.
    pub proof fn lemma_raw_value_round_trip(self)
        ensures
            self.raw_value_spec() <= 0x03,
            Self::new_with_raw_value_spec(self.raw_value_spec()) == self,
    {
        lemma_low_bits(self.raw_value_spec());
    }

    /// Decoding loses nothing of the 2 bits it reads: the variant's code is
    /// the pattern that was decoded.
    pub proof fn lemma_new_with_raw_value(bits: u8)
        ensures
            Self::new_with_raw_value_spec(bits).raw_value_spec() == bits & 0x03,
    {
        lemma_low_bits(bits);
    }
}

/// State of the configuration load as the device reports it.
///
/// A 3-bit code: every pattern of those bits is one of the variants.
#[derive(Clone, Copy, Debug, PartialEq, Eq, Structural)]
pub enum InternalStatusMessage {
    /// The device has not finished (or not started) loading its configuration.
    NotInit,
    /// The configuration was loaded and is running.
    InitOk,
    /// The configuration that was uploaded is not valid.
    InitErr,
    /// The host driver did something the device rejects.
    DrvErr,
    /// The sensors were stopped.
    SnsStop,
    /// The non-volatile memory could not be read.
    NvmError,
    /// The start-up sequence failed.
    StartUpError,
    /// The configuration does not fit this device.
    CompatError,
}

impl InternalStatusMessage {
    /// The code that stands for this variant.
    pub open spec fn raw_value_spec(self) -> u8 {
        match self {
            InternalStatusMessage::NotInit => 0x00,
            InternalStatusMessage::InitOk => 0x01,
            InternalStatusMessage::InitErr => 0x02,
            InternalStatusMessage::DrvErr => 0x03,
            InternalStatusMessage::SnsStop => 0x04,
            InternalStatusMessage::NvmError => 0x05,
            InternalStatusMessage::StartUpError => 0x06,
            InternalStatusMessage::CompatError => 0x07,
        }
    }

    /// The variant that the low 3 bits of `bits` stand for; higher bits are ignored.
    pub open spec fn new_with_raw_value_spec(bits: u8) -> Self {
        match bits & 0x07 {
            0x00 => InternalStatusMessage::NotInit,
            0x01 => InternalStatusMessage::InitOk,
            0x02 => InternalStatusMessage::InitErr,
            0x03 => InternalStatusMessage::DrvErr,
            0x04 => InternalStatusMessage::SnsStop,
            0x05 => InternalStatusMessage::NvmError,
            0x06 => InternalStatusMessage::StartUpError,
            _ => InternalStatusMessage::CompatError,
        }
    }

    pub fn raw_value(self) -> (bits: u8)
        ensures
            bits == self.raw_value_spec(),
            bits <= 0x07,
    {
        match self {
            InternalStatusMessage::NotInit => 0x00,
            InternalStatusMessage::InitOk => 0x01,
            InternalStatusMessage::InitErr => 0x02,
            InternalStatusMessage::DrvErr => 0x03,
            InternalStatusMessage::SnsStop => 0x04,
            InternalStatusMessage::NvmError => 0x05,
            InternalStatusMessage::StartUpError => 0x06,
            InternalStatusMessage::CompatError => 0x07,
        }
    }

    pub fn new_with_raw_value(bits: u8) -> (r: Self)
        ensures
            r == Self::new_with_raw_value_spec(bits),
    {
        match bits & 0x07 {
            0x00 => InternalStatusMessage::NotInit,
            0x01 => InternalStatusMessage::InitOk,
            0x02 => InternalStatusMessage::InitErr,
            0x03 => InternalStatusMessage::DrvErr,
            0x04 => InternalStatusMessage::SnsStop,
            0x05 => InternalStatusMessage::NvmError,
            0x06 => InternalStatusMessage::StartUpError,
            _ => InternalStatusMessage::CompatError,
        }
    }

    /// A variant is found again from its own code.
    pub proof fn lemma_raw_value_round_trip(self)
        ensures
            self.raw_value_spec() <= 0x07,
            Self::new_with_raw_value_spec(self.raw_value_spec()) == self,
    {
        lemma_low_bits(self.raw_value_spec());
    }

    /// Decoding loses nothing of the 3 bits it reads: the variant's code is
    /// the pattern that was decoded.
    pub proof fn lemma_new_with_raw_value(bits: u8)
        ensures
            Self::new_with_raw_value_spec(bits).raw_value_spec() == bits & 0x07,
    {
        lemma_low_bits(bits);
    }
}

/// Output data rate of a sensor, in samples per second.
///
/// A 4-bit code: every pattern of those bits is one of the variants.
#[derive(Clone, Copy, Debug, PartialEq, Eq, Structural)]
pub enum OutputDataRate {
    /// Not a rate; the device treats it as invalid.
    Reserved,
    /// 25/32 Hz.
    Odr0p78,
    /// 25/16 Hz.
    Odr1p5,
    /// 25/8 Hz.
    Odr3p1,
    /// 25/4 Hz.
    Odr6p25,
    /// 25/2 Hz.
    Odr12p5,
    /// 25 Hz.
    Odr25,
    /// 50 Hz.
    Odr50,
    /// 100 Hz.
    Odr100,
    /// 200 Hz.
    Odr200,
    /// 400 Hz.
    Odr400,
    /// 800 Hz.
    Odr800,
    /// 1600 Hz.
    Odr1k6,
    /// 3200 Hz.
    Odr3k2,
    /// 6400 Hz.
    Odr6k4,
    /// 12800 Hz.
    Odr12k8,
}

impl OutputDataRate {
    /// The code that stands for this variant.
    pub open spec fn raw_value_spec(self) -> u8 {
        match self {
            OutputDataRate::Reserved => 0x00,
            OutputDataRate::Odr0p78 => 0x01,
            OutputDataRate::Odr1p5 => 0x02,
            OutputDataRate::Odr3p1 => 0x03,
            OutputDataRate::Odr6p25 => 0x04,
            OutputDataRate::Odr12p5 => 0x05,
            OutputDataRate::Odr25 => 0x06,
            OutputDataRate::Odr50 => 0x07,
            OutputDataRate::Odr100 => 0x08,
            OutputDataRate::Odr200 => 0x09,
            OutputDataRate::Odr400 => 0x0a,
            OutputDataRate::Odr800 => 0x0b,
            OutputDataRate::Odr1k6 => 0x0c,
            OutputDataRate::Odr3k2 => 0x0d,
            OutputDataRate::Odr6k4 => 0x0e,
            OutputDataRate::Odr12k8 => 0x0f,
        }
    }

    /// The variant that the low 4 bits of `bits` stand for; higher bits are ignored.
    pub open spec fn new_with_raw_value_spec(bits: u8) -> Self {
        match bits & 0x0f {
            0x00 => OutputDataRate::Reserved,
            0x01 => OutputDataRate::Odr0p78,
            0x02 => OutputDataRate::Odr1p5,
            0x03 => OutputDataRate::Odr3p1,
            0x04 => OutputDataRate::Odr6p25,
            0x05 => OutputDataRate::Odr12p5,
            0x06 => OutputDataRate::Odr25,
            0x07 => OutputDataRate::Odr50,
            0x08 => OutputDataRate::Odr100,
            0x09 => OutputDataRate::Odr200,
            0x0a => OutputDataRate::Odr400,
            0x0b => OutputDataRate::Odr800,
            0x0c => OutputDataRate::Odr1k6,
            0x0d => OutputDataRate::Odr3k2,
            0x0e => OutputDataRate::Odr6k4,
            _ => OutputDataRate::Odr12k8,
        }
    }

    pub fn raw_value(self) -> (bits: u8)
        ensures
            bits == self.raw_value_spec(),
            bits <= 0x0f,
    {
        match self {
            OutputDataRate::Reserved => 0x00,
            OutputDataRate::Odr0p78 => 0x01,
            OutputDataRate::Odr1p5 => 0x02,
            OutputDataRate::Odr3p1 => 0x03,
            OutputDataRate::Odr6p25 => 0x04,
            OutputDataRate::Odr12p5 => 0x05,
            OutputDataRate::Odr25 => 0x06,
            OutputDataRate::Odr50 => 0x07,
            OutputDataRate::Odr100 => 0x08,
            OutputDataRate::Odr200 => 0x09,
            OutputDataRate::Odr400 => 0x0a,
            OutputDataRate::Odr800 => 0x0b,
            OutputDataRate::Odr1k6 => 0x0c,
            OutputDataRate::Odr3k2 => 0x0d,
            OutputDataRate::Odr6k4 => 0x0e,
            OutputDataRate::Odr12k8 => 0x0f,
        }
    }

    pub fn new_with_raw_value(bits: u8) -> (r: Self)
        ensures
            r == Self::new_with_raw_value_spec(bits),
    {
        match bits & 0x0f {
            0x00 => OutputDataRate::Reserved,
            0x01 => OutputDataRate::Odr0p78,
            0x02 => OutputDataRate::Odr1p5,
            0x03 => OutputDataRate::Odr3p1,
            0x04 => OutputDataRate::Odr6p25,
            0x05 => OutputDataRate::Odr12p5,
            0x06 => OutputDataRate::Odr25,
            0x07 => OutputDataRate::Odr50,
            0x08 => OutputDataRate::Odr100,
            0x09 => OutputDataRate::Odr200,
            0x0a => OutputDataRate::Odr400,
            0x0b => OutputDataRate::Odr800,
            0x0c => OutputDataRate::Odr1k6,
            0x0d => OutputDataRate::Odr3k2,
            0x0e => OutputDataRate::Odr6k4,
            _ => OutputDataRate::Odr12k8,
        }
    }

    /// A variant is found again from its own code.
    pub proof fn lemma_raw_value_round_trip(self)
        ensures
            self.raw_value_spec() <= 0x0f,
            Self::new_with_raw_value_spec(self.raw_value_spec()) == self,
    {
        lemma_low_bits(self.raw_value_spec());
    }

    /// Decoding loses nothing of the 4 bits it reads: the variant's code is
    /// the pattern that was decoded.
    pub proof fn lemma_new_with_raw_value(bits: u8)
        ensures
            Self::new_with_raw_value_spec(bits).raw_value_spec() == bits & 0x0f,
    {
        lemma_low_bits(bits);
    }
}

/// Accelerometer bandwidth: oversampling in performance mode, averaging otherwise.
///
/// A 3-bit code: every pattern of those bits is one of the variants.
#[derive(Clone, Copy, Debug, PartialEq, Eq, Structural)]
pub enum AccBwp {
    /// OSR4 filter, or no averaging.
    Osr4Avg1,
    /// OSR2 filter, or the mean of 2 samples.
    Osr2Avg2,
    /// Normal filter, or the mean of 4 samples.
    NormAvg4,
    /// CIC filter, or the mean of 8 samples.
    CicAvg8,
    /// The mean of 16 samples.
    ResAvg16,
    /// The mean of 32 samples.
    ResAvg32,
    /// The mean of 64 samples.
    ResAvg64,
    /// The mean of 128 samples.
    ResAvg128,
}

impl AccBwp {
    /// The code that stands for this variant.
    pub open spec fn raw_value_spec(self) -> u8 {
        match self {
            AccBwp::Osr4Avg1 => 0x00,
            AccBwp::Osr2Avg2 => 0x01,
            AccBwp::NormAvg4 => 0x02,
            AccBwp::CicAvg8 => 0x03,
            AccBwp::ResAvg16 => 0x04,
            AccBwp::ResAvg32 => 0x05,
            AccBwp::ResAvg64 => 0x06,
            AccBwp::ResAvg128 => 0x07,
        }
    }

    /// The variant that the low 3 bits of `bits` stand for; higher bits are ignored.
    pub open spec fn new_with_raw_value_spec(bits: u8) -> Self {
        match bits & 0x07 {
            0x00 => AccBwp::Osr4Avg1,
            0x01 => AccBwp::Osr2Avg2,
            0x02 => AccBwp::NormAvg4,
            0x03 => AccBwp::CicAvg8,
            0x04 => AccBwp::ResAvg16,
            0x05 => AccBwp::ResAvg32,
            0x06 => AccBwp::ResAvg64,
            _ => AccBwp::ResAvg128,
        }
    }

    pub fn raw_value(self) -> (bits: u8)
        ensures
            bits == self.raw_value_spec(),
            bits <= 0x07,
    {
        match self {
            AccBwp::Osr4Avg1 => 0x00,
            AccBwp::Osr2Avg2 => 0x01,
            AccBwp::NormAvg4 => 0x02,
            AccBwp::CicAvg8 => 0x03,
            AccBwp::ResAvg16 => 0x04,
            AccBwp::ResAvg32 => 0x05,
            AccBwp::ResAvg64 => 0x06,
            AccBwp::ResAvg128 => 0x07,
        }
    }

    pub fn new_with_raw_value(bits: u8) -> (r: Self)
        ensures
            r == Self::new_with_raw_value_spec(bits),
    {
        match bits & 0x07 {
            0x00 => AccBwp::Osr4Avg1,
            0x01 => AccBwp::Osr2Avg2,
            0x02 => AccBwp::NormAvg4,
            0x03 => AccBwp::CicAvg8,
            0x04 => AccBwp::ResAvg16,
            0x05 => AccBwp::ResAvg32,
            0x06 => AccBwp::ResAvg64,
            _ => AccBwp::ResAvg128,
        }
    }

    /// A variant is found again from its own code.
    pub proof fn lemma_raw_value_round_trip(self)
        ensures
            self.raw_value_spec() <= 0x07,
            Self::new_with_raw_value_spec(self.raw_value_spec()) == self,
    {
        lemma_low_bits(self.raw_value_spec());
    }

    /// Decoding loses nothing of the 3 bits it reads: the variant's code is
    /// the pattern that was decoded.
    pub proof fn lemma_new_with_raw_value(bits: u8)
        ensures
            Self::new_with_raw_value_spec(bits).raw_value_spec() == bits & 0x07,
    {
        lemma_low_bits(bits);
    }
}

/// Full-scale range of the accelerometer.
///
/// A 2-bit code: every pattern of those bits is one of the variants.
#[derive(Clone, Copy, Debug, PartialEq, Eq, Structural)]
pub enum AccRangeMode {
    /// +/- 2 g.
    Range2G,
    /// +/- 4 g.
    Range4G,
    /// +/- 8 g.
    Range8G,
    /// +/- 16 g.
    Range16G,
}

impl AccRangeMode {
    /// The code that stands for this variant.
    pub open spec fn raw_value_spec(self) -> u8 {
        match self {
            AccRangeMode::Range2G => 0x00,
            AccRangeMode::Range4G => 0x01,
            AccRangeMode::Range8G => 0x02,
            AccRangeMode::Range16G => 0x03,
        }
    }

    /// The variant that the low 2 bits of `bits` stand for; higher bits are ignored.
    pub open spec fn new_with_raw_value_spec(bits: u8) -> Self {
        match bits & 0x03 {
            0x00 => AccRangeMode::Range2G,
            0x01 => AccRangeMode::Range4G,
            0x02 => AccRangeMode::Range8G,
            _ => AccRangeMode::Range16G,
        }
    }

    pub fn raw_value(self) -> (bits: u8)
        ensures
            bits == self.raw_value_spec(),
            bits <= 0x03,
    {
        match self {
            AccRangeMode::Range2G => 0x00,
            AccRangeMode::Range4G => 0x01,
            AccRangeMode::Range8G => 0x02,
            AccRangeMode::Range16G => 0x03,
        }
    }

    pub fn new_with_raw_value(bits: u8) -> (r: Self)
        ensures
            r == Self::new_with_raw_value_spec(bits),
    {
        match bits & 0x03 {
            0x00 => AccRangeMode::Range2G,
            0x01 => AccRangeMode::Range4G,
            0x02 => AccRangeMode::Range8G,
            _ => AccRangeMode::Range16G,
        }
    }

    /// A variant is found again from its own code.
    pub proof fn lemma_raw_value_round_trip(self)
        ensures
            self.raw_value_spec() <= 0x03,
            Self::new_with_raw_value_spec(self.raw_value_spec()) == self,
    {
        lemma_low_bits(self.raw_value_spec());
    }

    /// Decoding loses nothing of the 2 bits it reads: the variant's code is
    /// the pattern that was decoded.
    pub proof fn lemma_new_with_raw_value(bits: u8)
        ensures
            Self::new_with_raw_value_spec(bits).raw_value_spec() == bits & 0x03,
    {
        lemma_low_bits(bits);
    }
}

/// Gyroscope bandwidth.
///
/// A 2-bit code: every pattern of those bits is one of the variants.
#[derive(Clone, Copy, Debug, PartialEq, Eq, Structural)]
pub enum GyrBwp {
    /// OSR4 filter.
    Osr4,
    /// OSR2 filter.
    Osr2,
    /// Normal filter.
    Norm,
    /// Not a setting.
    Reserved,
}

impl GyrBwp {
    /// The code that stands for this variant.
    pub open spec fn raw_value_spec(self) -> u8 {
        match self {
            GyrBwp::Osr4 => 0x00,
            GyrBwp::Osr2 => 0x01,
            GyrBwp::Norm => 0x02,
            GyrBwp::Reserved => 0x03,
        }
    }

    /// The variant that the low 2 bits of `bits` stand for; higher bits are ignored.
    pub open spec fn new_with_raw_value_spec(bits: u8) -> Self {
        match bits & 0x03 {
            0x00 => GyrBwp::Osr4,
            0x01 => GyrBwp::Osr2,
            0x02 => GyrBwp::Norm,
            _ => GyrBwp::Reserved,
        }
    }

    pub fn raw_value(self) -> (bits: u8)
        ensures
            bits == self.raw_value_spec(),
            bits <= 0x03,
    {
        match self {
            GyrBwp::Osr4 => 0x00,
            GyrBwp::Osr2 => 0x01,
            GyrBwp::Norm => 0x02,
            GyrBwp::Reserved => 0x03,
        }
    }

    pub fn new_with_raw_value(bits: u8) -> (r: Self)
        ensures
            r == Self::new_with_raw_value_spec(bits),
    {
        match bits & 0x03 {
            0x00 => GyrBwp::Osr4,
            0x01 => GyrBwp::Osr2,
            0x02 => GyrBwp::Norm,
            _ => GyrBwp::Reserved,
        }
    }

    /// A variant is found again from its own code.
    pub proof fn lemma_raw_value_round_trip(self)
        ensures
            self.raw_value_spec() <= 0x03,
            Self::new_with_raw_value_spec(self.raw_value_spec()) == self,
    {
        lemma_low_bits(self.raw_value_spec());
    }

    /// Decoding loses nothing of the 2 bits it reads: the variant's code is
    /// the pattern that was decoded.
    pub proof fn lemma_new_with_raw_value(bits: u8)
        ensures
            Self::new_with_raw_value_spec(bits).raw_value_spec() == bits & 0x03,
    {
        lemma_low_bits(bits);
    }
}

/// Full-scale range of the gyroscope, in degrees per second.
///
/// A 3-bit code: every pattern of those bits is one of the variants.
#[derive(Clone, Copy, Debug, PartialEq, Eq, Structural)]
pub enum GyrRangeMode {
    /// +/- 2000 dps.
    Range2000,
    /// +/- 1000 dps.
    Range1000,
    /// +/- 500 dps.
    Range500,
    /// +/- 250 dps.
    Range250,
    /// +/- 125 dps.
    Range125,
    /// Not a range.
    Reserved0,
    /// Not a range.
    Reserved1,
    /// Not a range.
    Reserved2,
}

impl GyrRangeMode {
    /// The code that stands for this variant.
    pub open spec fn raw_value_spec(self) -> u8 {
        match self {
            GyrRangeMode::Range2000 => 0x00,
            GyrRangeMode::Range1000 => 0x01,
            GyrRangeMode::Range500 => 0x02,
            GyrRangeMode::Range250 => 0x03,
            GyrRangeMode::Range125 => 0x04,
            GyrRangeMode::Reserved0 => 0x05,
            GyrRangeMode::Reserved1 => 0x06,
            GyrRangeMode::Reserved2 => 0x07,
        }
    }

    /// The variant that the low 3 bits of `bits` stand for; higher bits are ignored.
    pub open spec fn new_with_raw_value_spec(bits: u8) -> Self {
        match bits & 0x07 {
            0x00 => GyrRangeMode::Range2000,
            0x01 => GyrRangeMode::Range1000,
            0x02 => GyrRangeMode::Range500,
            0x03 => GyrRangeMode::Range250,
            0x04 => GyrRangeMode::Range125,
            0x05 => GyrRangeMode::Reserved0,
            0x06 => GyrRangeMode::Reserved1,
            _ => GyrRangeMode::Reserved2,
        }
    }

    pub fn raw_value(self) -> (bits: u8)
        ensures
            bits == self.raw_value_spec(),
            bits <= 0x07,
    {
        match self {
            GyrRangeMode::Range2000 => 0x00,
            GyrRangeMode::Range1000 => 0x01,
            GyrRangeMode::Range500 => 0x02,
            GyrRangeMode::Range250 => 0x03,
            GyrRangeMode::Range125 => 0x04,
            GyrRangeMode::Reserved0 => 0x05,
            GyrRangeMode::Reserved1 => 0x06,
            GyrRangeMode::Reserved2 => 0x07,
        }
    }

    pub fn new_with_raw_value(bits: u8) -> (r: Self)
        ensures
            r == Self::new_with_raw_value_spec(bits),
    {
        match bits & 0x07 {
            0x00 => GyrRangeMode::Range2000,
            0x01 => GyrRangeMode::Range1000,
            0x02 => GyrRangeMode::Range500,
            0x03 => GyrRangeMode::Range250,
            0x04 => GyrRangeMode::Range125,
            0x05 => GyrRangeMode::Reserved0,
            0x06 => GyrRangeMode::Reserved1,
            _ => GyrRangeMode::Reserved2,
        }
    }

    /// A variant is found again from its own code.
    pub proof fn lemma_raw_value_round_trip(self)
        ensures
            self.raw_value_spec() <= 0x07,
            Self::new_with_raw_value_spec(self.raw_value_spec()) == self,
    {
        lemma_low_bits(self.raw_value_spec());
    }

    /// Decoding loses nothing of the 3 bits it reads: the variant's code is
    /// the pattern that was decoded.
    pub proof fn lemma_new_with_raw_value(bits: u8)
        ensures
            Self::new_with_raw_value_spec(bits).raw_value_spec() == bits & 0x07,
    {
        lemma_low_bits(bits);
    }
}

/// Full-scale range of the image-stabilisation output of the gyroscope.
///
/// A 1-bit code: every pattern of those bits is one of the variants.
#[derive(Clone, Copy, Debug, PartialEq, Eq, Structural)]
pub enum OisRange {
    /// +/- 250 dps.
    Range250,
    /// +/- 2000 dps.
    Range2000,
}

impl OisRange {
    /// The code that stands for this variant.
    pub open spec fn raw_value_spec(self) -> u8 {
        match self {
            OisRange::Range250 => 0x00,
            OisRange::Range2000 => 0x01,
        }
    }

    /// The variant that the low 1 bit of `bits` stand for; higher bits are ignored.
    pub open spec fn new_with_raw_value_spec(bits: u8) -> Self {
        match bits & 0x01 {
            0x00 => OisRange::Range250,
            _ => OisRange::Range2000,
        }
    }

    pub fn raw_value(self) -> (bits: u8)
        ensures
            bits == self.raw_value_spec(),
            bits <= 0x01,
    {
        match self {
            OisRange::Range250 => 0x00,
            OisRange::Range2000 => 0x01,
        }
    }

    pub fn new_with_raw_value(bits: u8) -> (r: Self)
        ensures
            r == Self::new_with_raw_value_spec(bits),
    {
        match bits & 0x01 {
            0x00 => OisRange::Range250,
            _ => OisRange::Range2000,
        }
    }

    /// A variant is found again from its own code.
    pub proof fn lemma_raw_value_round_trip(self)
        ensures
            self.raw_value_spec() <= 0x01,
            Self::new_with_raw_value_spec(self.raw_value_spec()) == self,
    {
        lemma_low_bits(self.raw_value_spec());
    }

    /// Decoding loses nothing of the 1 bit it reads: the variant's code is
    /// the pattern that was decoded.
    pub proof fn lemma_new_with_raw_value(bits: u8)
        ensures
            Self::new_with_raw_value_spec(bits).raw_value_spec() == bits & 0x01,
    {
        lemma_low_bits(bits);
    }
}

} // verus!
