//! The command register, which the host only writes.

use super::bits::lemma_low_bits;
use crate::peripheral::Register;
use vstd::prelude::*;

verus! {

/// A command to the device. Not every byte is a command.
#[derive(Clone, Copy, Debug, PartialEq, Eq, Structural)]
pub enum CmdField {
    /// Trigger the special gyroscope operations.
    GTrigger,
    /// Apply the new gyroscope gain value.
    UsrGain,
    /// Write the non-volatile memory.
    NvmProg,
    /// Discard what the FIFO holds.
    FifoFlush,
    /// Reset the device and all user configuration.
    SoftReset,
}

impl CmdField {
    /// The byte that stands for this command.
    pub open spec fn raw_value_spec(self) -> u8 {
        match self {
            CmdField::GTrigger => 0x02,
            CmdField::UsrGain => 0x03,
            CmdField::NvmProg => 0xa0,
            CmdField::FifoFlush => 0xb0,
            CmdField::SoftReset => 0xb6,
        }
    }

    /// The command that `bits` stands for, or `bits` itself where it is none.
    pub open spec fn new_with_raw_value_spec(bits: u8) -> Result<Self, u8> {
        match bits {
            0x02 => Ok(CmdField::GTrigger),
            0x03 => Ok(CmdField::UsrGain),
            0xa0 => Ok(CmdField::NvmProg),
            0xb0 => Ok(CmdField::FifoFlush),
            0xb6 => Ok(CmdField::SoftReset),
            _ => Err(bits),
        }
    }

    pub fn raw_value(self) -> (bits: u8)
        ensures
            bits == self.raw_value_spec(),
    {
        match self {
            CmdField::GTrigger => 0x02,
            CmdField::UsrGain => 0x03,
            CmdField::NvmProg => 0xa0,
            CmdField::FifoFlush => 0xb0,
            CmdField::SoftReset => 0xb6,
        }
    }

    pub fn new_with_raw_value(bits: u8) -> (r: Result<Self, u8>)
        ensures
            r == Self::new_with_raw_value_spec(bits),
    {
        match bits {
            0x02 => Ok(CmdField::GTrigger),
            0x03 => Ok(CmdField::UsrGain),
            0xa0 => Ok(CmdField::NvmProg),
            0xb0 => Ok(CmdField::FifoFlush),
            0xb6 => Ok(CmdField::SoftReset),
            _ => Err(bits),
        }
    }

    /// A command is found again from its own byte, and a byte is the byte of
    /// the command it stands for.
    pub proof fn lemma_raw_value_round_trip(self, bits: u8)
        ensures
            Self::new_with_raw_value_spec(self.raw_value_spec()) == Ok::<Self, u8>(self),
            Self::new_with_raw_value_spec(bits) matches Ok(c) ==> c.raw_value_spec() == bits,
    {
    }
}

/// Commands to the device.
///
/// Register `0x7e`. The host cannot read it back: a value decoded from the
/// bus holds no command, which is also what the register holds after reset.
#[derive(Clone, Copy, Debug, PartialEq, Eq)]
pub struct Cmd {
    /// The command to run, if any. (bits 7 to 0, write-only)
    pub field: Option<CmdField>,
}

impl Cmd {
    /// What the register holds after a reset.
    pub open spec fn reset_spec() -> Self {
        Cmd { field: None }
    }

    /// The byte that the register holds after a reset.
    pub const RESET: u8 = 0x00;

    /// The byte that the register holds after a reset.
    pub open spec fn reset_byte_spec() -> u8 {
        0x00
    }

    /// The fields that `byte` stands for: no command, whatever the byte.
    pub open spec fn new_with_raw_value_spec(byte: u8) -> Self {
        Cmd { field: None }
    }

    /// The byte that is written for these fields: the byte of the command,
    /// or zero for none.
    pub open spec fn raw_value_spec(self) -> u8 {
        match self.field {
            Some(command) => command.raw_value_spec(),
            None => 0x00,
        }
    }

    pub fn new_with_raw_value(byte: u8) -> (r: Self)
        ensures
            r == Self::new_with_raw_value_spec(byte),
    {
        Cmd { field: None }
    }

    pub fn raw_value(&self) -> (byte: u8)
        ensures
            byte == self.raw_value_spec(),
    {
        match self.field {
            Some(command) => command.raw_value(),
            None => 0x00,
        }
    }

    /// The value after a reset is the value of the reset byte.
    pub proof fn lemma_reset()
        ensures
            Self::RESET == Self::reset_byte_spec(),
            Self::new_with_raw_value_spec(Self::reset_byte_spec()) == Self::reset_spec(),
            Self::reset_spec().raw_value_spec() == Self::reset_byte_spec(),
    {
    }

    /// The same register value with the command replaced.
    pub fn with_field(self, value: CmdField) -> (r: Self)
        ensures
            r == (Cmd { field: Some(value) }),
    {
        Cmd { field: Some(value) }
    }
}

impl Default for Cmd {
    fn default() -> (r: Self)
        ensures
            r == Self::reset_spec(),
    {
        Cmd { field: None }
    }
}

impl Register for Cmd {
    const ADDRESS: u32 = 0x7e;

    open spec fn address_spec() -> u32 {
        0x7e
    }

    open spec fn decode_spec(byte: u8) -> Self {
        Self::new_with_raw_value_spec(byte)
    }

    open spec fn encode_spec(self) -> u8 {
        self.raw_value_spec()
    }

    open spec fn well_formed(self) -> bool {
        true
    }

    open spec fn read_write_mask() -> u8 {
        0x00
    }

    fn decode(byte: u8) -> (r: Self) {
        Self::new_with_raw_value(byte)
    }

    fn encode(&self) -> (byte: u8) {
        self.raw_value()
    }

    proof fn lemma_address() {
    }

    proof fn lemma_read_then_write(byte: u8) {
        lemma_low_bits(byte);
    }
}

} // verus!
