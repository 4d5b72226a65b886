//! Peripherals on the register bus.

use vstd::prelude::*;

pub mod bmi270;

verus! {

/// One byte-wide register of a device: where it lives and how its byte is
/// split into named fields.
///
/// Decoding is total: every byte stands for a value, so whatever the bus
/// returns can be held. Fields that the host cannot read decode to what they
/// hold after a reset; fields that the host cannot write are left out of the
/// encoded byte.
pub trait Register: Sized {
    /// Address of the register on the bus.
    const ADDRESS: u32;

    /// The address as a mathematical value.
    spec fn address_spec() -> u32;

    /// The fields that `byte` stands for.
    spec fn decode_spec(byte: u8) -> Self;

    /// The byte that is written for these fields.
    spec fn encode_spec(self) -> u8;

    /// Every field holds a value that fits its width.
    spec fn well_formed(self) -> bool;

    /// The bits of the register that can be both read and written.
    spec fn read_write_mask() -> u8;

    fn decode(byte: u8) -> (r: Self)
        ensures
            r == Self::decode_spec(byte),
            r.well_formed(),
    ;

    fn encode(&self) -> (byte: u8)
        ensures
            byte == self.encode_spec(),
    ;

    /// The address is the one that contracts speak of. The top bit of an
    /// address byte marks a read, so an address has seven bits.
    proof fn lemma_address()
        ensures
            Self::ADDRESS == Self::address_spec(),
            Self::ADDRESS < 0x80,
    ;

    /// A byte that is read and written back keeps exactly its read-write bits.
    proof fn lemma_read_then_write(byte: u8)
        ensures
            Self::decode_spec(byte).encode_spec() == byte & Self::read_write_mask(),
    ;
}

} // verus!
