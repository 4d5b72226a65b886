//! The integers of odd width that the register map uses, as the
//! `arbitrary-int` crate computes them.

use arbitrary_int::{u12, u24, u4, Number};
use vstd::prelude::*;

verus! {

/// `u24::from_le_bytes` of `arbitrary-int`, read back as a `u32`: the first
/// byte is the least significant, the third the most.
#[verifier::external_body]
pub(crate) fn u24_from_le_bytes(bytes: [u8; 3]) -> (value: u32)
    ensures
        value == bytes[0] + 0x100 * bytes[1] + 0x1_0000 * bytes[2],
{
    u24::from_le_bytes(bytes).value()
}

/// `u4::masked_new` of `arbitrary-int` on a `u12`: the low four bits of the
/// value. `u12::new` panics on a value of more than twelve bits.
#[verifier::external_body]
pub(crate) fn u4_masked_new(value: u16) -> (low: u8)
    requires
        value < 0x1000,
    ensures
        low == value % 0x10,
{
    u4::masked_new(u12::new(value)).value()
}

} // verus!
