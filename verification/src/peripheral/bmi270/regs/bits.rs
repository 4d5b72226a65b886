//! Facts about masking a byte that the register codecs share.

use vstd::prelude::*;

verus! {

/// Masking a byte to its low bits bounds it, and changes nothing that was
/// already within the bound.
pub proof fn lemma_low_bits(byte: u8)
    by (bit_vector)
    ensures
        byte & 0x00 == 0,
        byte & 0x01 <= 0x01,
        byte & 0x03 <= 0x03,
        byte & 0x07 <= 0x07,
        byte & 0x0f <= 0x0f,
        byte & 0xff == byte,
        byte <= 0x01 ==> byte & 0x01 == byte,
        byte <= 0x03 ==> byte & 0x03 == byte,
        byte <= 0x07 ==> byte & 0x07 == byte,
        byte <= 0x0f ==> byte & 0x0f == byte,
{
}

} // verus!
