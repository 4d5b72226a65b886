//! How register accesses are laid out on the wire.
//!
//! A read sends the address with its top bit set and then receives: first one
//! filler byte, which the device sends while it fetches, then the payload. A
//! write sends the address and the value in one piece. A burst sends the
//! address once and then the whole payload; the device moves on by itself.

use super::bus::{Operation, OperationView, Request, RequestView};
use super::ints::u4_masked_new;
use super::regs::InitAddr0;
use crate::peripheral::Register;
use vstd::prelude::*;

verus! {

/// The bit of the address byte that marks a read.
pub const READ_FLAG: u8 = 0x80;

/// The first byte of a read of the register at `address`.
pub open spec fn read_header_spec(address: u32) -> u8 {
    (address as u8) | READ_FLAG
}

/// The request that reads `len` bytes, filler included, starting at the
/// register at `address`.
pub open spec fn read_request_spec(address: u32, len: nat) -> RequestView {
    RequestView::Transaction(
        seq![OperationView::Write(seq![read_header_spec(address)]), OperationView::Read(len)],
    )
}

/// The request that writes `value` to the register at `address`.
pub open spec fn write_request_spec(address: u32, value: u8) -> RequestView {
    RequestView::Write(seq![address as u8, value])
}

/// The request that streams `payload` into the device, starting at the
/// register at `address`.
pub open spec fn burst_write_request_spec(address: u32, payload: Seq<u8>) -> RequestView {
    RequestView::Transaction(
        seq![OperationView::Write(seq![address as u8]), OperationView::Write(payload)],
    )
}

/// The request that programs the twelve-bit upload address: its low four
/// bits, then its high eight, streamed into the address register pair.
pub open spec fn set_init_addr_request_spec(addr: u16) -> RequestView {
    burst_write_request_spec(
        InitAddr0::ADDRESS,
        seq![(addr % 0x10) as u8, (addr / 0x10) as u8],
    )
}

/// For a seven-bit address, setting the top bit adds 128.
pub proof fn lemma_read_header(address: u32)
    requires
        address < 0x80,
    ensures
        read_header_spec(address) == address + 0x80,
{
    let a = address as u8;
    assert(a | 0x80 == a + 0x80) by (bit_vector)
        requires
            a < 0x80,
    ;
}

/// A copy of `bytes`.
pub fn copy_bytes(bytes: &[u8]) -> (copy: Vec<u8>)
    ensures
        copy@ == bytes@,
{
    let mut copy: Vec<u8> = Vec::new();
    let mut i: usize = 0;
    while i < bytes.len()
        invariant
            i <= bytes.len(),
            copy@ == bytes@.subrange(0, i as int),
        decreases bytes.len() - i,
    {
        copy.push(bytes[i]);
        i += 1;
        assert(copy@ == bytes@.subrange(0, i as int));
    }
    assert(bytes@.subrange(0, i as int) == bytes@);
    copy
}

/// A transaction of two operations.
fn transaction_of_two(first: Operation, second: Operation) -> (request: Request)
    ensures
        request@ == RequestView::Transaction(seq![first@, second@]),
{
    let mut ops: Vec<Operation> = Vec::new();
    ops.push(first);
    ops.push(second);
    assert(ops@.map_values(|op: Operation| op@) == seq![first@, second@]);
    Request::Transaction(ops)
}

/// The request that reads `len` bytes, filler included, starting at the
/// register at `address`.
pub fn read_request_at(address: u32, len: usize) -> (request: Request)
    requires
        address < 0x80,
    ensures
        request@ == read_request_spec(address, len as nat),
        request@.read_len() == len,
{
    let mut header: Vec<u8> = Vec::new();
    header.push((address as u8) | READ_FLAG);
    assert(header@ == seq![read_header_spec(address)]);
    let request = transaction_of_two(Operation::Write(header), Operation::Read(len));
    proof {
        lemma_read_len_of_read(address, len as nat);
    }
    request
}

/// The request that reads `len` bytes, filler included, starting at register
/// `T`.
pub fn read_request<T: Register>(len: usize) -> (request: Request)
    ensures
        request@ == read_request_spec(T::ADDRESS, len as nat),
        request@.read_len() == len,
{
    proof {
        T::lemma_address();
    }
    read_request_at(T::ADDRESS, len)
}

/// A read receives as many bytes as it asks for.
pub proof fn lemma_read_len_of_read(address: u32, len: nat)
    ensures
        read_request_spec(address, len).read_len() == len,
{
    let ops = seq![OperationView::Write(seq![read_header_spec(address)]), OperationView::Read(len)];
    assert(ops.drop_last() == seq![OperationView::Write(seq![read_header_spec(address)])]);
    assert(ops.drop_last().drop_last() == Seq::<OperationView>::empty());
    reveal_with_fuel(super::bus::total_read_len, 3);
}

/// A burst receives nothing.
pub proof fn lemma_read_len_of_burst(address: u32, payload: Seq<u8>)
    ensures
        burst_write_request_spec(address, payload).read_len() == 0,
{
    let ops = seq![OperationView::Write(seq![address as u8]), OperationView::Write(payload)];
    assert(ops.drop_last() == seq![OperationView::Write(seq![address as u8])]);
    assert(ops.drop_last().drop_last() == Seq::<OperationView>::empty());
    reveal_with_fuel(super::bus::total_read_len, 3);
}

/// The request that writes `value` to its register.
pub fn write_request<T: Register>(value: &T) -> (request: Request)
    ensures
        request@ == write_request_spec(T::ADDRESS, value.encode_spec()),
        request@.read_len() == 0,
{
    let mut bytes: Vec<u8> = Vec::new();
    bytes.push(T::ADDRESS as u8);
    bytes.push(value.encode());
    assert(bytes@ == seq![T::ADDRESS as u8, value.encode_spec()]);
    Request::Write(bytes)
}

/// The request that streams `payload` into the device, starting at register
/// `T`.
pub fn burst_write_request<T: Register>(payload: &[u8]) -> (request: Request)
    ensures
        request@ == burst_write_request_spec(T::ADDRESS, payload@),
        request@.read_len() == 0,
{
    let mut header: Vec<u8> = Vec::new();
    header.push(T::ADDRESS as u8);
    assert(header@ == seq![T::ADDRESS as u8]);
    let body = copy_bytes(payload);
    proof {
        lemma_read_len_of_burst(T::ADDRESS, payload@);
    }
    transaction_of_two(Operation::Write(header), Operation::Write(body))
}

/// The request that programs the upload address.
pub fn set_init_addr_request(addr: u16) -> (request: Request)
    requires
        addr < 0x1000,
    ensures
        request@ == set_init_addr_request_spec(addr),
        request@.read_len() == 0,
{
    let bits_0_3: u8 = u4_masked_new(addr);
    let bits_4_11: u8 = (addr / 0x10) as u8;
    let pair: [u8; 2] = [bits_0_3, bits_4_11];
    assert(pair@ == seq![(addr % 0x10) as u8, (addr / 0x10) as u8]);
    burst_write_request::<InitAddr0>(pair.as_slice())
}

} // verus!
