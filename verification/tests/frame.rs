use bingo_fc::peripheral::bmi270::bus::{Operation, Request};
use bingo_fc::peripheral::bmi270::frame::{
    burst_write_request, copy_bytes, read_request, read_request_at, set_init_addr_request,
    write_request, READ_FLAG,
};
use bingo_fc::peripheral::bmi270::regs::{
    AccRange, AccRangeMode, ChipId, Cmd, CmdField, InitData, InternalStatus, PwrConf, Register,
};

#[test]
fn read_request_sets_the_top_bit_of_the_address() {
    assert_eq!(READ_FLAG, 0x80);
    assert_eq!(
        read_request::<ChipId>(2),
        Request::Transaction(vec![Operation::Write(vec![0x80]), Operation::Read(2)])
    );
    assert_eq!(
        read_request::<InternalStatus>(2),
        Request::Transaction(vec![Operation::Write(vec![0xa1]), Operation::Read(2)])
    );
    assert_eq!(
        read_request_at(0x7f, 5),
        Request::Transaction(vec![Operation::Write(vec![0xff]), Operation::Read(5)])
    );
}

#[test]
fn write_request_is_address_then_value_in_one_write() {
    assert_eq!(
        write_request(&PwrConf::default().with_adv_power_save(false)),
        Request::Write(vec![0x7c, 0x02])
    );
    assert_eq!(
        write_request(&AccRange::default().with_acc_range(AccRangeMode::Range4G)),
        Request::Write(vec![0x41, 0x01])
    );
    assert_eq!(
        write_request(&Cmd::default().with_field(CmdField::SoftReset)),
        Request::Write(vec![0x7e, 0xb6])
    );
}

#[test]
fn burst_write_request_sends_the_address_once_and_then_the_payload() {
    let payload = [0xc8, 0x2e, 0x00, 0x2e, 0x80];
    assert_eq!(
        burst_write_request::<InitData>(&payload),
        Request::Transaction(vec![
            Operation::Write(vec![0x5e]),
            Operation::Write(vec![0xc8, 0x2e, 0x00, 0x2e, 0x80]),
        ])
    );
    assert_eq!(
        burst_write_request::<InitData>(&[]),
        Request::Transaction(vec![Operation::Write(vec![0x5e]), Operation::Write(vec![])])
    );
}

#[test]
fn set_init_addr_request_splits_the_address_into_low_four_and_high_eight_bits() {
    assert_eq!(
        set_init_addr_request(0),
        Request::Transaction(vec![Operation::Write(vec![0x5b]), Operation::Write(vec![0, 0])])
    );
    assert_eq!(
        set_init_addr_request(0xabc),
        Request::Transaction(vec![
            Operation::Write(vec![0x5b]),
            Operation::Write(vec![0x0c, 0xab]),
        ])
    );
    assert_eq!(
        set_init_addr_request(0xfff),
        Request::Transaction(vec![
            Operation::Write(vec![0x5b]),
            Operation::Write(vec![0x0f, 0xff]),
        ])
    );
    assert_eq!(
        set_init_addr_request(0x010),
        Request::Transaction(vec![
            Operation::Write(vec![0x5b]),
            Operation::Write(vec![0x00, 0x01]),
        ])
    );
}

#[test]
fn copy_bytes_copies() {
    assert_eq!(copy_bytes(&[1, 2, 3]), vec![1, 2, 3]);
    assert_eq!(copy_bytes(&[]), Vec::<u8>::new());
}
