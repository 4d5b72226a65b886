use bingo_fc::peripheral::bmi270::regs::{
    AccBwp, AccConf, AccRange, AccRangeMode, ChipId, ErrReg, ErrorCode, Event, GyrBwp,
    GyrConf, GyrRange, GyrRangeMode, InitAddr0, InitAddr1, InitCtrl, InitData, IntStatus0,
    IntStatus1, InternalError, InternalStatus, InternalStatusMessage, OisRange,
    OutputDataRate, PwrConf, PwrCtrl, Register, SensorTime0, SensorTime1, SensorTime2,
    Status,
};

#[test]
fn error_code_has_a_variant_for_every_pattern() {
    for bits in 0..=255u8 {
        let value = ErrorCode::new_with_raw_value(bits);
        assert_eq!(value.raw_value(), bits % 4);
        assert_eq!(ErrorCode::new_with_raw_value(value.raw_value()), value);
    }
    assert_eq!(ErrorCode::NoError.raw_value(), 0);
    assert_eq!(ErrorCode::new_with_raw_value(0), ErrorCode::NoError);
    assert_eq!(ErrorCode::AccErr.raw_value(), 1);
    assert_eq!(ErrorCode::new_with_raw_value(1), ErrorCode::AccErr);
    assert_eq!(ErrorCode::GyrErr.raw_value(), 2);
    assert_eq!(ErrorCode::new_with_raw_value(2), ErrorCode::GyrErr);
    assert_eq!(ErrorCode::AccAndGyrErr.raw_value(), 3);
    assert_eq!(ErrorCode::new_with_raw_value(3), ErrorCode::AccAndGyrErr);
}

#[test]
fn internal_status_message_has_a_variant_for_every_pattern() {
    for bits in 0..=255u8 {
        let value = InternalStatusMessage::new_with_raw_value(bits);
        assert_eq!(value.raw_value(), bits % 8);
        assert_eq!(InternalStatusMessage::new_with_raw_value(value.raw_value()), value);
    }
    assert_eq!(InternalStatusMessage::NotInit.raw_value(), 0);
    assert_eq!(InternalStatusMessage::new_with_raw_value(0), InternalStatusMessage::NotInit);
    assert_eq!(InternalStatusMessage::InitOk.raw_value(), 1);
    assert_eq!(InternalStatusMessage::new_with_raw_value(1), InternalStatusMessage::InitOk);
    assert_eq!(InternalStatusMessage::InitErr.raw_value(), 2);
    assert_eq!(InternalStatusMessage::new_with_raw_value(2), InternalStatusMessage::InitErr);
    assert_eq!(InternalStatusMessage::DrvErr.raw_value(), 3);
    assert_eq!(InternalStatusMessage::new_with_raw_value(3), InternalStatusMessage::DrvErr);
    assert_eq!(InternalStatusMessage::SnsStop.raw_value(), 4);
    assert_eq!(InternalStatusMessage::new_with_raw_value(4), InternalStatusMessage::SnsStop);
    assert_eq!(InternalStatusMessage::NvmError.raw_value(), 5);
    assert_eq!(InternalStatusMessage::new_with_raw_value(5), InternalStatusMessage::NvmError);
    assert_eq!(InternalStatusMessage::StartUpError.raw_value(), 6);
    assert_eq!(InternalStatusMessage::new_with_raw_value(6), InternalStatusMessage::StartUpError);
    assert_eq!(InternalStatusMessage::CompatError.raw_value(), 7);
    assert_eq!(InternalStatusMessage::new_with_raw_value(7), InternalStatusMessage::CompatError);
}

#[test]
fn output_data_rate_has_a_variant_for_every_pattern() {
    for bits in 0..=255u8 {
        let value = OutputDataRate::new_with_raw_value(bits);
        assert_eq!(value.raw_value(), bits % 16);
        assert_eq!(OutputDataRate::new_with_raw_value(value.raw_value()), value);
    }
    assert_eq!(OutputDataRate::Reserved.raw_value(), 0);
    assert_eq!(OutputDataRate::new_with_raw_value(0), OutputDataRate::Reserved);
    assert_eq!(OutputDataRate::Odr0p78.raw_value(), 1);
    assert_eq!(OutputDataRate::new_with_raw_value(1), OutputDataRate::Odr0p78);
    assert_eq!(OutputDataRate::Odr1p5.raw_value(), 2);
    assert_eq!(OutputDataRate::new_with_raw_value(2), OutputDataRate::Odr1p5);
    assert_eq!(OutputDataRate::Odr3p1.raw_value(), 3);
    assert_eq!(OutputDataRate::new_with_raw_value(3), OutputDataRate::Odr3p1);
    assert_eq!(OutputDataRate::Odr6p25.raw_value(), 4);
    assert_eq!(OutputDataRate::new_with_raw_value(4), OutputDataRate::Odr6p25);
    assert_eq!(OutputDataRate::Odr12p5.raw_value(), 5);
    assert_eq!(OutputDataRate::new_with_raw_value(5), OutputDataRate::Odr12p5);
    assert_eq!(OutputDataRate::Odr25.raw_value(), 6);
    assert_eq!(OutputDataRate::new_with_raw_value(6), OutputDataRate::Odr25);
    assert_eq!(OutputDataRate::Odr50.raw_value(), 7);
    assert_eq!(OutputDataRate::new_with_raw_value(7), OutputDataRate::Odr50);
    assert_eq!(OutputDataRate::Odr100.raw_value(), 8);
    assert_eq!(OutputDataRate::new_with_raw_value(8), OutputDataRate::Odr100);
    assert_eq!(OutputDataRate::Odr200.raw_value(), 9);
    assert_eq!(OutputDataRate::new_with_raw_value(9), OutputDataRate::Odr200);
    assert_eq!(OutputDataRate::Odr400.raw_value(), 10);
    assert_eq!(OutputDataRate::new_with_raw_value(10), OutputDataRate::Odr400);
    assert_eq!(OutputDataRate::Odr800.raw_value(), 11);
    assert_eq!(OutputDataRate::new_with_raw_value(11), OutputDataRate::Odr800);
    assert_eq!(OutputDataRate::Odr1k6.raw_value(), 12);
    assert_eq!(OutputDataRate::new_with_raw_value(12), OutputDataRate::Odr1k6);
    assert_eq!(OutputDataRate::Odr3k2.raw_value(), 13);
    assert_eq!(OutputDataRate::new_with_raw_value(13), OutputDataRate::Odr3k2);
    assert_eq!(OutputDataRate::Odr6k4.raw_value(), 14);
    assert_eq!(OutputDataRate::new_with_raw_value(14), OutputDataRate::Odr6k4);
    assert_eq!(OutputDataRate::Odr12k8.raw_value(), 15);
    assert_eq!(OutputDataRate::new_with_raw_value(15), OutputDataRate::Odr12k8);
}

#[test]
fn acc_bwp_has_a_variant_for_every_pattern() {
    for bits in 0..=255u8 {
        let value = AccBwp::new_with_raw_value(bits);
        assert_eq!(value.raw_value(), bits % 8);
        assert_eq!(AccBwp::new_with_raw_value(value.raw_value()), value);
    }
    assert_eq!(AccBwp::Osr4Avg1.raw_value(), 0);
    assert_eq!(AccBwp::new_with_raw_value(0), AccBwp::Osr4Avg1);
    assert_eq!(AccBwp::Osr2Avg2.raw_value(), 1);
    assert_eq!(AccBwp::new_with_raw_value(1), AccBwp::Osr2Avg2);
    assert_eq!(AccBwp::NormAvg4.raw_value(), 2);
    assert_eq!(AccBwp::new_with_raw_value(2), AccBwp::NormAvg4);
    assert_eq!(AccBwp::CicAvg8.raw_value(), 3);
    assert_eq!(AccBwp::new_with_raw_value(3), AccBwp::CicAvg8);
    assert_eq!(AccBwp::ResAvg16.raw_value(), 4);
    assert_eq!(AccBwp::new_with_raw_value(4), AccBwp::ResAvg16);
    assert_eq!(AccBwp::ResAvg32.raw_value(), 5);
    assert_eq!(AccBwp::new_with_raw_value(5), AccBwp::ResAvg32);
    assert_eq!(AccBwp::ResAvg64.raw_value(), 6);
    assert_eq!(AccBwp::new_with_raw_value(6), AccBwp::ResAvg64);
    assert_eq!(AccBwp::ResAvg128.raw_value(), 7);
    assert_eq!(AccBwp::new_with_raw_value(7), AccBwp::ResAvg128);
}

#[test]
fn acc_range_mode_has_a_variant_for_every_pattern() {
    for bits in 0..=255u8 {
        let value = AccRangeMode::new_with_raw_value(bits);
        assert_eq!(value.raw_value(), bits % 4);
        assert_eq!(AccRangeMode::new_with_raw_value(value.raw_value()), value);
    }
    assert_eq!(AccRangeMode::Range2G.raw_value(), 0);
    assert_eq!(AccRangeMode::new_with_raw_value(0), AccRangeMode::Range2G);
    assert_eq!(AccRangeMode::Range4G.raw_value(), 1);
    assert_eq!(AccRangeMode::new_with_raw_value(1), AccRangeMode::Range4G);
    assert_eq!(AccRangeMode::Range8G.raw_value(), 2);
    assert_eq!(AccRangeMode::new_with_raw_value(2), AccRangeMode::Range8G);
    assert_eq!(AccRangeMode::Range16G.raw_value(), 3);
    assert_eq!(AccRangeMode::new_with_raw_value(3), AccRangeMode::Range16G);
}

#[test]
fn gyr_bwp_has_a_variant_for_every_pattern() {
    for bits in 0..=255u8 {
        let value = GyrBwp::new_with_raw_value(bits);
        assert_eq!(value.raw_value(), bits % 4);
        assert_eq!(GyrBwp::new_with_raw_value(value.raw_value()), value);
    }
    assert_eq!(GyrBwp::Osr4.raw_value(), 0);
    assert_eq!(GyrBwp::new_with_raw_value(0), GyrBwp::Osr4);
    assert_eq!(GyrBwp::Osr2.raw_value(), 1);
    assert_eq!(GyrBwp::new_with_raw_value(1), GyrBwp::Osr2);
    assert_eq!(GyrBwp::Norm.raw_value(), 2);
    assert_eq!(GyrBwp::new_with_raw_value(2), GyrBwp::Norm);
    assert_eq!(GyrBwp::Reserved.raw_value(), 3);
    assert_eq!(GyrBwp::new_with_raw_value(3), GyrBwp::Reserved);
}

#[test]
fn gyr_range_mode_has_a_variant_for_every_pattern() {
    for bits in 0..=255u8 {
        let value = GyrRangeMode::new_with_raw_value(bits);
        assert_eq!(value.raw_value(), bits % 8);
        assert_eq!(GyrRangeMode::new_with_raw_value(value.raw_value()), value);
    }
    assert_eq!(GyrRangeMode::Range2000.raw_value(), 0);
    assert_eq!(GyrRangeMode::new_with_raw_value(0), GyrRangeMode::Range2000);
    assert_eq!(GyrRangeMode::Range1000.raw_value(), 1);
    assert_eq!(GyrRangeMode::new_with_raw_value(1), GyrRangeMode::Range1000);
    assert_eq!(GyrRangeMode::Range500.raw_value(), 2);
    assert_eq!(GyrRangeMode::new_with_raw_value(2), GyrRangeMode::Range500);
    assert_eq!(GyrRangeMode::Range250.raw_value(), 3);
    assert_eq!(GyrRangeMode::new_with_raw_value(3), GyrRangeMode::Range250);
    assert_eq!(GyrRangeMode::Range125.raw_value(), 4);
    assert_eq!(GyrRangeMode::new_with_raw_value(4), GyrRangeMode::Range125);
    assert_eq!(GyrRangeMode::Reserved0.raw_value(), 5);
    assert_eq!(GyrRangeMode::new_with_raw_value(5), GyrRangeMode::Reserved0);
    assert_eq!(GyrRangeMode::Reserved1.raw_value(), 6);
    assert_eq!(GyrRangeMode::new_with_raw_value(6), GyrRangeMode::Reserved1);
    assert_eq!(GyrRangeMode::Reserved2.raw_value(), 7);
    assert_eq!(GyrRangeMode::new_with_raw_value(7), GyrRangeMode::Reserved2);
}

#[test]
fn ois_range_has_a_variant_for_every_pattern() {
    for bits in 0..=255u8 {
        let value = OisRange::new_with_raw_value(bits);
        assert_eq!(value.raw_value(), bits % 2);
        assert_eq!(OisRange::new_with_raw_value(value.raw_value()), value);
    }
    assert_eq!(OisRange::Range250.raw_value(), 0);
    assert_eq!(OisRange::new_with_raw_value(0), OisRange::Range250);
    assert_eq!(OisRange::Range2000.raw_value(), 1);
    assert_eq!(OisRange::new_with_raw_value(1), OisRange::Range2000);
}

#[test]
fn chip_id_decodes_every_byte() {
    assert_eq!(<ChipId as Register>::ADDRESS, 0x0);
    for byte in 0..=255u8 {
        let value = ChipId::decode(byte);
        assert_eq!(value.id, byte);
        assert_eq!(value.id(), byte);
        assert_eq!(ChipId::new_with_raw_value(byte), value);
        assert_eq!(value.raw_value(), value.encode());
        assert_eq!(value.encode(), byte & 0x0);
    }
    assert_eq!(ChipId::RESET, 0x24);
    assert_eq!(ChipId::default(), ChipId::decode(0x24));
}

#[test]
fn err_reg_decodes_every_byte() {
    assert_eq!(<ErrReg as Register>::ADDRESS, 0x2);
    for byte in 0..=255u8 {
        let value = ErrReg::decode(byte);
        assert_eq!(value.fatal_err, (byte / 2) % 2 == 1);
        assert_eq!(value.fatal_err(), (byte / 2) % 2 == 1);
        assert_eq!(value.internal_err, (byte / 2) % 16);
        assert_eq!(value.internal_err(), (byte / 2) % 16);
        assert_eq!(value.fifo_err, (byte / 64) % 2 == 1);
        assert_eq!(value.fifo_err(), (byte / 64) % 2 == 1);
        assert_eq!(value.aux_err, (byte / 128) % 2 == 1);
        assert_eq!(value.aux_err(), (byte / 128) % 2 == 1);
        assert_eq!(ErrReg::new_with_raw_value(byte), value);
        assert_eq!(value.raw_value(), value.encode());
        assert_eq!(value.encode(), byte & 0x0);
    }
    assert_eq!(ErrReg::RESET, 0x0);
    assert_eq!(ErrReg::default(), ErrReg::decode(0x0));
}

#[test]
fn status_decodes_every_byte() {
    assert_eq!(<Status as Register>::ADDRESS, 0x3);
    for byte in 0..=255u8 {
        let value = Status::decode(byte);
        assert_eq!(value.aux_busy, (byte / 4) % 2 == 1);
        assert_eq!(value.aux_busy(), (byte / 4) % 2 == 1);
        assert_eq!(value.cmd_rdy, (byte / 16) % 2 == 1);
        assert_eq!(value.cmd_rdy(), (byte / 16) % 2 == 1);
        assert_eq!(value.drdy_aux, (byte / 32) % 2 == 1);
        assert_eq!(value.drdy_aux(), (byte / 32) % 2 == 1);
        assert_eq!(value.drdy_gyr, (byte / 64) % 2 == 1);
        assert_eq!(value.drdy_gyr(), (byte / 64) % 2 == 1);
        assert_eq!(value.drdy_acc, (byte / 128) % 2 == 1);
        assert_eq!(value.drdy_acc(), (byte / 128) % 2 == 1);
        assert_eq!(Status::new_with_raw_value(byte), value);
        assert_eq!(value.raw_value(), value.encode());
        assert_eq!(value.encode(), byte & 0x0);
    }
    assert_eq!(Status::RESET, 0x10);
    assert_eq!(Status::default(), Status::decode(0x10));
}

#[test]
fn sensor_time0_decodes_every_byte() {
    assert_eq!(<SensorTime0 as Register>::ADDRESS, 0x18);
    for byte in 0..=255u8 {
        let value = SensorTime0::decode(byte);
        assert_eq!(value.sensor_time_7_0, byte);
        assert_eq!(value.sensor_time_7_0(), byte);
        assert_eq!(SensorTime0::new_with_raw_value(byte), value);
        assert_eq!(value.raw_value(), value.encode());
        assert_eq!(value.encode(), byte & 0x0);
    }
    assert_eq!(SensorTime0::RESET, 0x0);
    assert_eq!(SensorTime0::default(), SensorTime0::decode(0x0));
}

#[test]
fn sensor_time1_decodes_every_byte() {
    assert_eq!(<SensorTime1 as Register>::ADDRESS, 0x19);
    for byte in 0..=255u8 {
        let value = SensorTime1::decode(byte);
        assert_eq!(value.sensor_time_15_8, byte);
        assert_eq!(value.sensor_time_15_8(), byte);
        assert_eq!(SensorTime1::new_with_raw_value(byte), value);
        assert_eq!(value.raw_value(), value.encode());
        assert_eq!(value.encode(), byte & 0x0);
    }
    assert_eq!(SensorTime1::RESET, 0x0);
    assert_eq!(SensorTime1::default(), SensorTime1::decode(0x0));
}

#[test]
fn sensor_time2_decodes_every_byte() {
    assert_eq!(<SensorTime2 as Register>::ADDRESS, 0x1a);
    for byte in 0..=255u8 {
        let value = SensorTime2::decode(byte);
        assert_eq!(value.sensor_time_23_16, byte);
        assert_eq!(value.sensor_time_23_16(), byte);
        assert_eq!(SensorTime2::new_with_raw_value(byte), value);
        assert_eq!(value.raw_value(), value.encode());
        assert_eq!(value.encode(), byte & 0x0);
    }
    assert_eq!(SensorTime2::RESET, 0x0);
    assert_eq!(SensorTime2::default(), SensorTime2::decode(0x0));
}

#[test]
fn event_decodes_every_byte() {
    assert_eq!(<Event as Register>::ADDRESS, 0x1b);
    for byte in 0..=255u8 {
        let value = Event::decode(byte);
        assert_eq!(value.por_detected, (byte / 1) % 2 == 1);
        assert_eq!(value.por_detected(), (byte / 1) % 2 == 1);
        assert_eq!(value.error_code.raw_value(), (byte / 4) % 4);
        assert_eq!(value.error_code(), value.error_code);
        assert_eq!(Event::new_with_raw_value(byte), value);
        assert_eq!(value.raw_value(), value.encode());
        assert_eq!(value.encode(), byte & 0x0);
    }
    assert_eq!(Event::RESET, 0x1);
    assert_eq!(Event::default(), Event::decode(0x1));
}

#[test]
fn int_status0_decodes_every_byte() {
    assert_eq!(<IntStatus0 as Register>::ADDRESS, 0x1c);
    for byte in 0..=255u8 {
        let value = IntStatus0::decode(byte);
        assert_eq!(value.sig_motion_out, (byte / 1) % 2 == 1);
        assert_eq!(value.sig_motion_out(), (byte / 1) % 2 == 1);
        assert_eq!(value.step_counter_out, (byte / 2) % 2 == 1);
        assert_eq!(value.step_counter_out(), (byte / 2) % 2 == 1);
        assert_eq!(value.activity_out, (byte / 4) % 2 == 1);
        assert_eq!(value.activity_out(), (byte / 4) % 2 == 1);
        assert_eq!(value.wrist_wear_wakeup_out, (byte / 8) % 2 == 1);
        assert_eq!(value.wrist_wear_wakeup_out(), (byte / 8) % 2 == 1);
        assert_eq!(value.wrist_gesture_out, (byte / 16) % 2 == 1);
        assert_eq!(value.wrist_gesture_out(), (byte / 16) % 2 == 1);
        assert_eq!(value.no_motion_out, (byte / 32) % 2 == 1);
        assert_eq!(value.no_motion_out(), (byte / 32) % 2 == 1);
        assert_eq!(value.any_motion_out, (byte / 64) % 2 == 1);
        assert_eq!(value.any_motion_out(), (byte / 64) % 2 == 1);
        assert_eq!(IntStatus0::new_with_raw_value(byte), value);
        assert_eq!(value.raw_value(), value.encode());
        assert_eq!(value.encode(), byte & 0x0);
    }
    assert_eq!(IntStatus0::RESET, 0x0);
    assert_eq!(IntStatus0::default(), IntStatus0::decode(0x0));
}

#[test]
fn int_status1_decodes_every_byte() {
    assert_eq!(<IntStatus1 as Register>::ADDRESS, 0x1d);
    for byte in 0..=255u8 {
        let value = IntStatus1::decode(byte);
        assert_eq!(value.ffull_int, (byte / 1) % 2 == 1);
        assert_eq!(value.ffull_int(), (byte / 1) % 2 == 1);
        assert_eq!(value.fwm_int, (byte / 2) % 2 == 1);
        assert_eq!(value.fwm_int(), (byte / 2) % 2 == 1);
        assert_eq!(value.err_int, (byte / 4) % 2 == 1);
        assert_eq!(value.err_int(), (byte / 4) % 2 == 1);
        assert_eq!(value.aux_drdy_int, (byte / 32) % 2 == 1);
        assert_eq!(value.aux_drdy_int(), (byte / 32) % 2 == 1);
        assert_eq!(value.gyr_drdy_int, (byte / 64) % 2 == 1);
        assert_eq!(value.gyr_drdy_int(), (byte / 64) % 2 == 1);
        assert_eq!(value.acc_drdy_int, (byte / 128) % 2 == 1);
        assert_eq!(value.acc_drdy_int(), (byte / 128) % 2 == 1);
        assert_eq!(IntStatus1::new_with_raw_value(byte), value);
        assert_eq!(value.raw_value(), value.encode());
        assert_eq!(value.encode(), byte & 0x0);
    }
    assert_eq!(IntStatus1::RESET, 0x0);
    assert_eq!(IntStatus1::default(), IntStatus1::decode(0x0));
}

#[test]
fn internal_status_decodes_every_byte() {
    assert_eq!(<InternalStatus as Register>::ADDRESS, 0x21);
    for byte in 0..=255u8 {
        let value = InternalStatus::decode(byte);
        assert_eq!(value.message.raw_value(), (byte / 1) % 8);
        assert_eq!(value.message(), value.message);
        assert_eq!(value.axes_remap_error, (byte / 32) % 2 == 1);
        assert_eq!(value.axes_remap_error(), (byte / 32) % 2 == 1);
        assert_eq!(value.odr_50hz_error, (byte / 64) % 2 == 1);
        assert_eq!(value.odr_50hz_error(), (byte / 64) % 2 == 1);
        assert_eq!(InternalStatus::new_with_raw_value(byte), value);
        assert_eq!(value.raw_value(), value.encode());
        assert_eq!(value.encode(), byte & 0x0);
    }
    assert_eq!(InternalStatus::RESET, 0x0);
    assert_eq!(InternalStatus::default(), InternalStatus::decode(0x0));
}

#[test]
fn acc_conf_decodes_every_byte() {
    assert_eq!(<AccConf as Register>::ADDRESS, 0x40);
    for byte in 0..=255u8 {
        let value = AccConf::decode(byte);
        assert_eq!(value.acc_odr.raw_value(), (byte / 1) % 16);
        assert_eq!(value.acc_odr(), value.acc_odr);
        assert_eq!(value.acc_bwp.raw_value(), (byte / 16) % 8);
        assert_eq!(value.acc_bwp(), value.acc_bwp);
        assert_eq!(value.acc_filter_perf, (byte / 128) % 2 == 1);
        assert_eq!(value.acc_filter_perf(), (byte / 128) % 2 == 1);
        assert_eq!(AccConf::new_with_raw_value(byte), value);
        assert_eq!(value.raw_value(), value.encode());
        assert_eq!(value.encode(), byte & 0xff);
        assert_eq!(AccConf::decode(value.encode()), value);
    }
    assert_eq!(AccConf::RESET, 0xa8);
    assert_eq!(AccConf::default(), AccConf::decode(0xa8));
    assert_eq!(AccConf::default().encode(), 0xa8);
}

#[test]
fn acc_range_decodes_every_byte() {
    assert_eq!(<AccRange as Register>::ADDRESS, 0x41);
    for byte in 0..=255u8 {
        let value = AccRange::decode(byte);
        assert_eq!(value.acc_range.raw_value(), (byte / 1) % 4);
        assert_eq!(value.acc_range(), value.acc_range);
        assert_eq!(AccRange::new_with_raw_value(byte), value);
        assert_eq!(value.raw_value(), value.encode());
        assert_eq!(value.encode(), byte & 0x3);
        assert_eq!(AccRange::decode(value.encode()), value);
    }
    assert_eq!(AccRange::RESET, 0x2);
    assert_eq!(AccRange::default(), AccRange::decode(0x2));
    assert_eq!(AccRange::default().encode(), 0x2);
}

#[test]
fn gyr_conf_decodes_every_byte() {
    assert_eq!(<GyrConf as Register>::ADDRESS, 0x42);
    for byte in 0..=255u8 {
        let value = GyrConf::decode(byte);
        assert_eq!(value.gyr_odr.raw_value(), (byte / 1) % 16);
        assert_eq!(value.gyr_odr(), value.gyr_odr);
        assert_eq!(value.gyro_bwp.raw_value(), (byte / 16) % 4);
        assert_eq!(value.gyro_bwp(), value.gyro_bwp);
        assert_eq!(value.gyr_noise_perf, (byte / 64) % 2 == 1);
        assert_eq!(value.gyr_noise_perf(), (byte / 64) % 2 == 1);
        assert_eq!(value.gyr_filter_perf, (byte / 128) % 2 == 1);
        assert_eq!(value.gyr_filter_perf(), (byte / 128) % 2 == 1);
        assert_eq!(GyrConf::new_with_raw_value(byte), value);
        assert_eq!(value.raw_value(), value.encode());
        assert_eq!(value.encode(), byte & 0xff);
        assert_eq!(GyrConf::decode(value.encode()), value);
    }
    assert_eq!(GyrConf::RESET, 0xa9);
    assert_eq!(GyrConf::default(), GyrConf::decode(0xa9));
    assert_eq!(GyrConf::default().encode(), 0xa9);
}

#[test]
fn gyr_range_decodes_every_byte() {
    assert_eq!(<GyrRange as Register>::ADDRESS, 0x43);
    for byte in 0..=255u8 {
        let value = GyrRange::decode(byte);
        assert_eq!(value.gyr_range.raw_value(), (byte / 1) % 8);
        assert_eq!(value.gyr_range(), value.gyr_range);
        assert_eq!(value.ois_range.raw_value(), (byte / 8) % 2);
        assert_eq!(value.ois_range(), value.ois_range);
        assert_eq!(GyrRange::new_with_raw_value(byte), value);
        assert_eq!(value.raw_value(), value.encode());
        assert_eq!(value.encode(), byte & 0xf);
        assert_eq!(GyrRange::decode(value.encode()), value);
    }
    assert_eq!(GyrRange::RESET, 0x0);
    assert_eq!(GyrRange::default(), GyrRange::decode(0x0));
    assert_eq!(GyrRange::default().encode(), 0x0);
}

#[test]
fn init_ctrl_decodes_every_byte() {
    assert_eq!(<InitCtrl as Register>::ADDRESS, 0x59);
    for byte in 0..=255u8 {
        let value = InitCtrl::decode(byte);
        assert_eq!(value.init_ctrl, (byte / 1) % 2 == 1);
        assert_eq!(value.init_ctrl(), (byte / 1) % 2 == 1);
        assert_eq!(InitCtrl::new_with_raw_value(byte), value);
        assert_eq!(value.raw_value(), value.encode());
        assert_eq!(value.encode(), byte & 0x1);
        assert_eq!(InitCtrl::decode(value.encode()), value);
    }
    assert_eq!(InitCtrl::RESET, 0x0);
    assert_eq!(InitCtrl::default(), InitCtrl::decode(0x0));
    assert_eq!(InitCtrl::default().encode(), 0x0);
}

#[test]
fn init_addr0_decodes_every_byte() {
    assert_eq!(<InitAddr0 as Register>::ADDRESS, 0x5b);
    for byte in 0..=255u8 {
        let value = InitAddr0::decode(byte);
        assert_eq!(value.base_0_3, (byte / 1) % 16);
        assert_eq!(value.base_0_3(), (byte / 1) % 16);
        assert_eq!(InitAddr0::new_with_raw_value(byte), value);
        assert_eq!(value.raw_value(), value.encode());
        assert_eq!(value.encode(), byte & 0xf);
        assert_eq!(InitAddr0::decode(value.encode()), value);
    }
    assert_eq!(InitAddr0::RESET, 0x0);
    assert_eq!(InitAddr0::default(), InitAddr0::decode(0x0));
    assert_eq!(InitAddr0::default().encode(), 0x0);
}

#[test]
fn init_addr1_decodes_every_byte() {
    assert_eq!(<InitAddr1 as Register>::ADDRESS, 0x5c);
    for byte in 0..=255u8 {
        let value = InitAddr1::decode(byte);
        assert_eq!(value.base_11_4, byte);
        assert_eq!(value.base_11_4(), byte);
        assert_eq!(InitAddr1::new_with_raw_value(byte), value);
        assert_eq!(value.raw_value(), value.encode());
        assert_eq!(value.encode(), byte & 0xff);
        assert_eq!(InitAddr1::decode(value.encode()), value);
    }
    assert_eq!(InitAddr1::RESET, 0x0);
    assert_eq!(InitAddr1::default(), InitAddr1::decode(0x0));
    assert_eq!(InitAddr1::default().encode(), 0x0);
}

#[test]
fn init_data_decodes_every_byte() {
    assert_eq!(<InitData as Register>::ADDRESS, 0x5e);
    for byte in 0..=255u8 {
        let value = InitData::decode(byte);
        assert_eq!(value.data, byte);
        assert_eq!(value.data(), byte);
        assert_eq!(InitData::new_with_raw_value(byte), value);
        assert_eq!(value.raw_value(), value.encode());
        assert_eq!(value.encode(), byte & 0xff);
        assert_eq!(InitData::decode(value.encode()), value);
    }
    assert_eq!(InitData::RESET, 0x0);
    assert_eq!(InitData::default(), InitData::decode(0x0));
    assert_eq!(InitData::default().encode(), 0x0);
}

#[test]
fn internal_error_decodes_every_byte() {
    assert_eq!(<InternalError as Register>::ADDRESS, 0x5f);
    for byte in 0..=255u8 {
        let value = InternalError::decode(byte);
        assert_eq!(value.int_err_1, (byte / 1) % 2 == 1);
        assert_eq!(value.int_err_1(), (byte / 1) % 2 == 1);
        assert_eq!(value.int_err_2, (byte / 4) % 2 == 1);
        assert_eq!(value.int_err_2(), (byte / 4) % 2 == 1);
        assert_eq!(value.feat_eng_disabled, (byte / 16) % 2 == 1);
        assert_eq!(value.feat_eng_disabled(), (byte / 16) % 2 == 1);
        assert_eq!(InternalError::new_with_raw_value(byte), value);
        assert_eq!(value.raw_value(), value.encode());
        assert_eq!(value.encode(), byte & 0x0);
    }
    assert_eq!(InternalError::RESET, 0x0);
    assert_eq!(InternalError::default(), InternalError::decode(0x0));
}

#[test]
fn pwr_conf_decodes_every_byte() {
    assert_eq!(<PwrConf as Register>::ADDRESS, 0x7c);
    for byte in 0..=255u8 {
        let value = PwrConf::decode(byte);
        assert_eq!(value.adv_power_save, (byte / 1) % 2 == 1);
        assert_eq!(value.adv_power_save(), (byte / 1) % 2 == 1);
        assert_eq!(value.fifo_self_wake_up, (byte / 2) % 2 == 1);
        assert_eq!(value.fifo_self_wake_up(), (byte / 2) % 2 == 1);
        assert_eq!(value.fup_en, (byte / 4) % 2 == 1);
        assert_eq!(value.fup_en(), (byte / 4) % 2 == 1);
        assert_eq!(PwrConf::new_with_raw_value(byte), value);
        assert_eq!(value.raw_value(), value.encode());
        assert_eq!(value.encode(), byte & 0x7);
        assert_eq!(PwrConf::decode(value.encode()), value);
    }
    assert_eq!(PwrConf::RESET, 0x3);
    assert_eq!(PwrConf::default(), PwrConf::decode(0x3));
    assert_eq!(PwrConf::default().encode(), 0x3);
}

#[test]
fn pwr_ctrl_decodes_every_byte() {
    assert_eq!(<PwrCtrl as Register>::ADDRESS, 0x7d);
    for byte in 0..=255u8 {
        let value = PwrCtrl::decode(byte);
        assert_eq!(value.aux_en, (byte / 1) % 2 == 1);
        assert_eq!(value.aux_en(), (byte / 1) % 2 == 1);
        assert_eq!(value.gyr_en, (byte / 2) % 2 == 1);
        assert_eq!(value.gyr_en(), (byte / 2) % 2 == 1);
        assert_eq!(value.acc_en, (byte / 4) % 2 == 1);
        assert_eq!(value.acc_en(), (byte / 4) % 2 == 1);
        assert_eq!(value.temp_en, (byte / 8) % 2 == 1);
        assert_eq!(value.temp_en(), (byte / 8) % 2 == 1);
        assert_eq!(PwrCtrl::new_with_raw_value(byte), value);
        assert_eq!(value.raw_value(), value.encode());
        assert_eq!(value.encode(), byte & 0xf);
        assert_eq!(PwrCtrl::decode(value.encode()), value);
    }
    assert_eq!(PwrCtrl::RESET, 0x0);
    assert_eq!(PwrCtrl::default(), PwrCtrl::decode(0x0));
    assert_eq!(PwrCtrl::default().encode(), 0x0);
}

#[test]
fn acc_conf_builders_replace_one_field_each() {
    let reset = AccConf::default();
    let changed = reset.with_acc_odr(OutputDataRate::Odr200);
    assert_eq!(changed.acc_odr, OutputDataRate::Odr200);
    assert_eq!(changed, AccConf { acc_odr: OutputDataRate::Odr200, ..reset });
    assert_eq!(changed.encode(), 0xa9);
    let changed = reset.with_acc_bwp(AccBwp::CicAvg8);
    assert_eq!(changed.acc_bwp, AccBwp::CicAvg8);
    assert_eq!(changed, AccConf { acc_bwp: AccBwp::CicAvg8, ..reset });
    assert_eq!(changed.encode(), 0xb8);
    let changed = reset.with_acc_filter_perf(false);
    assert_eq!(changed.acc_filter_perf, false);
    assert_eq!(changed, AccConf { acc_filter_perf: false, ..reset });
    assert_eq!(changed.encode(), 0x28);
}

#[test]
fn acc_range_builders_replace_one_field_each() {
    let reset = AccRange::default();
    let changed = reset.with_acc_range(AccRangeMode::Range16G);
    assert_eq!(changed.acc_range, AccRangeMode::Range16G);
    assert_eq!(changed, AccRange { acc_range: AccRangeMode::Range16G, ..reset });
    assert_eq!(changed.encode(), 0x3);
}

#[test]
fn gyr_conf_builders_replace_one_field_each() {
    let reset = GyrConf::default();
    let changed = reset.with_gyr_odr(OutputDataRate::Odr400);
    assert_eq!(changed.gyr_odr, OutputDataRate::Odr400);
    assert_eq!(changed, GyrConf { gyr_odr: OutputDataRate::Odr400, ..reset });
    assert_eq!(changed.encode(), 0xaa);
    let changed = reset.with_gyro_bwp(GyrBwp::Reserved);
    assert_eq!(changed.gyro_bwp, GyrBwp::Reserved);
    assert_eq!(changed, GyrConf { gyro_bwp: GyrBwp::Reserved, ..reset });
    assert_eq!(changed.encode(), 0xb9);
    let changed = reset.with_gyr_noise_perf(true);
    assert_eq!(changed.gyr_noise_perf, true);
    assert_eq!(changed, GyrConf { gyr_noise_perf: true, ..reset });
    assert_eq!(changed.encode(), 0xe9);
    let changed = reset.with_gyr_filter_perf(false);
    assert_eq!(changed.gyr_filter_perf, false);
    assert_eq!(changed, GyrConf { gyr_filter_perf: false, ..reset });
    assert_eq!(changed.encode(), 0x29);
}

#[test]
fn gyr_range_builders_replace_one_field_each() {
    let reset = GyrRange::default();
    let changed = reset.with_gyr_range(GyrRangeMode::Range1000);
    assert_eq!(changed.gyr_range, GyrRangeMode::Range1000);
    assert_eq!(changed, GyrRange { gyr_range: GyrRangeMode::Range1000, ..reset });
    assert_eq!(changed.encode(), 0x1);
    let changed = reset.with_ois_range(OisRange::Range2000);
    assert_eq!(changed.ois_range, OisRange::Range2000);
    assert_eq!(changed, GyrRange { ois_range: OisRange::Range2000, ..reset });
    assert_eq!(changed.encode(), 0x8);
}

#[test]
fn init_ctrl_builders_replace_one_field_each() {
    let reset = InitCtrl::default();
    let changed = reset.with_init_ctrl(true);
    assert_eq!(changed.init_ctrl, true);
    assert_eq!(changed, InitCtrl { init_ctrl: true, ..reset });
    assert_eq!(changed.encode(), 0x1);
}

#[test]
fn init_addr0_builders_replace_one_field_each() {
    let reset = InitAddr0::default();
    let changed = reset.with_base_0_3(0x1);
    assert_eq!(changed.base_0_3, 0x1);
    assert_eq!(changed, InitAddr0 { base_0_3: 0x1, ..reset });
    assert_eq!(changed.encode(), 0x1);
}

#[test]
fn init_addr1_builders_replace_one_field_each() {
    let reset = InitAddr1::default();
    let changed = reset.with_base_11_4(0x1);
    assert_eq!(changed.base_11_4, 0x1);
    assert_eq!(changed, InitAddr1 { base_11_4: 0x1, ..reset });
    assert_eq!(changed.encode(), 0x1);
}

#[test]
fn init_data_builders_replace_one_field_each() {
    let reset = InitData::default();
    let changed = reset.with_data(0x1);
    assert_eq!(changed.data, 0x1);
    assert_eq!(changed, InitData { data: 0x1, ..reset });
    assert_eq!(changed.encode(), 0x1);
}

#[test]
fn pwr_conf_builders_replace_one_field_each() {
    let reset = PwrConf::default();
    let changed = reset.with_adv_power_save(false);
    assert_eq!(changed.adv_power_save, false);
    assert_eq!(changed, PwrConf { adv_power_save: false, ..reset });
    assert_eq!(changed.encode(), 0x2);
    let changed = reset.with_fifo_self_wake_up(false);
    assert_eq!(changed.fifo_self_wake_up, false);
    assert_eq!(changed, PwrConf { fifo_self_wake_up: false, ..reset });
    assert_eq!(changed.encode(), 0x1);
    let changed = reset.with_fup_en(true);
    assert_eq!(changed.fup_en, true);
    assert_eq!(changed, PwrConf { fup_en: true, ..reset });
    assert_eq!(changed.encode(), 0x7);
}

#[test]
fn pwr_ctrl_builders_replace_one_field_each() {
    let reset = PwrCtrl::default();
    let changed = reset.with_aux_en(true);
    assert_eq!(changed.aux_en, true);
    assert_eq!(changed, PwrCtrl { aux_en: true, ..reset });
    assert_eq!(changed.encode(), 0x1);
    let changed = reset.with_gyr_en(true);
    assert_eq!(changed.gyr_en, true);
    assert_eq!(changed, PwrCtrl { gyr_en: true, ..reset });
    assert_eq!(changed.encode(), 0x2);
    let changed = reset.with_acc_en(true);
    assert_eq!(changed.acc_en, true);
    assert_eq!(changed, PwrCtrl { acc_en: true, ..reset });
    assert_eq!(changed.encode(), 0x4);
    let changed = reset.with_temp_en(true);
    assert_eq!(changed.temp_en, true);
    assert_eq!(changed, PwrCtrl { temp_en: true, ..reset });
    assert_eq!(changed.encode(), 0x8);
}
