use rangefinder::cmd::{
    sl_lidar_varbitscale_get_src_max_val_by_bits, ScanModeConfEntry, SlLidarAnsType, SlLidarCmd,
    DEFAULT_MOTOR_SPEED,
};

#[test]
fn opcodes_are_those_of_the_protocol() {
    assert_eq!(SlLidarCmd::Stop.opcode(), 0x25);
    assert_eq!(SlLidarCmd::Scan.opcode(), 0x20);
    assert_eq!(SlLidarCmd::ForceScan.opcode(), 0x21);
    assert_eq!(SlLidarCmd::Reset.opcode(), 0x40);
    assert_eq!(SlLidarCmd::NewBaudrateConfirm.opcode(), 0x90);
    assert_eq!(SlLidarCmd::GetDeviceInfo.opcode(), 0x50);
    assert_eq!(SlLidarCmd::GetDeviceHealth.opcode(), 0x52);
    assert_eq!(SlLidarCmd::GetSampleRate.opcode(), 0x59);
    assert_eq!(SlLidarCmd::HQMotorSpeedCtrl.opcode(), 0xA8);
    assert_eq!(SlLidarCmd::ExpressScan.opcode(), 0x82);
    assert_eq!(SlLidarCmd::HQScan.opcode(), 0x83);
    assert_eq!(SlLidarCmd::GetLidarConf.opcode(), 0x84);
    assert_eq!(SlLidarCmd::SetLidarConf.opcode(), 0x85);
    assert_eq!(SlLidarCmd::SetMotorPWM.opcode(), 0xF0);
    assert_eq!(SlLidarCmd::GetAccBoardFlag.opcode(), 0xFF);
}

#[test]
fn answer_type_codes() {
    assert_eq!(SlLidarAnsType::DevInfo.code(), 0x04);
    assert_eq!(SlLidarAnsType::DevHealth.code(), 0x06);
    assert_eq!(SlLidarAnsType::Measurement.code(), 0x81);
    assert_eq!(SlLidarAnsType::MeasurementCapsuled.code(), 0x82);
    assert_eq!(SlLidarAnsType::MeasurementHQ.code(), 0x83);
    assert_eq!(SlLidarAnsType::MeasurementCapsuledUltra.code(), 0x84);
    assert_eq!(SlLidarAnsType::MeasurementDenseCapsuled.code(), 0x85);
    assert_eq!(SlLidarAnsType::MeasurementUltraDenseCapsuled.code(), 0x86);
    assert_eq!(SlLidarAnsType::SampleRate.code(), 0x15);
    assert_eq!(SlLidarAnsType::GetLidarConf.code(), 0x20);
    assert_eq!(SlLidarAnsType::SetLidarConf.code(), 0x21);
    assert_eq!(SlLidarAnsType::AccBoardFlag.code(), 0xFF);
}

#[test]
fn configuration_keys() {
    assert_eq!(ScanModeConfEntry::Count.key(), 0x70);
    assert_eq!(ScanModeConfEntry::UsPerSample.key(), 0x71);
    assert_eq!(ScanModeConfEntry::MaxDistance.key(), 0x74);
    assert_eq!(ScanModeConfEntry::AnsType.key(), 0x75);
    assert_eq!(ScanModeConfEntry::Typical.key(), 0x7C);
    assert_eq!(ScanModeConfEntry::Name.key(), 0x7F);
}

#[test]
fn only_count_and_typical_take_no_index() {
    assert!(!ScanModeConfEntry::Count.takes_index());
    assert!(!ScanModeConfEntry::Typical.takes_index());
    assert!(ScanModeConfEntry::UsPerSample.takes_index());
    assert!(ScanModeConfEntry::MaxDistance.takes_index());
    assert!(ScanModeConfEntry::AnsType.takes_index());
    assert!(ScanModeConfEntry::Name.takes_index());
}

#[test]
fn default_motor_speed() {
    assert_eq!(DEFAULT_MOTOR_SPEED, 0xFFFF);
}

#[test]
fn varbitscale_source_maximum() {
    assert_eq!(sl_lidar_varbitscale_get_src_max_val_by_bits(12), 28671);
    assert_eq!(sl_lidar_varbitscale_get_src_max_val_by_bits(13), 28671);
    assert_eq!(sl_lidar_varbitscale_get_src_max_val_by_bits(14), 28671);
    assert_eq!(sl_lidar_varbitscale_get_src_max_val_by_bits(15), 28671);
}

#[test]
fn query_shape_by_key() {
    for entry in [ScanModeConfEntry::Count, ScanModeConfEntry::Typical] {
        assert_eq!(entry.body_len(), 4);
        assert_eq!(entry.checksum_offset(), 7);
    }
    for entry in [
        ScanModeConfEntry::UsPerSample,
        ScanModeConfEntry::MaxDistance,
        ScanModeConfEntry::AnsType,
        ScanModeConfEntry::Name,
    ] {
        assert_eq!(entry.body_len(), 8);
        assert_eq!(entry.checksum_offset(), 11);
    }
}
