use livox2::dst::DstRef;
use livox2::error::{Error, ExpectedTags};
use livox2::sdk_packet::{
    build_control_frame, CommandID, CommandType, LidarSearchAckRef, LidarSearchCmdPacket,
    LivoxLidarDeviceType, QueryDeviceTypeAck, SdkPacketHeader, SendType, StartOfFrame, Version,
};
use livox2::seq_counter::SeqCounter;

fn sample_ack() -> QueryDeviceTypeAck {
    QueryDeviceTypeAck {
        ret_code: 0,
        dev_type: LivoxLidarDeviceType::Mid360,
        sn: [
            b'S', b'N', b'0', b'1', b'2', b'3', b'4', b'5', b'6', b'7', b'8', b'9', b'A', b'B',
            b'C', b'D',
        ],
        lidar_ip: [192, 168, 1, 101],
        cmd_port: 56000,
    }
}

#[test]
fn control_frame_round_trip_with_crc() {
    let mut counter = SeqCounter::new();
    let payload: Vec<u8> = vec![1, 2, 3, 4, 5, 6, 7, 8, 9, 10];
    let frame = build_control_frame(
        &payload,
        CommandID::QueryDeviceType,
        CommandType::Cmd,
        SendType::HostSend,
        &mut counter,
    );
    assert_eq!(frame.len(), 24 + payload.len());

    let parsed = DstRef::<SdkPacketHeader>::try_ref_from_bytes(&frame).unwrap();
    let h = &parsed.header;
    assert_eq!(h.sof, StartOfFrame::AA);
    assert_eq!(h.version, Version::V0);
    assert_eq!(h.length, 34);
    assert_eq!(h.seq_num, 1);
    assert_eq!(h.cmd_id, CommandID::QueryDeviceType);
    assert_eq!(h.cmd_type, CommandType::Cmd);
    assert_eq!(h.sender_type, SendType::HostSend);
    assert_eq!(h.reserved, [0u8; 6]);
    assert_eq!(parsed.data, &payload[..]);

    // Both check codes must match an independent computation over the same
    // ranges: CRC-16 over the first 18 frame bytes, CRC-32 over the payload.
    let crc16 = crc::Crc::<u16>::new(&crc::CRC_16_IBM_3740).checksum(&frame[..18]);
    let crc32 = crc::Crc::<u32>::new(&crc::CRC_32_ISO_HDLC).checksum(&payload);
    assert_eq!(h.crc16_h, crc16);
    assert_eq!(h.crc32_d, crc32);
}

#[test]
fn search_cmd_packet_round_trip() {
    let mut counter = SeqCounter::new();
    let packet = LidarSearchCmdPacket::new(CommandType::Cmd, SendType::HostSend, &mut counter);
    let bytes = packet.to_bytes();
    assert_eq!(bytes.len(), 24);

    let parsed = DstRef::<SdkPacketHeader>::try_ref_from_bytes(&bytes).unwrap();
    assert_eq!(parsed.header, packet.header);
    assert_eq!(parsed.data.len(), 0);

    let crc16 = crc::Crc::<u16>::new(&crc::CRC_16_IBM_3740).checksum(&bytes[..18]);
    assert_eq!(packet.header.crc16_h, crc16);
    let crc32_empty = crc::Crc::<u32>::new(&crc::CRC_32_ISO_HDLC).checksum(&[]);
    assert_eq!(packet.header.crc32_d, crc32_empty);
}

#[test]
fn search_ack_round_trip() {
    let mut counter = SeqCounter::new();
    let ack = sample_ack();
    let payload = ack.to_bytes();
    let frame = build_control_frame(
        &payload,
        CommandID::QueryDeviceType,
        CommandType::Ack,
        SendType::LidarSend,
        &mut counter,
    );

    let parsed = LidarSearchAckRef::try_from_bytes(&frame).unwrap();
    assert_eq!(parsed.data, ack);
    assert_eq!(parsed.header.cmd_id, CommandID::QueryDeviceType);
    assert_eq!(parsed.header.cmd_type, CommandType::Ack);
    assert_eq!(parsed.header.length, 48);
    assert!(parsed.data.is_valid());
}

#[test]
fn short_buffer_is_size_error() {
    for len in 0..24 {
        let buf = vec![0xAAu8; len];
        let r = DstRef::<SdkPacketHeader>::try_ref_from_bytes(&buf);
        assert_eq!(r.unwrap_err(), Error::InvalidSize { expect: 24, found: len });
    }
}

#[test]
fn unknown_command_id_is_unknown_type() {
    let mut counter = SeqCounter::new();
    let frame = build_control_frame(
        &[],
        CommandID::ConfigParamInfo,
        CommandType::Ack,
        SendType::LidarSend,
        &mut counter,
    );
    let r = LidarSearchAckRef::try_from_bytes(&frame);
    match r.unwrap_err() {
        Error::UnknownType { expect, found } => {
            assert_eq!(expect, ExpectedTags::ControlCommand);
            assert_eq!(expect.values(), vec![0u64]);
            assert_eq!(found, 1);
        },
        other => panic!("expected unknown type error, got {:?}", other),
    }
}

#[test]
fn bad_start_marker_is_validity_error() {
    let mut counter = SeqCounter::new();
    let mut frame = build_control_frame(
        &[],
        CommandID::QueryDeviceType,
        CommandType::Cmd,
        SendType::HostSend,
        &mut counter,
    );
    frame[0] = 0x55;
    let r = DstRef::<SdkPacketHeader>::try_ref_from_bytes(&frame);
    assert_eq!(r.unwrap_err(), Error::InvalidField { offset: 0, found: 0x55 });
}

#[test]
fn bad_version_byte_is_validity_error() {
    let mut counter = SeqCounter::new();
    let mut frame = build_control_frame(
        &[],
        CommandID::QueryDeviceType,
        CommandType::Cmd,
        SendType::HostSend,
        &mut counter,
    );
    frame[1] = 7;
    let r = DstRef::<SdkPacketHeader>::try_ref_from_bytes(&frame);
    assert_eq!(r.unwrap_err(), Error::InvalidField { offset: 1, found: 7 });
}

#[test]
fn bad_command_id_bits_are_validity_error() {
    let mut counter = SeqCounter::new();
    let mut frame = build_control_frame(
        &[],
        CommandID::QueryDeviceType,
        CommandType::Cmd,
        SendType::HostSend,
        &mut counter,
    );
    // 0x0500 is not a known command id bit pattern.
    frame[8] = 0x00;
    frame[9] = 0x05;
    let r = DstRef::<SdkPacketHeader>::try_ref_from_bytes(&frame);
    assert_eq!(r.unwrap_err(), Error::InvalidField { offset: 8, found: 0x0500 });
}

#[test]
fn untyped_length_exposes_exactly_declared_payload() {
    // A control frame with length = header_size + K exposes exactly K
    // payload bytes, even when more bytes follow in the buffer.
    let mut counter = SeqCounter::new();
    let k = 10usize;
    let payload: Vec<u8> = (0..k as u8).collect();
    let mut frame = build_control_frame(
        &payload,
        CommandID::QueryDeviceType,
        CommandType::Cmd,
        SendType::HostSend,
        &mut counter,
    );
    frame.extend_from_slice(&[0xEE; 5]);

    let parsed = DstRef::<SdkPacketHeader>::try_ref_from_bytes(&frame).unwrap();
    assert_eq!(parsed.data.len(), k);
    assert_eq!(parsed.data, &payload[..]);
}

#[test]
fn truncated_payload_is_size_error() {
    let mut counter = SeqCounter::new();
    let payload = [9u8; 10];
    let frame = build_control_frame(
        &payload,
        CommandID::QueryDeviceType,
        CommandType::Cmd,
        SendType::HostSend,
        &mut counter,
    );
    let r = DstRef::<SdkPacketHeader>::try_ref_from_bytes(&frame[..30]);
    assert_eq!(r.unwrap_err(), Error::InvalidSize { expect: 10, found: 6 });
}

#[test]
fn declared_length_below_header_is_size_error() {
    let mut counter = SeqCounter::new();
    let mut header = SdkPacketHeader::new(
        0,
        CommandID::QueryDeviceType,
        CommandType::Cmd,
        SendType::HostSend,
        &mut counter,
    );
    header.length = 10;
    let bytes = header.to_bytes();
    let r = DstRef::<SdkPacketHeader>::try_ref_from_bytes(&bytes);
    assert_eq!(r.unwrap_err(), Error::InvalidSize { expect: 24, found: 10 });
}

#[test]
fn ack_payload_of_wrong_size_is_size_error() {
    let mut counter = SeqCounter::new();
    let frame = build_control_frame(
        &[1, 2, 3],
        CommandID::QueryDeviceType,
        CommandType::Ack,
        SendType::LidarSend,
        &mut counter,
    );
    let r = LidarSearchAckRef::try_from_bytes(&frame);
    assert_eq!(r.unwrap_err(), Error::InvalidSize { expect: 24, found: 3 });
}

#[test]
fn ack_with_bad_device_type_is_validity_error() {
    let mut counter = SeqCounter::new();
    let mut payload = sample_ack().to_bytes();
    payload[1] = 42;
    let frame = build_control_frame(
        &payload,
        CommandID::QueryDeviceType,
        CommandType::Ack,
        SendType::LidarSend,
        &mut counter,
    );
    let r = LidarSearchAckRef::try_from_bytes(&frame);
    assert_eq!(r.unwrap_err(), Error::InvalidField { offset: 1, found: 42 });
}

#[test]
fn header_data_len_subtracts_header_size() {
    let mut counter = SeqCounter::new();
    let header = SdkPacketHeader::new(
        17,
        CommandID::QueryDeviceType,
        CommandType::Cmd,
        SendType::HostSend,
        &mut counter,
    );
    assert_eq!(header.length, 41);
    assert_eq!(header.data_len(), 17);
}

#[test]
fn command_id_values_round_trip() {
    let ids = [
        (CommandID::QueryDeviceType, 0x0000u16),
        (CommandID::ConfigParamInfo, 0x0001),
        (CommandID::InquireLidarInfo, 0x0101),
        (CommandID::PushLidarInfo, 0x0102),
        (CommandID::RequestRebootDevice, 0x0200),
        (CommandID::RestoreFactorySettings, 0x0201),
        (CommandID::SetGpsTimestamp, 0x0202),
        (CommandID::PushLogFile, 0x0300),
        (CommandID::LogCollectionConfig, 0x0301),
        (CommandID::SyncLogSystemTime, 0x0302),
        (CommandID::DebugRawDataCollectionConfig, 0x0303),
        (CommandID::RequestStartUpgrade, 0x0400),
        (CommandID::TransferFirmwareData, 0x0401),
        (CommandID::FirmwareTransferComplete, 0x0402),
        (CommandID::GetFirmwareUpgradeStatus, 0x0403),
    ];
    for (id, v) in ids {
        assert_eq!(id.value(), v);
        assert_eq!(CommandID::from_value(v), Some(id));
    }
    assert_eq!(CommandID::from_value(0x0500), None);
}

#[test]
fn command_id_descriptions() {
    assert_eq!(
        CommandID::QueryDeviceType.description(),
        "Discovery device type by broadcasting"
    );
    assert_eq!(CommandID::PushLogFile.description(), "Log file push");
}

#[test]
fn control_crc_verification() {
    let mut counter = SeqCounter::new();
    let payload = [7u8; 8];
    let mut frame = build_control_frame(
        &payload,
        CommandID::QueryDeviceType,
        CommandType::Cmd,
        SendType::HostSend,
        &mut counter,
    );
    assert_eq!(
        livox2::sdk_packet::verify_control_frame_crcs(&frame).unwrap(),
        (true, true)
    );

    // Corrupting a payload byte breaks the CRC-32 but not the CRC-16.
    frame[30] ^= 0xFF;
    assert_eq!(
        livox2::sdk_packet::verify_control_frame_crcs(&frame).unwrap(),
        (true, false)
    );

    // Corrupting a covered header byte breaks the CRC-16.
    frame[4] ^= 0xFF;
    let (crc16_ok, _) = livox2::sdk_packet::verify_control_frame_crcs(&frame).unwrap();
    assert!(!crc16_ok);
}

#[test]
fn mutable_parse_yields_in_place_payload_view() {
    let mut counter = SeqCounter::new();
    let payload = [5u8; 4];
    let mut frame = build_control_frame(
        &payload,
        CommandID::QueryDeviceType,
        CommandType::Cmd,
        SendType::HostSend,
        &mut counter,
    );

    {
        let (header, data) = DstRef::<SdkPacketHeader>::try_mut_from_bytes(&mut frame).unwrap();
        assert_eq!(header.length, 28);
        assert_eq!(data.len(), 4);
        data[0] = 0x99;
    }
    // The view was the buffer itself: the write landed in the frame.
    assert_eq!(frame[24], 0x99);

    let mut short = vec![0u8; 10];
    let r = DstRef::<SdkPacketHeader>::try_mut_from_bytes(&mut short);
    assert_eq!(r.unwrap_err(), Error::InvalidSize { expect: 24, found: 10 });
}
