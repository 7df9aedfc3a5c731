use livox2::crc::{crc16_checksum, crc32_checksum};
use livox2::dst::{TypedLen, UntypedLen};
use livox2::error::Error;
use livox2::seq_counter::{SeqCounter, MAX_SEQ};
use livox2::types::{LidarStatus, LogType, WorkMode, WorkModeAfterBoot};

#[test]
fn sequence_wraparound() {
    // From a fresh counter, 65535 draws return 1..=65535 in order, the
    // 65536th wraps back to 1, and 0 is never produced.
    let mut counter = SeqCounter::new();
    let mut seen = vec![false; 65536];
    for i in 0..65535u32 {
        let v = counter.next_seq();
        assert_eq!(v, i + 1);
        assert_ne!(v, 0);
        assert!(!seen[v as usize], "duplicate within one wrap cycle: {}", v);
        seen[v as usize] = true;
    }
    assert_eq!(seen.iter().filter(|&&b| b).count(), 65535);
    assert_eq!(counter.next_seq(), 1);
}

#[test]
fn sequence_max_value() {
    assert_eq!(MAX_SEQ, 65535);
}

#[test]
fn crc16_known_check_value() {
    // The CRC-16/IBM-3740 check value of "123456789".
    assert_eq!(crc16_checksum(b"123456789"), 0x29B1);
    assert_eq!(
        crc16_checksum(b"123456789"),
        crc::Crc::<u16>::new(&crc::CRC_16_IBM_3740).checksum(b"123456789")
    );
}

#[test]
fn crc32_known_check_value() {
    // The CRC-32/ISO-HDLC check value of "123456789".
    assert_eq!(crc32_checksum(b"123456789"), 0xCBF43926);
    assert_eq!(
        crc32_checksum(b"123456789"),
        crc::Crc::<u32>::new(&crc::CRC_32_ISO_HDLC).checksum(b"123456789")
    );
}

#[test]
fn error_constructors() {
    assert_eq!(
        Error::invalid_size(24, 3),
        Error::InvalidSize { expect: 24, found: 3 }
    );
    assert_eq!(
        Error::invalid_field(8, 0x500),
        Error::InvalidField { offset: 8, found: 0x500 }
    );
}

#[test]
fn status_codes() {
    assert_eq!(LidarStatus::Success.code(), 0);
    assert_eq!(LidarStatus::SendFailed.code(), -9);
    assert_eq!(LidarStatus::Timeout.code(), -4);
    assert_eq!(WorkMode::Normal.code(), 0x01);
    assert_eq!(WorkMode::Upgrade.code(), 0x08);
    assert_eq!(WorkModeAfterBoot::AfterBootWakeUp.code(), 0x02);
    assert_eq!(LogType::ExceptionLog.code(), 0x01);
}

#[test]
fn length_strategies() {
    assert_eq!(TypedLen::payload_bytes(96, 14), 1344);
    assert_eq!(TypedLen::payload_bytes(0, 24), 0);
    assert_eq!(UntypedLen::payload_bytes(48, 24), Ok(24));
    assert_eq!(UntypedLen::payload_bytes(24, 24), Ok(0));
    assert_eq!(
        UntypedLen::payload_bytes(10, 24),
        Err(Error::InvalidSize { expect: 24, found: 10 })
    );
}
