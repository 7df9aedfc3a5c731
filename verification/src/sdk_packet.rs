//! The command/control wire format: discovery requests and acknowledgements.
//!
//! A control frame is a 24-byte header followed by a payload whose byte
//! length the header declares *untyped*: the `length` field counts the whole
//! frame, header included, so the payload holds `length - 24` bytes.  The
//! header carries a fixed start marker, a protocol version, a correlation
//! sequence number, a command id (the tag selecting the payload variant),
//! direction flags, a CRC-16 over the first 18 header bytes and a CRC-32
//! over the payload bytes.
//!
//! The only command id modelled here is device discovery; its
//! acknowledgement payload is [`QueryDeviceTypeAck`].  Any other id is
//! rejected with an unknown-type error, at the single dispatch point that
//! would accept more variants.

use vstd::prelude::*;

use crate::bytes::{
    push_le16, push_le32, read_le16, read_le32, spec_le16, spec_le16_bytes, spec_le32,
    spec_le32_bytes,
};
use crate::crc::{crc16_checksum, crc16_of, crc32_checksum, crc32_of};
use crate::dst::{
    split_header, spec_split_header, spec_take_payload, take_payload, DstHeader, UntypedLen,
};
use crate::error::{Error, ExpectedTags};
use crate::seq_counter::{spec_next_value, SeqCounter};

verus! {

/// The byte size of a control-frame header.
pub const SDK_PACKET_HEADER_SIZE: usize = 24;

/// How many leading header bytes the CRC-16 covers: every field before the
/// two check codes.
pub const CRC16_COVERED_LEN: usize = 18;

/// The byte size of a device-discovery acknowledgement payload entry.
pub const QUERY_DEVICE_TYPE_ACK_SIZE: usize = 24;

/// The fixed start-of-frame marker; any other first byte is rejected.
#[derive(Debug, Clone, Copy, PartialEq, Eq, Structural)]
pub enum StartOfFrame {
    AA,
}

/// The control-protocol version; only one value is currently accepted.
#[derive(Debug, Clone, Copy, PartialEq, Eq, Structural)]
pub enum Version {
    V0,
}

/// The direction of a control frame: a request or its acknowledgement.
#[derive(Debug, Clone, Copy, PartialEq, Eq, Structural)]
pub enum CommandType {
    /// A request, which expects a response from the receiver.
    Cmd,
    /// An acknowledgement: the response to a request.
    Ack,
}

/// The sender's device kind.
#[derive(Debug, Clone, Copy, PartialEq, Eq, Structural)]
pub enum SendType {
    /// Sent by the host computer.
    HostSend,
    /// Sent by the LiDAR.
    LidarSend,
}

/// The command ids of the control protocol.  Parsing accepts every id
/// listed here; dispatch currently handles only [`QueryDeviceType`](Self::QueryDeviceType).
#[derive(Debug, Clone, Copy, PartialEq, Eq, Structural)]
pub enum CommandID {
    /// Device discovery by broadcasting.
    QueryDeviceType,
    /// Parameter information configuration.
    ConfigParamInfo,
    /// Inquire LiDAR information.
    InquireLidarInfo,
    /// Push LiDAR information.
    PushLidarInfo,
    /// Request reboot device.
    RequestRebootDevice,
    /// Restore factory settings.
    RestoreFactorySettings,
    /// Set GPS timestamp.
    SetGpsTimestamp,
    /// Log file push.
    PushLogFile,
    /// Log collection configuration.
    LogCollectionConfig,
    /// Log system time synchronisation.
    SyncLogSystemTime,
    /// Debug raw data collection configuration.
    DebugRawDataCollectionConfig,
    /// Request to start upgrade.
    RequestStartUpgrade,
    /// Firmware data transfer.
    TransferFirmwareData,
    /// Firmware transfer complete.
    FirmwareTransferComplete,
    /// Get firmware upgrade status.
    GetFirmwareUpgradeStatus,
}

/// The LiDAR models a discovery acknowledgement may report.
#[derive(Debug, Clone, Copy, PartialEq, Eq, Structural)]
pub enum LivoxLidarDeviceType {
    Hub,
    Mid40,
    Tele,
    Horizon,
    Mid70,
    Avia,
    Mid360,
    IndustrialHAP,
    HAP,
    PA,
}

impl CommandType {
    /// The on-wire byte of this direction flag.
    pub open spec fn spec_value(self) -> u8 {
        match self {
            CommandType::Cmd => 0,
            CommandType::Ack => 1,
        }
    }

    /// The on-wire byte of this direction flag.
    pub fn value(&self) -> (r: u8)
        ensures
            r == self.spec_value(),
    {
        match self {
            CommandType::Cmd => 0,
            CommandType::Ack => 1,
        }
    }

    /// The direction flag a byte denotes, if it is a legal one.
    pub open spec fn spec_from_value(v: u8) -> Option<CommandType> {
        if v == 0 {
            Some(CommandType::Cmd)
        } else if v == 1 {
            Some(CommandType::Ack)
        } else {
            None
        }
    }

    /// The direction flag a byte denotes, if it is a legal one.
    pub fn from_value(v: u8) -> (r: Option<CommandType>)
        ensures
            r == Self::spec_from_value(v),
    {
        if v == 0 {
            Some(CommandType::Cmd)
        } else if v == 1 {
            Some(CommandType::Ack)
        } else {
            None
        }
    }
}

impl SendType {
    /// The on-wire byte of this sender kind.
    pub open spec fn spec_value(self) -> u8 {
        match self {
            SendType::HostSend => 0,
            SendType::LidarSend => 1,
        }
    }

    /// The on-wire byte of this sender kind.
    pub fn value(&self) -> (r: u8)
        ensures
            r == self.spec_value(),
    {
        match self {
            SendType::HostSend => 0,
            SendType::LidarSend => 1,
        }
    }

    /// The sender kind a byte denotes, if it is a legal one.
    pub open spec fn spec_from_value(v: u8) -> Option<SendType> {
        if v == 0 {
            Some(SendType::HostSend)
        } else if v == 1 {
            Some(SendType::LidarSend)
        } else {
            None
        }
    }

    /// The sender kind a byte denotes, if it is a legal one.
    pub fn from_value(v: u8) -> (r: Option<SendType>)
        ensures
            r == Self::spec_from_value(v),
    {
        if v == 0 {
            Some(SendType::HostSend)
        } else if v == 1 {
            Some(SendType::LidarSend)
        } else {
            None
        }
    }
}

impl CommandID {
    /// The on-wire 16-bit id of this command.
    pub open spec fn spec_value(self) -> u16 {
        match self {
            CommandID::QueryDeviceType => 0x0000,
            CommandID::ConfigParamInfo => 0x0001,
            CommandID::InquireLidarInfo => 0x0101,
            CommandID::PushLidarInfo => 0x0102,
            CommandID::RequestRebootDevice => 0x0200,
            CommandID::RestoreFactorySettings => 0x0201,
            CommandID::SetGpsTimestamp => 0x0202,
            CommandID::PushLogFile => 0x0300,
            CommandID::LogCollectionConfig => 0x0301,
            CommandID::SyncLogSystemTime => 0x0302,
            CommandID::DebugRawDataCollectionConfig => 0x0303,
            CommandID::RequestStartUpgrade => 0x0400,
            CommandID::TransferFirmwareData => 0x0401,
            CommandID::FirmwareTransferComplete => 0x0402,
            CommandID::GetFirmwareUpgradeStatus => 0x0403,
        }
    }

    /// The on-wire 16-bit id of this command.
    pub fn value(&self) -> (r: u16)
        ensures
            r == self.spec_value(),
    {
        match self {
            CommandID::QueryDeviceType => 0x0000,
            CommandID::ConfigParamInfo => 0x0001,
            CommandID::InquireLidarInfo => 0x0101,
            CommandID::PushLidarInfo => 0x0102,
            CommandID::RequestRebootDevice => 0x0200,
            CommandID::RestoreFactorySettings => 0x0201,
            CommandID::SetGpsTimestamp => 0x0202,
            CommandID::PushLogFile => 0x0300,
            CommandID::LogCollectionConfig => 0x0301,
            CommandID::SyncLogSystemTime => 0x0302,
            CommandID::DebugRawDataCollectionConfig => 0x0303,
            CommandID::RequestStartUpgrade => 0x0400,
            CommandID::TransferFirmwareData => 0x0401,
            CommandID::FirmwareTransferComplete => 0x0402,
            CommandID::GetFirmwareUpgradeStatus => 0x0403,
        }
    }

    /// The command a 16-bit id denotes, if it is a known one.
    pub open spec fn spec_from_value(v: u16) -> Option<CommandID> {
        if v == 0x0000 {
            Some(CommandID::QueryDeviceType)
        } else if v == 0x0001 {
            Some(CommandID::ConfigParamInfo)
        } else if v == 0x0101 {
            Some(CommandID::InquireLidarInfo)
        } else if v == 0x0102 {
            Some(CommandID::PushLidarInfo)
        } else if v == 0x0200 {
            Some(CommandID::RequestRebootDevice)
        } else if v == 0x0201 {
            Some(CommandID::RestoreFactorySettings)
        } else if v == 0x0202 {
            Some(CommandID::SetGpsTimestamp)
        } else if v == 0x0300 {
            Some(CommandID::PushLogFile)
        } else if v == 0x0301 {
            Some(CommandID::LogCollectionConfig)
        } else if v == 0x0302 {
            Some(CommandID::SyncLogSystemTime)
        } else if v == 0x0303 {
            Some(CommandID::DebugRawDataCollectionConfig)
        } else if v == 0x0400 {
            Some(CommandID::RequestStartUpgrade)
        } else if v == 0x0401 {
            Some(CommandID::TransferFirmwareData)
        } else if v == 0x0402 {
            Some(CommandID::FirmwareTransferComplete)
        } else if v == 0x0403 {
            Some(CommandID::GetFirmwareUpgradeStatus)
        } else {
            None
        }
    }

    /// The command a 16-bit id denotes, if it is a known one.
    pub fn from_value(v: u16) -> (r: Option<CommandID>)
        ensures
            r == Self::spec_from_value(v),
    {
        if v == 0x0000 {
            Some(CommandID::QueryDeviceType)
        } else if v == 0x0001 {
            Some(CommandID::ConfigParamInfo)
        } else if v == 0x0101 {
            Some(CommandID::InquireLidarInfo)
        } else if v == 0x0102 {
            Some(CommandID::PushLidarInfo)
        } else if v == 0x0200 {
            Some(CommandID::RequestRebootDevice)
        } else if v == 0x0201 {
            Some(CommandID::RestoreFactorySettings)
        } else if v == 0x0202 {
            Some(CommandID::SetGpsTimestamp)
        } else if v == 0x0300 {
            Some(CommandID::PushLogFile)
        } else if v == 0x0301 {
            Some(CommandID::LogCollectionConfig)
        } else if v == 0x0302 {
            Some(CommandID::SyncLogSystemTime)
        } else if v == 0x0303 {
            Some(CommandID::DebugRawDataCollectionConfig)
        } else if v == 0x0400 {
            Some(CommandID::RequestStartUpgrade)
        } else if v == 0x0401 {
            Some(CommandID::TransferFirmwareData)
        } else if v == 0x0402 {
            Some(CommandID::FirmwareTransferComplete)
        } else if v == 0x0403 {
            Some(CommandID::GetFirmwareUpgradeStatus)
        } else {
            None
        }
    }
}

impl LivoxLidarDeviceType {
    /// The on-wire byte of this device type.
    pub open spec fn spec_value(self) -> u8 {
        match self {
            LivoxLidarDeviceType::Hub => 0,
            LivoxLidarDeviceType::Mid40 => 1,
            LivoxLidarDeviceType::Tele => 2,
            LivoxLidarDeviceType::Horizon => 3,
            LivoxLidarDeviceType::Mid70 => 6,
            LivoxLidarDeviceType::Avia => 7,
            LivoxLidarDeviceType::Mid360 => 9,
            LivoxLidarDeviceType::IndustrialHAP => 10,
            LivoxLidarDeviceType::HAP => 15,
            LivoxLidarDeviceType::PA => 16,
        }
    }

    /// The on-wire byte of this device type.
    pub fn value(&self) -> (r: u8)
        ensures
            r == self.spec_value(),
    {
        match self {
            LivoxLidarDeviceType::Hub => 0,
            LivoxLidarDeviceType::Mid40 => 1,
            LivoxLidarDeviceType::Tele => 2,
            LivoxLidarDeviceType::Horizon => 3,
            LivoxLidarDeviceType::Mid70 => 6,
            LivoxLidarDeviceType::Avia => 7,
            LivoxLidarDeviceType::Mid360 => 9,
            LivoxLidarDeviceType::IndustrialHAP => 10,
            LivoxLidarDeviceType::HAP => 15,
            LivoxLidarDeviceType::PA => 16,
        }
    }

    /// The device type a byte denotes, if it is a known one.
    pub open spec fn spec_from_value(v: u8) -> Option<LivoxLidarDeviceType> {
        if v == 0 {
            Some(LivoxLidarDeviceType::Hub)
        } else if v == 1 {
            Some(LivoxLidarDeviceType::Mid40)
        } else if v == 2 {
            Some(LivoxLidarDeviceType::Tele)
        } else if v == 3 {
            Some(LivoxLidarDeviceType::Horizon)
        } else if v == 6 {
            Some(LivoxLidarDeviceType::Mid70)
        } else if v == 7 {
            Some(LivoxLidarDeviceType::Avia)
        } else if v == 9 {
            Some(LivoxLidarDeviceType::Mid360)
        } else if v == 10 {
            Some(LivoxLidarDeviceType::IndustrialHAP)
        } else if v == 15 {
            Some(LivoxLidarDeviceType::HAP)
        } else if v == 16 {
            Some(LivoxLidarDeviceType::PA)
        } else {
            None
        }
    }

    /// The device type a byte denotes, if it is a known one.
    pub fn from_value(v: u8) -> (r: Option<LivoxLidarDeviceType>)
        ensures
            r == Self::spec_from_value(v),
    {
        if v == 0 {
            Some(LivoxLidarDeviceType::Hub)
        } else if v == 1 {
            Some(LivoxLidarDeviceType::Mid40)
        } else if v == 2 {
            Some(LivoxLidarDeviceType::Tele)
        } else if v == 3 {
            Some(LivoxLidarDeviceType::Horizon)
        } else if v == 6 {
            Some(LivoxLidarDeviceType::Mid70)
        } else if v == 7 {
            Some(LivoxLidarDeviceType::Avia)
        } else if v == 9 {
            Some(LivoxLidarDeviceType::Mid360)
        } else if v == 10 {
            Some(LivoxLidarDeviceType::IndustrialHAP)
        } else if v == 15 {
            Some(LivoxLidarDeviceType::HAP)
        } else if v == 16 {
            Some(LivoxLidarDeviceType::PA)
        } else {
            None
        }
    }
}

/// The 24-byte control-frame header.  Field order is on-wire order; all
/// multi-byte integers are little-endian.
#[derive(Debug, Clone, Copy, PartialEq, Eq)]
pub struct SdkPacketHeader {
    /// Start marker, always `0xAA` on the wire.
    pub sof: StartOfFrame,
    /// Protocol version, always `0` on the wire.
    pub version: Version,
    /// Byte length of the whole frame, header included; the protocol caps
    /// it at 1400 on the wire.
    pub length: u16,
    /// Correlation number: an acknowledgement repeats its request's value.
    pub seq_num: u32,
    /// The command id: the tag selecting the payload variant.
    pub cmd_id: CommandID,
    /// Request or acknowledgement.
    pub cmd_type: CommandType,
    /// Which side sent the frame.
    pub sender_type: SendType,
    /// Reserved padding.
    pub reserved: [u8; 6],
    /// CRC-16 over the first 18 header bytes.
    pub crc16_h: u16,
    /// CRC-32 over the payload bytes.
    pub crc32_d: u32,
}

/// The 24 bytes a control-frame header encodes to.
pub open spec fn spec_encode_sdk_header(h: SdkPacketHeader) -> Seq<u8> {
    seq![0xAAu8, 0u8] + spec_le16_bytes(h.length) + spec_le32_bytes(h.seq_num)
        + spec_le16_bytes(h.cmd_id.spec_value()) + seq![
        h.cmd_type.spec_value(),
        h.sender_type.spec_value(),
    ] + h.reserved@ + spec_le16_bytes(h.crc16_h) + spec_le32_bytes(h.crc32_d)
}

/// What a run of exactly 24 bytes decodes to: the header, or the first
/// validity error, whose offset names the offending field.
pub open spec fn spec_parse_sdk_header(b: Seq<u8>) -> Result<SdkPacketHeader, Error> {
    if b[0] != 0xAA {
        Err(Error::InvalidField { offset: 0, found: b[0] as u64 })
    } else if b[1] != 0 {
        Err(Error::InvalidField { offset: 1, found: b[1] as u64 })
    } else {
        match CommandID::spec_from_value(spec_le16(b, 8) as u16) {
            None => Err(Error::InvalidField { offset: 8, found: spec_le16(b, 8) as u64 }),
            Some(cmd_id) => match CommandType::spec_from_value(b[10]) {
                None => Err(Error::InvalidField { offset: 10, found: b[10] as u64 }),
                Some(cmd_type) => match SendType::spec_from_value(b[11]) {
                    None => Err(Error::InvalidField { offset: 11, found: b[11] as u64 }),
                    Some(sender_type) => Ok(
                        SdkPacketHeader {
                            sof: StartOfFrame::AA,
                            version: Version::V0,
                            length: spec_le16(b, 2) as u16,
                            seq_num: spec_le32(b, 4) as u32,
                            cmd_id,
                            cmd_type,
                            sender_type,
                            reserved: [b[12], b[13], b[14], b[15], b[16], b[17]],
                            crc16_h: spec_le16(b, 18) as u16,
                            crc32_d: spec_le32(b, 20) as u32,
                        },
                    ),
                },
            },
        }
    }
}

impl DstHeader for SdkPacketHeader {
    open spec fn spec_size() -> usize {
        SDK_PACKET_HEADER_SIZE
    }

    open spec fn spec_parse(b: Seq<u8>) -> Result<Self, Error> {
        spec_parse_sdk_header(b)
    }

    /// The untyped length strategy: the `length` field counts the whole
    /// frame, so the payload holds `length - 24` bytes; a declared length
    /// smaller than the header itself is a size error.
    open spec fn spec_payload_size(self) -> Result<usize, Error> {
        UntypedLen::spec_payload_bytes(self.length, SDK_PACKET_HEADER_SIZE)
    }

    fn size() -> (r: usize) {
        SDK_PACKET_HEADER_SIZE
    }

    fn parse(b: &[u8]) -> (r: Result<Self, Error>) {
        if b[0] != 0xAA {
            return Err(Error::invalid_field(0, b[0] as u64));
        }
        if b[1] != 0 {
            return Err(Error::invalid_field(1, b[1] as u64));
        }
        let cmd_id_value = read_le16(b, 8);
        let cmd_id = match CommandID::from_value(cmd_id_value) {
            None => {
                return Err(Error::invalid_field(8, cmd_id_value as u64));
            },
            Some(c) => c,
        };
        let cmd_type = match CommandType::from_value(b[10]) {
            None => {
                return Err(Error::invalid_field(10, b[10] as u64));
            },
            Some(c) => c,
        };
        let sender_type = match SendType::from_value(b[11]) {
            None => {
                return Err(Error::invalid_field(11, b[11] as u64));
            },
            Some(s) => s,
        };
        Ok(
            SdkPacketHeader {
                sof: StartOfFrame::AA,
                version: Version::V0,
                length: read_le16(b, 2),
                seq_num: read_le32(b, 4),
                cmd_id,
                cmd_type,
                sender_type,
                reserved: [b[12], b[13], b[14], b[15], b[16], b[17]],
                crc16_h: read_le16(b, 18),
                crc32_d: read_le32(b, 20),
            },
        )
    }

    fn payload_size(&self) -> (r: Result<usize, Error>) {
        UntypedLen::payload_bytes(self.length, SDK_PACKET_HEADER_SIZE)
    }
}

impl SdkPacketHeader {
    /// A fresh outbound header: start marker and version fixed, `length`
    /// covering header plus `data_length` payload bytes, the sequence
    /// number drawn from `counter`, and both check codes still zero.
    pub fn new(
        data_length: usize,
        cmd_id: CommandID,
        cmd_type: CommandType,
        sender_type: SendType,
        counter: &mut SeqCounter,
    ) -> (r: SdkPacketHeader)
        requires
            old(counter).wf(),
            SDK_PACKET_HEADER_SIZE + data_length <= u16::MAX,
        ensures
            final(counter).wf(),
            final(counter).spec_value() == spec_next_value(r.seq_num as u32),
            r == (SdkPacketHeader {
                sof: StartOfFrame::AA,
                version: Version::V0,
                length: (SDK_PACKET_HEADER_SIZE + data_length) as u16,
                seq_num: old(counter).spec_value(),
                cmd_id,
                cmd_type,
                sender_type,
                reserved: [0u8, 0u8, 0u8, 0u8, 0u8, 0u8],
                crc16_h: 0u16,
                crc32_d: 0u32,
            }),
    {
        let length = (SDK_PACKET_HEADER_SIZE + data_length) as u16;
        SdkPacketHeader {
            sof: StartOfFrame::AA,
            version: Version::V0,
            length,
            seq_num: counter.next_seq(),
            cmd_id,
            cmd_type,
            sender_type,
            reserved: [0, 0, 0, 0, 0, 0],
            crc16_h: 0,
            crc32_d: 0,
        }
    }

    /// The payload byte count this header declares: `length - 24`.
    pub fn data_len(&self) -> (r: usize)
        requires
            self.length >= SDK_PACKET_HEADER_SIZE,
        ensures
            r == self.length - SDK_PACKET_HEADER_SIZE,
    {
        (self.length - SDK_PACKET_HEADER_SIZE as u16) as usize
    }

    /// Serialises the header to its 24 on-wire bytes.
    pub fn to_bytes(&self) -> (r: Vec<u8>)
        ensures
            r@ == spec_encode_sdk_header(*self),
            r@.len() == SDK_PACKET_HEADER_SIZE,
    {
        let mut out: Vec<u8> = Vec::new();
        out.push(0xAA);
        out.push(0);
        push_le16(&mut out, self.length);
        push_le32(&mut out, self.seq_num);
        push_le16(&mut out, self.cmd_id.value());
        out.push(self.cmd_type.value());
        out.push(self.sender_type.value());
        let mut i: usize = 0;
        while i < 6
            invariant
                i <= 6,
                out@ == seq![0xAAu8, 0u8] + spec_le16_bytes(self.length) + spec_le32_bytes(
                    self.seq_num,
                ) + spec_le16_bytes(self.cmd_id.spec_value()) + seq![
                    self.cmd_type.spec_value(),
                    self.sender_type.spec_value(),
                ] + self.reserved@.take(i as int),
            decreases 6 - i,
        {
            out.push(self.reserved[i]);
            proof {
                assert(self.reserved@.take(i + 1) =~= self.reserved@.take(i as int) + seq![
                    self.reserved@[i as int],
                ]);
                assert(out@ =~= seq![0xAAu8, 0u8] + spec_le16_bytes(self.length)
                    + spec_le32_bytes(self.seq_num) + spec_le16_bytes(self.cmd_id.spec_value())
                    + seq![self.cmd_type.spec_value(), self.sender_type.spec_value()]
                    + self.reserved@.take(i + 1));
            }
            i = i + 1;
        }
        proof {
            assert(self.reserved@.take(6) =~= self.reserved@);
        }
        push_le16(&mut out, self.crc16_h);
        push_le32(&mut out, self.crc32_d);
        proof {
            assert(out@ =~= spec_encode_sdk_header(*self));
        }
        out
    }
}

/// Decoding the bytes a header encodes to gives back the header.
///
/// The encoding writes the fixed start marker and version, so any header
/// value round-trips; no assumption on its fields is needed.
pub proof fn lemma_sdk_header_round_trip(h: SdkPacketHeader)
    ensures
        spec_parse_sdk_header(spec_encode_sdk_header(h)) == Ok::<_, Error>(h),
{
    let b = spec_encode_sdk_header(h);
    crate::bytes::lemma_le16_round_trip(h.length);
    crate::bytes::lemma_le32_round_trip(h.seq_num);
    crate::bytes::lemma_le16_round_trip(h.cmd_id.spec_value());
    crate::bytes::lemma_le16_round_trip(h.crc16_h);
    crate::bytes::lemma_le32_round_trip(h.crc32_d);
    assert(spec_le16(b, 2) == h.length);
    assert(spec_le32(b, 4) == h.seq_num);
    assert(spec_le16(b, 8) == h.cmd_id.spec_value());
    assert(spec_le16(b, 18) == h.crc16_h);
    assert(spec_le32(b, 20) == h.crc32_d);
    assert(CommandID::spec_from_value(h.cmd_id.spec_value()) == Some(h.cmd_id));
    assert(CommandType::spec_from_value(h.cmd_type.spec_value()) == Some(h.cmd_type));
    assert(SendType::spec_from_value(h.sender_type.spec_value()) == Some(h.sender_type));
    let parsed = spec_parse_sdk_header(b);
    assert(parsed is Ok);
    let p = parsed->Ok_0;
    assert(p.reserved =~= h.reserved);
    assert(p.sof == h.sof);
    assert(p.version == h.version);
}


/// The payload of a device-discovery acknowledgement: what a LiDAR answers
/// when the host broadcasts a discovery request.
#[derive(Debug, Clone, Copy, PartialEq, Eq)]
pub struct QueryDeviceTypeAck {
    /// Return code; zero means the answer is valid.
    pub ret_code: u8,
    /// The reporting LiDAR's model.
    pub dev_type: LivoxLidarDeviceType,
    /// The LiDAR's serial number.
    pub sn: [u8; 16],
    /// The LiDAR's IPv4 address, one octet per byte.
    pub lidar_ip: [u8; 4],
    /// The LiDAR's command port.
    pub cmd_port: u16,
}

/// What a payload decodes to as an acknowledgement: exactly 24 bytes are
/// required, and the result is the acknowledgement or a validity error
/// naming the offending field (offsets are relative to the payload).
pub open spec fn spec_parse_ack(b: Seq<u8>) -> Result<QueryDeviceTypeAck, Error> {
    if b.len() != QUERY_DEVICE_TYPE_ACK_SIZE {
        Err(Error::InvalidSize { expect: QUERY_DEVICE_TYPE_ACK_SIZE, found: b.len() as usize })
    } else {
        match LivoxLidarDeviceType::spec_from_value(b[1]) {
            None => Err(Error::InvalidField { offset: 1, found: b[1] as u64 }),
            Some(dev_type) => Ok(
                QueryDeviceTypeAck {
                    ret_code: b[0],
                    dev_type,
                    sn: [
                    b[2],
                    b[3],
                    b[4],
                    b[5],
                    b[6],
                    b[7],
                    b[8],
                    b[9],
                    b[10],
                    b[11],
                    b[12],
                    b[13],
                    b[14],
                    b[15],
                    b[16],
                    b[17],
                ],
                    lidar_ip: [b[18], b[19], b[20], b[21]],
                    cmd_port: spec_le16(b, 22) as u16,
                },
            ),
        }
    }
}

/// The 24 bytes an acknowledgement encodes to.
pub open spec fn spec_encode_ack(a: QueryDeviceTypeAck) -> Seq<u8> {
    seq![a.ret_code, a.dev_type.spec_value()] + a.sn@ + a.lidar_ip@ + spec_le16_bytes(a.cmd_port)
}

impl QueryDeviceTypeAck {
    /// Whether the acknowledgement is valid: its return code is zero.
    pub fn is_valid(&self) -> (r: bool)
        ensures
            r <==> self.ret_code == 0,
    {
        self.ret_code == 0
    }

    /// Validates and decodes an acknowledgement payload, which must be
    /// exactly 24 bytes.
    pub fn parse(b: &[u8]) -> (r: Result<QueryDeviceTypeAck, Error>)
        ensures
            r == spec_parse_ack(b@),
    {
        if b.len() != QUERY_DEVICE_TYPE_ACK_SIZE {
            return Err(Error::invalid_size(QUERY_DEVICE_TYPE_ACK_SIZE, b.len()));
        }
        let dev_type = match LivoxLidarDeviceType::from_value(b[1]) {
            None => {
                return Err(Error::invalid_field(1, b[1] as u64));
            },
            Some(d) => d,
        };
        Ok(
            QueryDeviceTypeAck {
                ret_code: b[0],
                dev_type,
                sn: [
                    b[2],
                    b[3],
                    b[4],
                    b[5],
                    b[6],
                    b[7],
                    b[8],
                    b[9],
                    b[10],
                    b[11],
                    b[12],
                    b[13],
                    b[14],
                    b[15],
                    b[16],
                    b[17],
                ],
                lidar_ip: [b[18], b[19], b[20], b[21]],
                cmd_port: read_le16(b, 22),
            },
        )
    }

    /// Serialises the acknowledgement to its 24 on-wire bytes.
    pub fn to_bytes(&self) -> (r: Vec<u8>)
        ensures
            r@ == spec_encode_ack(*self),
            r@.len() == QUERY_DEVICE_TYPE_ACK_SIZE,
    {
        let mut out: Vec<u8> = Vec::new();
        out.push(self.ret_code);
        out.push(self.dev_type.value());
        let mut i: usize = 0;
        while i < 16
            invariant
                i <= 16,
                out@ == seq![self.ret_code, self.dev_type.spec_value()] + self.sn@.take(i as int),
            decreases 16 - i,
        {
            out.push(self.sn[i]);
            proof {
                assert(self.sn@.take(i + 1) =~= self.sn@.take(i as int) + seq![self.sn@[i as int]]);
                assert(out@ =~= seq![self.ret_code, self.dev_type.spec_value()] + self.sn@.take(
                    i + 1,
                ));
            }
            i = i + 1;
        }
        proof {
            assert(self.sn@.take(16) =~= self.sn@);
        }
        out.push(self.lidar_ip[0]);
        out.push(self.lidar_ip[1]);
        out.push(self.lidar_ip[2]);
        out.push(self.lidar_ip[3]);
        push_le16(&mut out, self.cmd_port);
        proof {
            assert(self.lidar_ip@ =~= seq![
                self.lidar_ip@[0],
                self.lidar_ip@[1],
                self.lidar_ip@[2],
                self.lidar_ip@[3],
            ]);
            assert(out@ =~= spec_encode_ack(*self));
        }
        out
    }
}

/// Decoding the bytes an acknowledgement encodes to gives it back.
pub proof fn lemma_ack_round_trip(a: QueryDeviceTypeAck)
    ensures
        spec_parse_ack(spec_encode_ack(a)) == Ok::<_, Error>(a),
{
    let b = spec_encode_ack(a);
    crate::bytes::lemma_le16_round_trip(a.cmd_port);
    assert(spec_le16(b, 22) == a.cmd_port);
    assert(LivoxLidarDeviceType::spec_from_value(a.dev_type.spec_value()) == Some(a.dev_type));
    let parsed = spec_parse_ack(b);
    assert(parsed is Ok);
    let p = parsed->Ok_0;
    assert(p.sn =~= a.sn);
    assert(p.lidar_ip =~= a.lidar_ip);
}

/// The outbound header that a control frame over `payload` carries: length
/// covering header plus payload, the given direction and tag fields, the
/// given sequence number, the CRC-16 of its own first 18 bytes and the
/// CRC-32 of the payload.
pub open spec fn spec_control_header_for(
    payload: Seq<u8>,
    cmd_id: CommandID,
    cmd_type: CommandType,
    sender_type: SendType,
    seq_num: u32,
) -> SdkPacketHeader {
    let h0 = SdkPacketHeader {
        sof: StartOfFrame::AA,
        version: Version::V0,
        length: (SDK_PACKET_HEADER_SIZE + payload.len()) as u16,
        seq_num,
        cmd_id,
        cmd_type,
        sender_type,
        reserved: [0u8, 0u8, 0u8, 0u8, 0u8, 0u8],
        crc16_h: 0u16,
        crc32_d: 0u32,
    };
    SdkPacketHeader {
        crc16_h: crc16_of(spec_encode_sdk_header(h0).take(CRC16_COVERED_LEN as int)),
        crc32_d: crc32_of(payload),
        ..h0
    }
}

/// Builds a whole outbound control frame over `payload`: the header of
/// [`spec_control_header_for`], serialised, followed by the payload bytes.
/// Draws the sequence number from `counter`.
pub fn build_control_frame(
    payload: &[u8],
    cmd_id: CommandID,
    cmd_type: CommandType,
    sender_type: SendType,
    counter: &mut SeqCounter,
) -> (r: Vec<u8>)
    requires
        old(counter).wf(),
        SDK_PACKET_HEADER_SIZE + payload@.len() <= u16::MAX,
    ensures
        final(counter).wf(),
        final(counter).spec_value() == spec_next_value(old(counter).spec_value()),
        r@ == spec_encode_sdk_header(
            spec_control_header_for(
                payload@,
                cmd_id,
                cmd_type,
                sender_type,
                old(counter).spec_value(),
            ),
        ) + payload@,
{
    let mut header = SdkPacketHeader::new(payload.len(), cmd_id, cmd_type, sender_type, counter);
    let ghost h0 = header;
    let header_bytes = header.to_bytes();
    let prefix = vstd::slice::slice_subrange(header_bytes.as_slice(), 0, CRC16_COVERED_LEN);
    header.crc16_h = crc16_checksum(prefix);
    header.crc32_d = crc32_checksum(payload);
    proof {
        assert(prefix@ =~= spec_encode_sdk_header(h0).take(CRC16_COVERED_LEN as int));
        assert(header == spec_control_header_for(
            payload@,
            cmd_id,
            cmd_type,
            sender_type,
            old(counter).spec_value(),
        ));
    }
    let mut out = header.to_bytes();
    let mut i: usize = 0;
    let ghost h = header;
    while i < payload.len()
        invariant
            i <= payload@.len(),
            out@ == spec_encode_sdk_header(h) + payload@.take(i as int),
        decreases payload@.len() - i,
    {
        out.push(payload[i]);
        proof {
            assert(payload@.take(i + 1) =~= payload@.take(i as int) + seq![payload@[i as int]]);
            assert(out@ =~= spec_encode_sdk_header(h) + payload@.take(i + 1));
        }
        i = i + 1;
    }
    proof {
        assert(payload@.take(payload@.len() as int) =~= payload@);
    }
    out
}

/// The outbound device-discovery request: a control frame with the
/// discovery command id and an empty payload.
#[derive(Debug, Clone, Copy, PartialEq, Eq)]
pub struct LidarSearchCmdPacket {
    /// The frame's header; discovery requests carry no payload.
    pub header: SdkPacketHeader,
}

impl LidarSearchCmdPacket {
    /// Builds a discovery request with a fresh sequence number and both
    /// check codes computed: the CRC-16 of the header's first 18 bytes and
    /// the CRC-32 of the empty payload.
    pub fn new(cmd_type: CommandType, sender_type: SendType, counter: &mut SeqCounter) -> (r:
        LidarSearchCmdPacket)
        requires
            old(counter).wf(),
        ensures
            final(counter).wf(),
            final(counter).spec_value() == spec_next_value(old(counter).spec_value()),
            r.header == spec_control_header_for(
                Seq::<u8>::empty(),
                CommandID::QueryDeviceType,
                cmd_type,
                sender_type,
                old(counter).spec_value(),
            ),
    {
        let mut header = SdkPacketHeader::new(
            0,
            CommandID::QueryDeviceType,
            cmd_type,
            sender_type,
            counter,
        );
        let ghost h0 = header;
        let header_bytes = header.to_bytes();
        let prefix = vstd::slice::slice_subrange(header_bytes.as_slice(), 0, CRC16_COVERED_LEN);
        header.crc16_h = crc16_checksum(prefix);
        let empty: Vec<u8> = Vec::new();
        header.crc32_d = crc32_checksum(empty.as_slice());
        proof {
            assert(prefix@ =~= spec_encode_sdk_header(h0).take(CRC16_COVERED_LEN as int));
            assert(empty@ =~= Seq::<u8>::empty());
            assert(header == spec_control_header_for(
                Seq::<u8>::empty(),
                CommandID::QueryDeviceType,
                cmd_type,
                sender_type,
                old(counter).spec_value(),
            ));
        }
        LidarSearchCmdPacket { header }
    }

    /// Serialises the request to its 24 on-wire bytes (the payload is empty).
    pub fn to_bytes(&self) -> (r: Vec<u8>)
        ensures
            r@ == spec_encode_sdk_header(self.header),
    {
        self.header.to_bytes()
    }
}

/// A parsed device-discovery acknowledgement frame: the control header and
/// the decoded acknowledgement payload.
#[derive(Debug, Clone, Copy, PartialEq, Eq)]
pub struct LidarSearchAckRef {
    /// The frame's validated header.
    pub header: SdkPacketHeader,
    /// The decoded acknowledgement.
    pub data: QueryDeviceTypeAck,
}

/// What parsing a whole buffer as a discovery acknowledgement yields:
/// header split and validation, the discovery dispatch on the command id,
/// the untyped payload take of exactly `length - 24` bytes, and the decode
/// of the 24-byte acknowledgement, or the first error of those steps.
pub open spec fn spec_parse_search_ack(bytes: Seq<u8>) -> Result<LidarSearchAckRef, Error> {
    match spec_split_header::<SdkPacketHeader>(bytes) {
        Err(e) => Err(e),
        Ok((header, tail)) => if !(header.cmd_id is QueryDeviceType) {
            Err(
                Error::UnknownType {
                    expect: ExpectedTags::ControlCommand,
                    found: header.cmd_id.spec_value() as u64,
                },
            )
        } else {
            match spec_take_payload::<SdkPacketHeader>(header, tail) {
                Err(e) => Err(e),
                Ok(data) => match spec_parse_ack(data) {
                    Err(e) => Err(e),
                    Ok(ack) => Ok(LidarSearchAckRef { header, data: ack }),
                },
            }
        },
    }
}

impl LidarSearchAckRef {
    /// Parses a whole received buffer as a discovery acknowledgement frame.
    ///
    /// A buffer shorter than 24 bytes, an illegal header field, a command
    /// id other than device discovery, a payload shorter than the header
    /// declares or not exactly one acknowledgement, and an illegal
    /// acknowledgement field each fail with the error
    /// [`spec_parse_search_ack`] names for them.
    pub fn try_from_bytes(source: &[u8]) -> (r: Result<LidarSearchAckRef, Error>)
        ensures
            r == spec_parse_search_ack(source@),
    {
        let (header, tail) = match split_header::<SdkPacketHeader>(source) {
            Err(e) => {
                return Err(e);
            },
            Ok(p) => p,
        };
        let cmd_id = header.cmd_id;
        match cmd_id {
            CommandID::QueryDeviceType => {},
            _ => {
                return Err(Error::unknown_type(
                    ExpectedTags::ControlCommand,
                    cmd_id.value() as u64,
                ));
            },
        }
        let data = match take_payload::<SdkPacketHeader>(&header, tail) {
            Err(e) => {
                return Err(e);
            },
            Ok(d) => d,
        };
        let ack = match QueryDeviceTypeAck::parse(data) {
            Err(e) => {
                return Err(e);
            },
            Ok(a) => a,
        };
        Ok(LidarSearchAckRef { header, data: ack })
    }
}

/// Round-trip at the frame level: a frame whose header declares exactly
/// its payload parses back, through the whole engine, to that header and
/// that payload.
pub proof fn lemma_control_frame_round_trip(h: SdkPacketHeader, payload: Seq<u8>)
    requires
        h.length == SDK_PACKET_HEADER_SIZE + payload.len(),
    ensures
        crate::dst::spec_parse_frame::<SdkPacketHeader>(spec_encode_sdk_header(h) + payload)
            == Ok::<_, Error>((h, payload)),
{
    let b = spec_encode_sdk_header(h) + payload;
    assert(b.take(SDK_PACKET_HEADER_SIZE as int) =~= spec_encode_sdk_header(h));
    lemma_sdk_header_round_trip(h);
    assert(b.skip(SDK_PACKET_HEADER_SIZE as int) =~= payload);
    assert(payload.take(payload.len() as int) =~= payload);
}

/// Round-trip for constructed frames: building a control frame over a
/// payload and parsing its bytes back yields the very header and payload
/// that were built, and the two check codes the header carries are the
/// checksums of exactly their ranges: the CRC-16 of the frame's first 18
/// bytes and the CRC-32 of its payload bytes.
pub proof fn lemma_built_frame_round_trip(
    payload: Seq<u8>,
    cmd_id: CommandID,
    cmd_type: CommandType,
    sender_type: SendType,
    seq_num: u32,
)
    requires
        SDK_PACKET_HEADER_SIZE + payload.len() <= u16::MAX,
    ensures
        ({
            let h = spec_control_header_for(payload, cmd_id, cmd_type, sender_type, seq_num);
            let frame = spec_encode_sdk_header(h) + payload;
            &&& crate::dst::spec_parse_frame::<SdkPacketHeader>(frame) == Ok::<_, Error>(
                (h, payload),
            )
            &&& h.crc16_h == crc16_of(frame.take(CRC16_COVERED_LEN as int))
            &&& h.crc32_d == crc32_of(payload)
        }),
{
    let h = spec_control_header_for(payload, cmd_id, cmd_type, sender_type, seq_num);
    let h0 = SdkPacketHeader { crc16_h: 0u16, crc32_d: 0u32, ..h };
    let frame = spec_encode_sdk_header(h) + payload;
    lemma_control_frame_round_trip(h, payload);
    assert(frame.take(CRC16_COVERED_LEN as int) =~= spec_encode_sdk_header(h0).take(
        CRC16_COVERED_LEN as int,
    ));
}

impl CommandID {
    /// A human-readable description of the command.
    pub open spec fn spec_description(self) -> Seq<char> {
        match self {
            CommandID::QueryDeviceType => "Discovery device type by broadcasting"@,
            CommandID::ConfigParamInfo => "Parameter information configuration"@,
            CommandID::InquireLidarInfo => "Inquire LiDAR information"@,
            CommandID::PushLidarInfo => "Push LiDAR information"@,
            CommandID::RequestRebootDevice => "Request reboot device"@,
            CommandID::RestoreFactorySettings => "Restore factory settings"@,
            CommandID::SetGpsTimestamp => "Set GPS timestamp"@,
            CommandID::PushLogFile => "Log file push"@,
            CommandID::LogCollectionConfig => "Log collection configuration"@,
            CommandID::SyncLogSystemTime => "Log system time synchronization"@,
            CommandID::DebugRawDataCollectionConfig => "Debug raw data collection configuration"@,
            CommandID::RequestStartUpgrade => "Request to start upgrade"@,
            CommandID::TransferFirmwareData => "Firmware data transfer"@,
            CommandID::FirmwareTransferComplete => "Firmware transfer complete"@,
            CommandID::GetFirmwareUpgradeStatus => "Get firmware upgrade status"@,
        }
    }

    /// A human-readable description of the command.
    pub fn description(&self) -> (r: &'static str)
        ensures
            r@ == self.spec_description(),
    {
        match self {
            CommandID::QueryDeviceType => "Discovery device type by broadcasting",
            CommandID::ConfigParamInfo => "Parameter information configuration",
            CommandID::InquireLidarInfo => "Inquire LiDAR information",
            CommandID::PushLidarInfo => "Push LiDAR information",
            CommandID::RequestRebootDevice => "Request reboot device",
            CommandID::RestoreFactorySettings => "Restore factory settings",
            CommandID::SetGpsTimestamp => "Set GPS timestamp",
            CommandID::PushLogFile => "Log file push",
            CommandID::LogCollectionConfig => "Log collection configuration",
            CommandID::SyncLogSystemTime => "Log system time synchronization",
            CommandID::DebugRawDataCollectionConfig => "Debug raw data collection configuration",
            CommandID::RequestStartUpgrade => "Request to start upgrade",
            CommandID::TransferFirmwareData => "Firmware data transfer",
            CommandID::FirmwareTransferComplete => "Firmware transfer complete",
            CommandID::GetFirmwareUpgradeStatus => "Get firmware upgrade status",
        }
    }
}

/// Round-trip for discovery acknowledgements: a frame built over one
/// serialised acknowledgement parses back, through the discovery dispatch,
/// to the very header and acknowledgement that were built.
pub proof fn lemma_search_ack_round_trip(
    a: QueryDeviceTypeAck,
    cmd_type: CommandType,
    sender_type: SendType,
    seq_num: u32,
)
    ensures
        ({
            let h = spec_control_header_for(
                spec_encode_ack(a),
                CommandID::QueryDeviceType,
                cmd_type,
                sender_type,
                seq_num,
            );
            spec_parse_search_ack(spec_encode_sdk_header(h) + spec_encode_ack(a)) == Ok::<
                _,
                Error,
            >(LidarSearchAckRef { header: h, data: a })
        }),
{
    let payload = spec_encode_ack(a);
    let h = spec_control_header_for(
        payload,
        CommandID::QueryDeviceType,
        cmd_type,
        sender_type,
        seq_num,
    );
    let b = spec_encode_sdk_header(h) + payload;
    assert(b.take(SDK_PACKET_HEADER_SIZE as int) =~= spec_encode_sdk_header(h));
    lemma_sdk_header_round_trip(h);
    assert(b.skip(SDK_PACKET_HEADER_SIZE as int) =~= payload);
    assert(payload.take(payload.len() as int) =~= payload);
    lemma_ack_round_trip(a);
}

/// Checks a control frame's two check codes against its own bytes: the
/// CRC-16 against the frame's first 18 bytes and the CRC-32 against its
/// payload bytes.
///
/// Inbound parsing does not enforce the check codes — the frame is
/// returned with them as received — so rejecting a mismatch is this
/// explicit, separate step.  Returns the parse error when the frame does
/// not parse at all.
pub fn verify_control_frame_crcs(frame: &[u8]) -> (r: Result<(bool, bool), Error>)
    ensures
        match crate::dst::spec_parse_frame::<SdkPacketHeader>(frame@) {
            Ok(p) => r == Ok::<_, Error>(
                (
                    p.0.crc16_h == crc16_of(frame@.take(CRC16_COVERED_LEN as int)),
                    p.0.crc32_d == crc32_of(p.1),
                ),
            ),
            Err(e) => r == Err::<(bool, bool), _>(e),
        },
{
    let f = match crate::dst::DstRef::<SdkPacketHeader>::try_ref_from_bytes(frame) {
        Err(e) => {
            return Err(e);
        },
        Ok(f) => f,
    };
    let prefix = vstd::slice::slice_subrange(frame, 0, CRC16_COVERED_LEN);
    proof {
        assert(prefix@ =~= frame@.take(CRC16_COVERED_LEN as int));
    }
    let c16 = crc16_checksum(prefix);
    let c32 = crc32_checksum(f.data);
    Ok((c16 == f.header.crc16_h, c32 == f.header.crc32_d))
}

} // verus!
