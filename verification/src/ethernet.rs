//! The streaming wire format: point-cloud and inertial sample frames.
//!
//! A streaming frame is a 36-byte header followed by a payload whose byte
//! length the header declares *typed*: the `dot_num` field is the number of
//! payload elements, and the element size is known from the `data_type` tag.
//! The header also carries a version, an informational total length, the
//! intra-frame sample time interval (0.1 microsecond units), per-datagram
//! and per-frame counters, a timestamp type, a CRC-32 over timestamp and
//! payload, and a 64-bit nanosecond timestamp.
//!
//! Payload elements are flat binary records: inertial samples or one of
//! three point encodings, selected by the tag.

use vstd::prelude::*;

use crate::bytes::{
    push_le16, push_le32, push_le64, read_le16, read_le32, read_le64, spec_le16, spec_le16_bytes,
    spec_le32, spec_le32_bytes, spec_le64, spec_le64_bytes,
};
use crate::dst::{DstHeader, TypedLen};
use crate::error::Error;

verus! {

/// The byte size of a streaming-frame header.
pub const ETHERNET_PACKET_HEADER_SIZE: usize = 36;

/// The byte size of one inertial sample.
pub const IMU_DATA_SIZE: usize = 24;

/// The byte size of one high-precision Cartesian point.
pub const CARTESIAN_HIGH_POINT_SIZE: usize = 14;

/// The byte size of one low-precision Cartesian point.
pub const CARTESIAN_LOW_POINT_SIZE: usize = 8;

/// The byte size of one spherical point.
pub const SPHERICAL_POINT_SIZE: usize = 10;

/// How the header's timestamp was synchronised.
#[derive(Debug, Clone, Copy, PartialEq, Eq, Structural)]
pub enum TimestampType {
    /// No synchronisation source; the timestamp counts from power-on.
    NoSync,
    /// gPTP/PTP synchronisation against a master clock.
    Ptp,
    /// GPS time synchronisation.
    Gps,
}

/// The tag selecting which payload element type a streaming frame carries.
#[derive(Debug, Clone, Copy, PartialEq, Eq, Structural)]
pub enum PointDataType {
    /// Inertial samples.
    ImuData,
    /// High-precision Cartesian points (millimetres).
    CartesianCoordinateHighData,
    /// Low-precision Cartesian points (centimetres).
    CartesianCoordinateLowData,
    /// Spherical points.
    SphericalCoordinateData,
}

impl TimestampType {
    /// The on-wire byte of this timestamp type.
    pub open spec fn spec_value(self) -> u8 {
        match self {
            TimestampType::NoSync => 0,
            TimestampType::Ptp => 1,
            TimestampType::Gps => 2,
        }
    }

    /// The on-wire byte of this timestamp type.
    pub fn value(&self) -> (r: u8)
        ensures
            r == self.spec_value(),
    {
        match self {
            TimestampType::NoSync => 0,
            TimestampType::Ptp => 1,
            TimestampType::Gps => 2,
        }
    }

    /// The timestamp type a byte denotes, if it is a legal one.
    pub open spec fn spec_from_value(v: u8) -> Option<TimestampType> {
        if v == 0 {
            Some(TimestampType::NoSync)
        } else if v == 1 {
            Some(TimestampType::Ptp)
        } else if v == 2 {
            Some(TimestampType::Gps)
        } else {
            None
        }
    }

    /// The timestamp type a byte denotes, if it is a legal one.
    pub fn from_value(v: u8) -> (r: Option<TimestampType>)
        ensures
            r == Self::spec_from_value(v),
    {
        if v == 0 {
            Some(TimestampType::NoSync)
        } else if v == 1 {
            Some(TimestampType::Ptp)
        } else if v == 2 {
            Some(TimestampType::Gps)
        } else {
            None
        }
    }
}

impl PointDataType {
    /// The on-wire byte of this tag.
    pub open spec fn spec_value(self) -> u8 {
        match self {
            PointDataType::ImuData => 0,
            PointDataType::CartesianCoordinateHighData => 1,
            PointDataType::CartesianCoordinateLowData => 2,
            PointDataType::SphericalCoordinateData => 3,
        }
    }

    /// The on-wire byte of this tag.
    pub fn value(&self) -> (r: u8)
        ensures
            r == self.spec_value(),
    {
        match self {
            PointDataType::ImuData => 0,
            PointDataType::CartesianCoordinateHighData => 1,
            PointDataType::CartesianCoordinateLowData => 2,
            PointDataType::SphericalCoordinateData => 3,
        }
    }

    /// The tag a byte denotes, if it is a known one.
    pub open spec fn spec_from_value(v: u8) -> Option<PointDataType> {
        if v == 0 {
            Some(PointDataType::ImuData)
        } else if v == 1 {
            Some(PointDataType::CartesianCoordinateHighData)
        } else if v == 2 {
            Some(PointDataType::CartesianCoordinateLowData)
        } else if v == 3 {
            Some(PointDataType::SphericalCoordinateData)
        } else {
            None
        }
    }

    /// The tag a byte denotes, if it is a known one.
    pub fn from_value(v: u8) -> (r: Option<PointDataType>)
        ensures
            r == Self::spec_from_value(v),
    {
        if v == 0 {
            Some(PointDataType::ImuData)
        } else if v == 1 {
            Some(PointDataType::CartesianCoordinateHighData)
        } else if v == 2 {
            Some(PointDataType::CartesianCoordinateLowData)
        } else if v == 3 {
            Some(PointDataType::SphericalCoordinateData)
        } else {
            None
        }
    }

    /// The byte size of one payload element of this tag.
    pub open spec fn spec_elem_size(self) -> usize {
        match self {
            PointDataType::ImuData => IMU_DATA_SIZE,
            PointDataType::CartesianCoordinateHighData => CARTESIAN_HIGH_POINT_SIZE,
            PointDataType::CartesianCoordinateLowData => CARTESIAN_LOW_POINT_SIZE,
            PointDataType::SphericalCoordinateData => SPHERICAL_POINT_SIZE,
        }
    }

    /// The byte size of one payload element of this tag.
    pub fn elem_size(&self) -> (r: usize)
        ensures
            r == self.spec_elem_size(),
    {
        match self {
            PointDataType::ImuData => IMU_DATA_SIZE,
            PointDataType::CartesianCoordinateHighData => CARTESIAN_HIGH_POINT_SIZE,
            PointDataType::CartesianCoordinateLowData => CARTESIAN_LOW_POINT_SIZE,
            PointDataType::SphericalCoordinateData => SPHERICAL_POINT_SIZE,
        }
    }
}

/// The 36-byte streaming-frame header.  Field order is on-wire order; all
/// multi-byte integers are little-endian.
#[derive(Debug, Clone, Copy, PartialEq, Eq)]
pub struct EthernetPacketHeader {
    /// Package protocol version; no value is rejected.
    pub version: u8,
    /// Length of the whole UDP data segment; informational, not used for
    /// slicing.
    pub length: u16,
    /// Intra-frame sampling time in 0.1 microsecond units: the time of the
    /// frame's last sample minus the time of its first.
    pub time_interval: u16,
    /// The number of payload elements in this datagram: the typed length.
    pub dot_num: u16,
    /// Per-datagram counter, incremented by 1 and cleared at the start of
    /// each point-cloud frame.
    pub udp_cnt: u16,
    /// Per-frame counter; invalid for non-repeating scans.
    pub frame_cnt: u8,
    /// The tag selecting the payload element type.
    pub data_type: PointDataType,
    /// How the timestamp was synchronised.
    pub time_type: TimestampType,
    /// Reserved padding.
    pub reserved: [u8; 12],
    /// CRC-32 over timestamp and payload bytes.
    pub crc32: u32,
    /// Frame timestamp in nanoseconds.
    pub timestamp: u64,
}

/// The 36 bytes a streaming-frame header encodes to.
pub open spec fn spec_encode_ethernet_header(h: EthernetPacketHeader) -> Seq<u8> {
    seq![h.version] + spec_le16_bytes(h.length) + spec_le16_bytes(h.time_interval)
        + spec_le16_bytes(h.dot_num) + spec_le16_bytes(h.udp_cnt) + seq![
        h.frame_cnt,
        h.data_type.spec_value(),
        h.time_type.spec_value(),
    ] + h.reserved@ + spec_le32_bytes(h.crc32) + spec_le64_bytes(h.timestamp)
}

/// What a run of exactly 36 bytes decodes to: the header, or the first
/// validity error, whose offset names the offending field.
pub open spec fn spec_parse_ethernet_header(b: Seq<u8>) -> Result<EthernetPacketHeader, Error> {
    match PointDataType::spec_from_value(b[10]) {
        None => Err(Error::InvalidField { offset: 10, found: b[10] as u64 }),
        Some(data_type) => match TimestampType::spec_from_value(b[11]) {
            None => Err(Error::InvalidField { offset: 11, found: b[11] as u64 }),
            Some(time_type) => Ok(
                EthernetPacketHeader {
                    version: b[0],
                    length: spec_le16(b, 1) as u16,
                    time_interval: spec_le16(b, 3) as u16,
                    dot_num: spec_le16(b, 5) as u16,
                    udp_cnt: spec_le16(b, 7) as u16,
                    frame_cnt: b[9],
                    data_type,
                    time_type,
                    reserved: [
                        b[12],
                        b[13],
                        b[14],
                        b[15],
                        b[16],
                        b[17],
                        b[18],
                        b[19],
                        b[20],
                        b[21],
                        b[22],
                        b[23],
                    ],
                    crc32: spec_le32(b, 24) as u32,
                    timestamp: spec_le64(b, 28) as u64,
                },
            ),
        },
    }
}

impl DstHeader for EthernetPacketHeader {
    open spec fn spec_size() -> usize {
        ETHERNET_PACKET_HEADER_SIZE
    }

    open spec fn spec_parse(b: Seq<u8>) -> Result<Self, Error> {
        spec_parse_ethernet_header(b)
    }

    /// The typed length strategy: `dot_num` counts payload elements, whose
    /// byte size the tag determines.
    open spec fn spec_payload_size(self) -> Result<usize, Error> {
        Ok(TypedLen::spec_payload_bytes(self.dot_num, self.data_type.spec_elem_size()))
    }

    fn size() -> (r: usize) {
        ETHERNET_PACKET_HEADER_SIZE
    }

    fn parse(b: &[u8]) -> (r: Result<Self, Error>) {
        let data_type = match PointDataType::from_value(b[10]) {
            None => {
                return Err(Error::invalid_field(10, b[10] as u64));
            },
            Some(d) => d,
        };
        let time_type = match TimestampType::from_value(b[11]) {
            None => {
                return Err(Error::invalid_field(11, b[11] as u64));
            },
            Some(t) => t,
        };
        Ok(
            EthernetPacketHeader {
                version: b[0],
                length: read_le16(b, 1),
                time_interval: read_le16(b, 3),
                dot_num: read_le16(b, 5),
                udp_cnt: read_le16(b, 7),
                frame_cnt: b[9],
                data_type,
                time_type,
                reserved: [
                    b[12],
                    b[13],
                    b[14],
                    b[15],
                    b[16],
                    b[17],
                    b[18],
                    b[19],
                    b[20],
                    b[21],
                    b[22],
                    b[23],
                ],
                crc32: read_le32(b, 24),
                timestamp: read_le64(b, 28),
            },
        )
    }

    fn payload_size(&self) -> (r: Result<usize, Error>) {
        let e = self.data_type.elem_size();
        proof {
            assert(self.dot_num * e <= 65535 * 24) by (nonlinear_arith)
                requires
                    self.dot_num <= 65535 && e <= 24,
            ;
        }
        Ok(TypedLen::payload_bytes(self.dot_num, e))
    }
}

impl EthernetPacketHeader {
    /// Serialises the header to its 36 on-wire bytes.
    #[verifier::rlimit(30)]
    pub fn to_bytes(&self) -> (r: Vec<u8>)
        ensures
            r@ == spec_encode_ethernet_header(*self),
            r@.len() == ETHERNET_PACKET_HEADER_SIZE,
    {
        let mut out: Vec<u8> = Vec::new();
        out.push(self.version);
        push_le16(&mut out, self.length);
        push_le16(&mut out, self.time_interval);
        push_le16(&mut out, self.dot_num);
        push_le16(&mut out, self.udp_cnt);
        out.push(self.frame_cnt);
        out.push(self.data_type.value());
        out.push(self.time_type.value());
        let ghost head = seq![self.version] + spec_le16_bytes(self.length) + spec_le16_bytes(
            self.time_interval,
        ) + spec_le16_bytes(self.dot_num) + spec_le16_bytes(self.udp_cnt) + seq![
            self.frame_cnt,
            self.data_type.spec_value(),
            self.time_type.spec_value(),
        ];
        proof {
            assert(out@ =~= head);
        }
        let mut i: usize = 0;
        while i < 12
            invariant
                i <= 12,
                out@ == head + self.reserved@.take(i as int),
            decreases 12 - i,
        {
            out.push(self.reserved[i]);
            proof {
                assert(self.reserved@.take(i + 1) =~= self.reserved@.take(i as int) + seq![
                    self.reserved@[i as int],
                ]);
                assert(out@ =~= head + self.reserved@.take(i + 1));
            }
            i = i + 1;
        }
        proof {
            assert(self.reserved@.take(12) =~= self.reserved@);
        }
        push_le32(&mut out, self.crc32);
        push_le64(&mut out, self.timestamp);
        proof {
            assert(out@ =~= spec_encode_ethernet_header(*self));
        }
        out
    }

    /// The intra-frame sampling time in nanoseconds: the `time_interval`
    /// field counts 0.1 microsecond units, each of 100 nanoseconds.
    pub fn time_interval_nanos(&self) -> (r: u64)
        ensures
            r == 100 * self.time_interval,
    {
        (self.time_interval as u64) * 100
    }

    /// The half-open nanosecond time range `[start, end)` of the frame's
    /// samples: it starts at the header timestamp and its width is the
    /// intra-frame sampling time.  `None` when the end would exceed the
    /// 64-bit nanosecond clock.
    pub fn timestamp_range_nanos(&self) -> (r: Option<(u64, u64)>)
        ensures
            r matches Some(p) ==> p.0 == self.timestamp && p.1 == self.timestamp + 100
                * self.time_interval,
            r is Some <==> self.timestamp + 100 * self.time_interval <= u64::MAX,
    {
        let width = (self.time_interval as u64) * 100;
        match self.timestamp.checked_add(width) {
            Some(end) => Some((self.timestamp, end)),
            None => None,
        }
    }
}

/// Decoding the bytes a header encodes to gives back the header.
pub proof fn lemma_ethernet_header_round_trip(h: EthernetPacketHeader)
    ensures
        spec_parse_ethernet_header(spec_encode_ethernet_header(h)) == Ok::<_, Error>(h),
{
    let b = spec_encode_ethernet_header(h);
    crate::bytes::lemma_le16_round_trip(h.length);
    crate::bytes::lemma_le16_round_trip(h.time_interval);
    crate::bytes::lemma_le16_round_trip(h.dot_num);
    crate::bytes::lemma_le16_round_trip(h.udp_cnt);
    crate::bytes::lemma_le32_round_trip(h.crc32);
    crate::bytes::lemma_le64_round_trip(h.timestamp);
    assert(spec_le16(b, 1) == h.length);
    assert(spec_le16(b, 3) == h.time_interval);
    assert(spec_le16(b, 5) == h.dot_num);
    assert(spec_le16(b, 7) == h.udp_cnt);
    assert(spec_le32(b, 24) == h.crc32);
    assert(spec_le64(b, 28) == h.timestamp);
    assert(PointDataType::spec_from_value(h.data_type.spec_value()) == Some(h.data_type));
    assert(TimestampType::spec_from_value(h.time_type.spec_value()) == Some(h.time_type));
    let parsed = spec_parse_ethernet_header(b);
    assert(parsed is Ok);
    let p = parsed->Ok_0;
    assert(p.reserved =~= h.reserved);
}

/// One inertial sample: three gyroscope and three accelerometer axes.
///
/// Each axis is a 32-bit IEEE-754 word on the wire; the fields hold the raw
/// little-endian bit patterns, so the record stays a flat binary value.
/// Callers that want physical readings reinterpret the bits as 32-bit
/// floating point: radians per second for the gyroscope axes, standard
/// gravity for the accelerometer axes.
#[derive(Debug, Clone, Copy, PartialEq, Eq, Structural)]
pub struct ImuData {
    /// Gyroscope x axis, raw bits.
    pub gyro_x: u32,
    /// Gyroscope y axis, raw bits.
    pub gyro_y: u32,
    /// Gyroscope z axis, raw bits.
    pub gyro_z: u32,
    /// Accelerometer x axis, raw bits.
    pub acc_x: u32,
    /// Accelerometer y axis, raw bits.
    pub acc_y: u32,
    /// Accelerometer z axis, raw bits.
    pub acc_z: u32,
}

/// A high-precision Cartesian point.
#[derive(Debug, Clone, Copy, PartialEq, Eq, Structural)]
pub struct CartesianHighPoint {
    /// X axis, millimetres.
    pub x: i32,
    /// Y axis, millimetres.
    pub y: i32,
    /// Z axis, millimetres.
    pub z: i32,
    /// Reflectivity.
    pub reflectivity: u8,
    /// Per-point tag bits.
    pub tag: u8,
}

/// A low-precision Cartesian point.
#[derive(Debug, Clone, Copy, PartialEq, Eq, Structural)]
pub struct CartesianLowPoint {
    /// X axis, centimetres.
    pub x: i16,
    /// Y axis, centimetres.
    pub y: i16,
    /// Z axis, centimetres.
    pub z: i16,
    /// Reflectivity.
    pub reflectivity: u8,
    /// Per-point tag bits.
    pub tag: u8,
}

/// A spherical point.
#[derive(Debug, Clone, Copy, PartialEq, Eq, Structural)]
pub struct SphericalPoint {
    /// Depth, millimetres.
    pub depth: u32,
    /// Zenith angle in [0, 18000], 0.01 degree units.
    pub theta: u16,
    /// Azimuth in [0, 36000], 0.01 degree units.
    pub phi: u16,
    /// Reflectivity.
    pub reflectivity: u8,
    /// Per-point tag bits.
    pub tag: u8,
}

/// The inertial sample the 24 bytes at `off` decode to.
pub open spec fn spec_imu_at(b: Seq<u8>, off: int) -> ImuData {
    ImuData {
        gyro_x: spec_le32(b, off) as u32,
        gyro_y: spec_le32(b, off + 4) as u32,
        gyro_z: spec_le32(b, off + 8) as u32,
        acc_x: spec_le32(b, off + 12) as u32,
        acc_y: spec_le32(b, off + 16) as u32,
        acc_z: spec_le32(b, off + 20) as u32,
    }
}

/// The high-precision point the 14 bytes at `off` decode to.
pub open spec fn spec_cartesian_high_at(b: Seq<u8>, off: int) -> CartesianHighPoint {
    CartesianHighPoint {
        x: crate::bytes::spec_le_i32(b, off),
        y: crate::bytes::spec_le_i32(b, off + 4),
        z: crate::bytes::spec_le_i32(b, off + 8),
        reflectivity: b[off + 12],
        tag: b[off + 13],
    }
}

/// The low-precision point the 8 bytes at `off` decode to.
pub open spec fn spec_cartesian_low_at(b: Seq<u8>, off: int) -> CartesianLowPoint {
    CartesianLowPoint {
        x: crate::bytes::spec_le_i16(b, off),
        y: crate::bytes::spec_le_i16(b, off + 2),
        z: crate::bytes::spec_le_i16(b, off + 4),
        reflectivity: b[off + 6],
        tag: b[off + 7],
    }
}

/// The spherical point the 10 bytes at `off` decode to.
pub open spec fn spec_spherical_at(b: Seq<u8>, off: int) -> SphericalPoint {
    SphericalPoint {
        depth: spec_le32(b, off) as u32,
        theta: spec_le16(b, off + 4) as u16,
        phi: spec_le16(b, off + 6) as u16,
        reflectivity: b[off + 8],
        tag: b[off + 9],
    }
}

impl ImuData {
    /// Decodes the 24 bytes at `off`.
    pub fn parse_at(b: &[u8], off: usize) -> (r: ImuData)
        requires
            off + IMU_DATA_SIZE <= b@.len(),
        ensures
            r == spec_imu_at(b@, off as int),
    {
        let n = b.len();
        proof {
            assert(off + IMU_DATA_SIZE <= n);
        }
        ImuData {
            gyro_x: read_le32(b, off),
            gyro_y: read_le32(b, off + 4),
            gyro_z: read_le32(b, off + 8),
            acc_x: read_le32(b, off + 12),
            acc_y: read_le32(b, off + 16),
            acc_z: read_le32(b, off + 20),
        }
    }

    /// Serialises the sample to its 24 on-wire bytes.
    #[verifier::rlimit(60)]
    pub fn to_bytes(&self) -> (r: Vec<u8>)
        ensures
            r@.len() == IMU_DATA_SIZE,
            spec_imu_at(r@, 0) == *self,
    {
        let mut out: Vec<u8> = Vec::new();
        push_le32(&mut out, self.gyro_x);
        push_le32(&mut out, self.gyro_y);
        push_le32(&mut out, self.gyro_z);
        push_le32(&mut out, self.acc_x);
        push_le32(&mut out, self.acc_y);
        push_le32(&mut out, self.acc_z);
        proof {
            crate::bytes::lemma_le32_round_trip(self.gyro_x);
            crate::bytes::lemma_le32_round_trip(self.gyro_y);
            crate::bytes::lemma_le32_round_trip(self.gyro_z);
            crate::bytes::lemma_le32_round_trip(self.acc_x);
            crate::bytes::lemma_le32_round_trip(self.acc_y);
            crate::bytes::lemma_le32_round_trip(self.acc_z);
        }
        out
    }
}

impl CartesianHighPoint {
    /// Decodes the 14 bytes at `off`.
    pub fn parse_at(b: &[u8], off: usize) -> (r: CartesianHighPoint)
        requires
            off + CARTESIAN_HIGH_POINT_SIZE <= b@.len(),
        ensures
            r == spec_cartesian_high_at(b@, off as int),
    {
        let n = b.len();
        proof {
            assert(off + CARTESIAN_HIGH_POINT_SIZE <= n);
        }
        CartesianHighPoint {
            x: crate::bytes::read_le_i32(b, off),
            y: crate::bytes::read_le_i32(b, off + 4),
            z: crate::bytes::read_le_i32(b, off + 8),
            reflectivity: b[off + 12],
            tag: b[off + 13],
        }
    }

    /// Serialises the point to its 14 on-wire bytes.
    pub fn to_bytes(&self) -> (r: Vec<u8>)
        ensures
            r@.len() == CARTESIAN_HIGH_POINT_SIZE,
            spec_cartesian_high_at(r@, 0) == *self,
    {
        let mut out: Vec<u8> = Vec::new();
        crate::bytes::push_le_i32(&mut out, self.x);
        crate::bytes::push_le_i32(&mut out, self.y);
        crate::bytes::push_le_i32(&mut out, self.z);
        out.push(self.reflectivity);
        out.push(self.tag);
        proof {
            crate::bytes::lemma_le_i32_round_trip(self.x);
            crate::bytes::lemma_le_i32_round_trip(self.y);
            crate::bytes::lemma_le_i32_round_trip(self.z);
        }
        out
    }
}

impl CartesianLowPoint {
    /// Decodes the 8 bytes at `off`.
    pub fn parse_at(b: &[u8], off: usize) -> (r: CartesianLowPoint)
        requires
            off + CARTESIAN_LOW_POINT_SIZE <= b@.len(),
        ensures
            r == spec_cartesian_low_at(b@, off as int),
    {
        let n = b.len();
        proof {
            assert(off + CARTESIAN_LOW_POINT_SIZE <= n);
        }
        CartesianLowPoint {
            x: crate::bytes::read_le_i16(b, off),
            y: crate::bytes::read_le_i16(b, off + 2),
            z: crate::bytes::read_le_i16(b, off + 4),
            reflectivity: b[off + 6],
            tag: b[off + 7],
        }
    }

    /// Serialises the point to its 8 on-wire bytes.
    pub fn to_bytes(&self) -> (r: Vec<u8>)
        ensures
            r@.len() == CARTESIAN_LOW_POINT_SIZE,
            spec_cartesian_low_at(r@, 0) == *self,
    {
        let mut out: Vec<u8> = Vec::new();
        crate::bytes::push_le_i16(&mut out, self.x);
        crate::bytes::push_le_i16(&mut out, self.y);
        crate::bytes::push_le_i16(&mut out, self.z);
        out.push(self.reflectivity);
        out.push(self.tag);
        proof {
            crate::bytes::lemma_le_i16_round_trip(self.x);
            crate::bytes::lemma_le_i16_round_trip(self.y);
            crate::bytes::lemma_le_i16_round_trip(self.z);
        }
        out
    }
}

impl SphericalPoint {
    /// Decodes the 10 bytes at `off`.
    pub fn parse_at(b: &[u8], off: usize) -> (r: SphericalPoint)
        requires
            off + SPHERICAL_POINT_SIZE <= b@.len(),
        ensures
            r == spec_spherical_at(b@, off as int),
    {
        let n = b.len();
        proof {
            assert(off + SPHERICAL_POINT_SIZE <= n);
        }
        SphericalPoint {
            depth: read_le32(b, off),
            theta: read_le16(b, off + 4),
            phi: read_le16(b, off + 6),
            reflectivity: b[off + 8],
            tag: b[off + 9],
        }
    }

    /// Serialises the point to its 10 on-wire bytes.
    pub fn to_bytes(&self) -> (r: Vec<u8>)
        ensures
            r@.len() == SPHERICAL_POINT_SIZE,
            spec_spherical_at(r@, 0) == *self,
    {
        let mut out: Vec<u8> = Vec::new();
        push_le32(&mut out, self.depth);
        push_le16(&mut out, self.theta);
        push_le16(&mut out, self.phi);
        out.push(self.reflectivity);
        out.push(self.tag);
        proof {
            crate::bytes::lemma_le32_round_trip(self.depth);
            crate::bytes::lemma_le16_round_trip(self.theta);
            crate::bytes::lemma_le16_round_trip(self.phi);
        }
        out
    }
}

/// The tagged union of point payloads: exactly one variant is live,
/// selected by the header's `data_type` tag.  Inertial frames are not a
/// point payload; their tag is rejected here.
#[derive(Debug, Clone, PartialEq, Eq)]
pub enum CoordinateData {
    /// High-precision Cartesian points.
    CartesianHigh(Vec<CartesianHighPoint>),
    /// Low-precision Cartesian points.
    CartesianLow(Vec<CartesianLowPoint>),
    /// Spherical points.
    Spherical(Vec<SphericalPoint>),
}

/// Whether `d` is the variant the tag `data_type` selects and holds exactly
/// the `count` elements decoded from the start of `b`, element `k` from the
/// bytes at `k` times the element size.
pub open spec fn coordinate_data_matches(
    d: CoordinateData,
    b: Seq<u8>,
    data_type: PointDataType,
    count: int,
) -> bool {
    match d {
        CoordinateData::CartesianHigh(v) => {
            &&& data_type is CartesianCoordinateHighData
            &&& v@.len() == count
            &&& forall|k: int|
                0 <= k < count ==> v@[k] == spec_cartesian_high_at(
                    b,
                    CARTESIAN_HIGH_POINT_SIZE * k,
                )
        },
        CoordinateData::CartesianLow(v) => {
            &&& data_type is CartesianCoordinateLowData
            &&& v@.len() == count
            &&& forall|k: int|
                0 <= k < count ==> v@[k] == spec_cartesian_low_at(b, CARTESIAN_LOW_POINT_SIZE * k)
        },
        CoordinateData::Spherical(v) => {
            &&& data_type is SphericalCoordinateData
            &&& v@.len() == count
            &&& forall|k: int|
                0 <= k < count ==> v@[k] == spec_spherical_at(b, SPHERICAL_POINT_SIZE * k)
        },
    }
}

/// Decodes `count` high-precision points from the start of `b`.
fn parse_cartesian_high_points(b: &[u8], count: usize) -> (r: Vec<CartesianHighPoint>)
    requires
        count * CARTESIAN_HIGH_POINT_SIZE <= b@.len(),
    ensures
        r@.len() == count,
        forall|k: int|
            0 <= k < count ==> r@[k] == spec_cartesian_high_at(b@, CARTESIAN_HIGH_POINT_SIZE * k),
{
    let n = b.len();
    let mut out: Vec<CartesianHighPoint> = Vec::new();
    let mut i: usize = 0;
    while i < count
        invariant
            i <= count,
            n == b@.len(),
            count * CARTESIAN_HIGH_POINT_SIZE <= n,
            out@.len() == i,
            forall|k: int|
                0 <= k < i ==> out@[k] == spec_cartesian_high_at(b@, CARTESIAN_HIGH_POINT_SIZE * k),
        decreases count - i,
    {
        proof {
            assert(i * CARTESIAN_HIGH_POINT_SIZE + CARTESIAN_HIGH_POINT_SIZE <= count
                * CARTESIAN_HIGH_POINT_SIZE) by (nonlinear_arith)
                requires
                    i < count,
            ;
        }
        let off = i * CARTESIAN_HIGH_POINT_SIZE;
        out.push(CartesianHighPoint::parse_at(b, off));
        i = i + 1;
    }
    out
}

/// Decodes `count` low-precision points from the start of `b`.
fn parse_cartesian_low_points(b: &[u8], count: usize) -> (r: Vec<CartesianLowPoint>)
    requires
        count * CARTESIAN_LOW_POINT_SIZE <= b@.len(),
    ensures
        r@.len() == count,
        forall|k: int|
            0 <= k < count ==> r@[k] == spec_cartesian_low_at(b@, CARTESIAN_LOW_POINT_SIZE * k),
{
    let n = b.len();
    let mut out: Vec<CartesianLowPoint> = Vec::new();
    let mut i: usize = 0;
    while i < count
        invariant
            i <= count,
            n == b@.len(),
            count * CARTESIAN_LOW_POINT_SIZE <= n,
            out@.len() == i,
            forall|k: int|
                0 <= k < i ==> out@[k] == spec_cartesian_low_at(b@, CARTESIAN_LOW_POINT_SIZE * k),
        decreases count - i,
    {
        proof {
            assert(i * CARTESIAN_LOW_POINT_SIZE + CARTESIAN_LOW_POINT_SIZE <= count
                * CARTESIAN_LOW_POINT_SIZE) by (nonlinear_arith)
                requires
                    i < count,
            ;
        }
        let off = i * CARTESIAN_LOW_POINT_SIZE;
        out.push(CartesianLowPoint::parse_at(b, off));
        i = i + 1;
    }
    out
}

/// Decodes `count` spherical points from the start of `b`.
fn parse_spherical_points(b: &[u8], count: usize) -> (r: Vec<SphericalPoint>)
    requires
        count * SPHERICAL_POINT_SIZE <= b@.len(),
    ensures
        r@.len() == count,
        forall|k: int| 0 <= k < count ==> r@[k] == spec_spherical_at(b@, SPHERICAL_POINT_SIZE * k),
{
    let n = b.len();
    let mut out: Vec<SphericalPoint> = Vec::new();
    let mut i: usize = 0;
    while i < count
        invariant
            i <= count,
            n == b@.len(),
            count * SPHERICAL_POINT_SIZE <= n,
            out@.len() == i,
            forall|k: int|
                0 <= k < i ==> out@[k] == spec_spherical_at(b@, SPHERICAL_POINT_SIZE * k),
        decreases count - i,
    {
        proof {
            assert(i * SPHERICAL_POINT_SIZE + SPHERICAL_POINT_SIZE <= count * SPHERICAL_POINT_SIZE)
                by (nonlinear_arith)
                requires
                    i < count,
            ;
        }
        let off = i * SPHERICAL_POINT_SIZE;
        out.push(SphericalPoint::parse_at(b, off));
        i = i + 1;
    }
    out
}

impl CoordinateData {
    /// Decodes `count` elements of the kind `data_type` selects from the
    /// start of `source`.
    ///
    /// The inertial tag is not a point payload and fails with an
    /// unknown-type error naming the three accepted tags.  A buffer holding
    /// fewer than `count` times the element size bytes fails with a size
    /// error reporting expected and found; any bytes beyond that prefix are
    /// ignored.
    pub fn try_from_bytes_with_elems(source: &[u8], data_type: PointDataType, count: usize) -> (r:
        Result<CoordinateData, Error>)
        requires
            count * data_type.spec_elem_size() <= usize::MAX,
        ensures
            data_type is ImuData ==> r == Err::<CoordinateData, _>(
                Error::UnknownType { expect: crate::error::ExpectedTags::StreamingPoint, found: 0 },
            ),
            !(data_type is ImuData) && source@.len() < count * data_type.spec_elem_size() ==> r
                == Err::<CoordinateData, _>(
                Error::InvalidSize {
                    expect: (count * data_type.spec_elem_size()) as usize,
                    found: source@.len() as usize,
                },
            ),
            !(data_type is ImuData) && source@.len() >= count * data_type.spec_elem_size() ==> (
            r matches Ok(d) && coordinate_data_matches(d, source@, data_type, count as int)),
    {
        match data_type {
            PointDataType::ImuData => Err(
                Error::unknown_type(crate::error::ExpectedTags::StreamingPoint, 0),
            ),
            PointDataType::CartesianCoordinateHighData => {
                let need = count * CARTESIAN_HIGH_POINT_SIZE;
                if source.len() < need {
                    Err(Error::invalid_size(need, source.len()))
                } else {
                    Ok(CoordinateData::CartesianHigh(parse_cartesian_high_points(source, count)))
                }
            },
            PointDataType::CartesianCoordinateLowData => {
                let need = count * CARTESIAN_LOW_POINT_SIZE;
                if source.len() < need {
                    Err(Error::invalid_size(need, source.len()))
                } else {
                    Ok(CoordinateData::CartesianLow(parse_cartesian_low_points(source, count)))
                }
            },
            PointDataType::SphericalCoordinateData => {
                let need = count * SPHERICAL_POINT_SIZE;
                if source.len() < need {
                    Err(Error::invalid_size(need, source.len()))
                } else {
                    Ok(CoordinateData::Spherical(parse_spherical_points(source, count)))
                }
            },
        }
    }
}

/// A parsed point-cloud frame: the streaming header and the tag-selected
/// point payload.
#[derive(Debug, Clone, PartialEq, Eq)]
pub struct PointPacketRef {
    /// The frame's validated header.
    pub header: EthernetPacketHeader,
    /// The decoded point payload.
    pub data: CoordinateData,
}

impl PointPacketRef {
    /// Parses a whole received buffer as a point-cloud frame: header split
    /// and validation, the point dispatch on the tag, and the decode of
    /// exactly `dot_num` elements; trailing bytes beyond them are ignored.
    pub fn try_from_bytes(source: &[u8]) -> (r: Result<PointPacketRef, Error>)
        ensures
            match crate::dst::spec_split_header::<EthernetPacketHeader>(source@) {
                Err(e) => r == Err::<PointPacketRef, _>(e),
                Ok(p) => {
                    let h = p.0;
                    let tail = p.1;
                    let need = h.dot_num * h.data_type.spec_elem_size();
                    &&& h.data_type is ImuData ==> r == Err::<PointPacketRef, _>(
                        Error::UnknownType {
                            expect: crate::error::ExpectedTags::StreamingPoint,
                            found: 0,
                        },
                    )
                    &&& !(h.data_type is ImuData) && tail.len() < need ==> r == Err::<
                        PointPacketRef,
                        _,
                    >(Error::InvalidSize { expect: need as usize, found: tail.len() as usize })
                    &&& !(h.data_type is ImuData) && tail.len() >= need ==> (r matches Ok(f)
                        && f.header == h && coordinate_data_matches(
                        f.data,
                        tail,
                        h.data_type,
                        h.dot_num as int,
                    ))
                },
            },
    {
        let (header, tail) = match crate::dst::split_header::<EthernetPacketHeader>(source) {
            Err(e) => {
                return Err(e);
            },
            Ok(p) => p,
        };
        proof {
            assert(header.dot_num * header.data_type.spec_elem_size() <= 65535 * 24)
                by (nonlinear_arith)
                requires
                    header.dot_num <= 65535 && header.data_type.spec_elem_size() <= 24,
            ;
        }
        let data = match CoordinateData::try_from_bytes_with_elems(
            tail,
            header.data_type,
            header.dot_num as usize,
        ) {
            Err(e) => {
                return Err(e);
            },
            Ok(d) => d,
        };
        Ok(PointPacketRef { header, data })
    }
}

/// A parsed inertial frame: the streaming header and one inertial sample.
#[derive(Debug, Clone, Copy, PartialEq, Eq)]
pub struct ImuPacketRef {
    /// The frame's validated header.
    pub header: EthernetPacketHeader,
    /// The decoded inertial sample.
    pub data: ImuData,
}

/// What parsing a whole buffer as an inertial frame yields: header split
/// and validation, the inertial dispatch on the tag, and the decode of the
/// single 24-byte sample that must make up the entire remainder.
pub open spec fn spec_parse_imu_packet(bytes: Seq<u8>) -> Result<ImuPacketRef, Error> {
    match crate::dst::spec_split_header::<EthernetPacketHeader>(bytes) {
        Err(e) => Err(e),
        Ok((h, tail)) => if !(h.data_type is ImuData) {
            Err(
                Error::UnknownType {
                    expect: crate::error::ExpectedTags::StreamingImu,
                    found: h.data_type.spec_value() as u64,
                },
            )
        } else if tail.len() != IMU_DATA_SIZE {
            Err(Error::InvalidSize { expect: IMU_DATA_SIZE, found: tail.len() as usize })
        } else {
            Ok(ImuPacketRef { header: h, data: spec_imu_at(tail, 0) })
        },
    }
}

impl ImuPacketRef {
    /// Parses a whole received buffer as an inertial frame.  A tag other
    /// than the inertial one fails with an unknown-type error; a remainder
    /// that is not exactly one 24-byte sample fails with a size error.
    pub fn try_from_bytes(source: &[u8]) -> (r: Result<ImuPacketRef, Error>)
        ensures
            r == spec_parse_imu_packet(source@),
    {
        let (header, tail) = match crate::dst::split_header::<EthernetPacketHeader>(source) {
            Err(e) => {
                return Err(e);
            },
            Ok(p) => p,
        };
        match header.data_type {
            PointDataType::ImuData => {},
            _ => {
                return Err(Error::unknown_type(
                    crate::error::ExpectedTags::StreamingImu,
                    header.data_type.value() as u64,
                ));
            },
        }
        if tail.len() != IMU_DATA_SIZE {
            return Err(Error::invalid_size(IMU_DATA_SIZE, tail.len()));
        }
        let data = ImuData::parse_at(tail, 0);
        Ok(ImuPacketRef { header, data })
    }
}

impl PointDataType {
    /// A human-readable description of the tag.
    pub open spec fn spec_description(self) -> Seq<char> {
        match self {
            PointDataType::ImuData => "ImuData"@,
            PointDataType::CartesianCoordinateHighData => "CartesianCoordinateHighData"@,
            PointDataType::CartesianCoordinateLowData => "CartesianCoordinateLowData"@,
            PointDataType::SphericalCoordinateData => "SphericalCoordinateData"@,
        }
    }

    /// A human-readable description of the tag.
    pub fn description(&self) -> (r: &'static str)
        ensures
            r@ == self.spec_description(),
    {
        match self {
            PointDataType::ImuData => "ImuData",
            PointDataType::CartesianCoordinateHighData => "CartesianCoordinateHighData",
            PointDataType::CartesianCoordinateLowData => "CartesianCoordinateLowData",
            PointDataType::SphericalCoordinateData => "SphericalCoordinateData",
        }
    }
}

/// Round-trip for inertial frames: a frame whose header carries the
/// inertial tag, followed by exactly one 24-byte sample, parses back to
/// that header and the sample those bytes decode to.
#[verifier::rlimit(60)]
pub proof fn lemma_imu_frame_round_trip(h: EthernetPacketHeader, payload: Seq<u8>)
    requires
        h.data_type is ImuData,
        payload.len() == IMU_DATA_SIZE,
    ensures
        spec_parse_imu_packet(spec_encode_ethernet_header(h) + payload) == Ok::<_, Error>(
            ImuPacketRef { header: h, data: spec_imu_at(payload, 0) },
        ),
{
    let b = spec_encode_ethernet_header(h) + payload;
    assert(b.take(ETHERNET_PACKET_HEADER_SIZE as int) =~= spec_encode_ethernet_header(h));
    lemma_ethernet_header_round_trip(h);
    assert(b.skip(ETHERNET_PACKET_HEADER_SIZE as int) =~= payload);
}

/// Checks a streaming frame's check code against its own bytes: the
/// CRC-32 covers the timestamp field and the payload, which sit
/// contiguously from byte 28 of the frame to the end of the payload.
///
/// Inbound parsing does not enforce the check code — the frame is
/// returned with it as received — so rejecting a mismatch is this
/// explicit, separate step.  Returns the parse error when the frame does
/// not parse at all.
pub fn verify_ethernet_frame_crc(frame: &[u8]) -> (r: Result<bool, Error>)
    ensures
        match crate::dst::spec_parse_frame::<EthernetPacketHeader>(frame@) {
            Ok(p) => r == Ok::<_, Error>(
                p.0.crc32 == crate::crc::crc32_of(
                    frame@.subrange(28, ETHERNET_PACKET_HEADER_SIZE + p.1.len()),
                ),
            ),
            Err(e) => r == Err::<bool, _>(e),
        },
{
    let f = match crate::dst::DstRef::<EthernetPacketHeader>::try_ref_from_bytes(frame) {
        Err(e) => {
            return Err(e);
        },
        Ok(f) => f,
    };
    let n = frame.len();
    proof {
        assert(ETHERNET_PACKET_HEADER_SIZE + f.data@.len() <= n);
    }
    let end = ETHERNET_PACKET_HEADER_SIZE + f.data.len();
    let covered = vstd::slice::slice_subrange(frame, 28, end);
    proof {
        assert(covered@ =~= frame@.subrange(28, ETHERNET_PACKET_HEADER_SIZE + f.data@.len()));
    }
    let c32 = crate::crc::crc32_checksum(covered);
    Ok(c32 == f.header.crc32)
}

} // verus!
