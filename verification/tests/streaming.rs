use livox2::dst::DstRef;
use livox2::error::{Error, ExpectedTags};
use livox2::ethernet::{
    CartesianHighPoint, CartesianLowPoint, CoordinateData, EthernetPacketHeader, ImuData,
    ImuPacketRef, PointDataType, PointPacketRef, SphericalPoint, TimestampType,
};

fn header(data_type: PointDataType, dot_num: u16) -> EthernetPacketHeader {
    EthernetPacketHeader {
        version: 0,
        length: 0,
        time_interval: 1000,
        dot_num,
        udp_cnt: 7,
        frame_cnt: 3,
        data_type,
        time_type: TimestampType::NoSync,
        reserved: [0u8; 12],
        crc32: 0,
        timestamp: 123_456_789,
    }
}

fn frame(h: &EthernetPacketHeader, payload: &[u8]) -> Vec<u8> {
    let mut bytes = h.to_bytes();
    bytes.extend_from_slice(payload);
    bytes
}

#[test]
fn short_streaming_buffer_is_size_error() {
    for len in 0..36 {
        let buf = vec![0u8; len];
        let r = PointPacketRef::try_from_bytes(&buf);
        assert_eq!(r.unwrap_err(), Error::InvalidSize { expect: 36, found: len });
        let r = ImuPacketRef::try_from_bytes(&buf);
        assert_eq!(r.unwrap_err(), Error::InvalidSize { expect: 36, found: len });
    }
}

#[test]
fn ethernet_header_round_trip() {
    let h = header(PointDataType::SphericalCoordinateData, 0);
    let bytes = h.to_bytes();
    let parsed = DstRef::<EthernetPacketHeader>::try_ref_from_bytes(&bytes).unwrap();
    assert_eq!(parsed.header, h);
    assert_eq!(parsed.data.len(), 0);
}

#[test]
fn typed_length_requires_exactly_element_bytes() {
    // dot_num = N with a 14-byte element type requires exactly 14 * N
    // trailing bytes: fewer is a size error, more is ignored.
    let n = 3u16;
    let h = header(PointDataType::CartesianCoordinateHighData, n);
    let point = CartesianHighPoint { x: -1000, y: 2000, z: -3000, reflectivity: 40, tag: 5 };
    let mut payload = Vec::new();
    for _ in 0..n {
        payload.extend_from_slice(&point.to_bytes());
    }
    assert_eq!(payload.len(), 14 * n as usize);

    // Exact byte count parses.
    let parsed = PointPacketRef::try_from_bytes(&frame(&h, &payload)).unwrap();
    match &parsed.data {
        CoordinateData::CartesianHigh(v) => {
            assert_eq!(v.len(), n as usize);
            for p in v {
                assert_eq!(*p, point);
            }
        },
        other => panic!("wrong variant: {:?}", other),
    }

    // One byte short is a size error reporting expected and found.
    let bytes = frame(&h, &payload[..payload.len() - 1]);
    let r = PointPacketRef::try_from_bytes(&bytes);
    assert_eq!(r.unwrap_err(), Error::InvalidSize { expect: 42, found: 41 });

    // Extra bytes beyond the computed prefix are ignored.
    let mut extra = payload.clone();
    extra.extend_from_slice(&[0xFF; 9]);
    let parsed_extra = PointPacketRef::try_from_bytes(&frame(&h, &extra)).unwrap();
    assert_eq!(parsed_extra, parsed);
}

#[test]
fn cartesian_low_points_parse() {
    let h = header(PointDataType::CartesianCoordinateLowData, 2);
    let a = CartesianLowPoint { x: -7, y: 8, z: -9, reflectivity: 1, tag: 2 };
    let b = CartesianLowPoint { x: 700, y: -800, z: 900, reflectivity: 3, tag: 4 };
    let mut payload = a.to_bytes();
    payload.extend_from_slice(&b.to_bytes());
    let parsed = PointPacketRef::try_from_bytes(&frame(&h, &payload)).unwrap();
    match &parsed.data {
        CoordinateData::CartesianLow(v) => {
            assert_eq!(v.len(), 2);
            assert_eq!(v[0], a);
            assert_eq!(v[1], b);
        },
        other => panic!("wrong variant: {:?}", other),
    }
}

#[test]
fn spherical_points_parse() {
    let h = header(PointDataType::SphericalCoordinateData, 1);
    let p = SphericalPoint { depth: 12345, theta: 9000, phi: 27000, reflectivity: 77, tag: 1 };
    let parsed = PointPacketRef::try_from_bytes(&frame(&h, &p.to_bytes())).unwrap();
    match &parsed.data {
        CoordinateData::Spherical(v) => {
            assert_eq!(v.len(), 1);
            assert_eq!(v[0], p);
        },
        other => panic!("wrong variant: {:?}", other),
    }
}

#[test]
fn cartesian_high_wire_layout() {
    // One point, written out by hand: little-endian coordinates, then
    // reflectivity and tag.
    let h = header(PointDataType::CartesianCoordinateHighData, 1);
    let mut payload = Vec::new();
    payload.extend_from_slice(&[0x01, 0x00, 0x00, 0x00]); // x = 1 mm
    payload.extend_from_slice(&[0xFF, 0xFF, 0xFF, 0xFF]); // y = -1 mm
    payload.extend_from_slice(&[0x40, 0x0D, 0x03, 0x00]); // z = 200000 mm
    payload.push(0x50); // reflectivity
    payload.push(0x02); // tag
    let parsed = PointPacketRef::try_from_bytes(&frame(&h, &payload)).unwrap();
    match &parsed.data {
        CoordinateData::CartesianHigh(v) => {
            assert_eq!(
                v[0],
                CartesianHighPoint { x: 1, y: -1, z: 200000, reflectivity: 0x50, tag: 2 }
            );
        },
        other => panic!("wrong variant: {:?}", other),
    }
}

#[test]
fn imu_tag_at_point_port_is_unknown_type() {
    let h = header(PointDataType::ImuData, 1);
    let payload = [0u8; 24];
    let r = PointPacketRef::try_from_bytes(&frame(&h, &payload));
    match r.unwrap_err() {
        Error::UnknownType { expect, found } => {
            assert_eq!(expect, ExpectedTags::StreamingPoint);
            assert_eq!(expect.values(), vec![1u64, 2, 3]);
            assert_eq!(found, 0);
        },
        other => panic!("expected unknown type error, got {:?}", other),
    }
}

#[test]
fn point_tag_at_imu_port_is_unknown_type() {
    let h = header(PointDataType::CartesianCoordinateHighData, 1);
    let point = CartesianHighPoint { x: 0, y: 0, z: 0, reflectivity: 0, tag: 0 };
    let r = ImuPacketRef::try_from_bytes(&frame(&h, &point.to_bytes()));
    match r.unwrap_err() {
        Error::UnknownType { expect, found } => {
            assert_eq!(expect, ExpectedTags::StreamingImu);
            assert_eq!(expect.values(), vec![0u64]);
            assert_eq!(found, 1);
        },
        other => panic!("expected unknown type error, got {:?}", other),
    }
}

#[test]
fn imu_packet_parses_one_sample() {
    let h = header(PointDataType::ImuData, 1);
    let sample = ImuData {
        gyro_x: 1.5f32.to_bits(),
        gyro_y: (-0.25f32).to_bits(),
        gyro_z: 0.0f32.to_bits(),
        acc_x: 1.0f32.to_bits(),
        acc_y: 9.8f32.to_bits(),
        acc_z: (-1.0f32).to_bits(),
    };
    let parsed = ImuPacketRef::try_from_bytes(&frame(&h, &sample.to_bytes())).unwrap();
    assert_eq!(parsed.header, h);
    assert_eq!(parsed.data, sample);
    assert_eq!(f32::from_bits(parsed.data.gyro_x), 1.5);
    assert_eq!(f32::from_bits(parsed.data.acc_z), -1.0);
}

#[test]
fn imu_packet_requires_exact_tail() {
    let h = header(PointDataType::ImuData, 1);
    let r = ImuPacketRef::try_from_bytes(&frame(&h, &[0u8; 23]));
    assert_eq!(r.unwrap_err(), Error::InvalidSize { expect: 24, found: 23 });
    let r = ImuPacketRef::try_from_bytes(&frame(&h, &[0u8; 25]));
    assert_eq!(r.unwrap_err(), Error::InvalidSize { expect: 24, found: 25 });
}

#[test]
fn bad_data_type_byte_is_validity_error() {
    let h = header(PointDataType::ImuData, 0);
    let mut bytes = h.to_bytes();
    bytes[10] = 9;
    let r = DstRef::<EthernetPacketHeader>::try_ref_from_bytes(&bytes);
    assert_eq!(r.unwrap_err(), Error::InvalidField { offset: 10, found: 9 });
}

#[test]
fn bad_time_type_byte_is_validity_error() {
    let h = header(PointDataType::ImuData, 0);
    let mut bytes = h.to_bytes();
    bytes[11] = 5;
    let r = DstRef::<EthernetPacketHeader>::try_ref_from_bytes(&bytes);
    assert_eq!(r.unwrap_err(), Error::InvalidField { offset: 11, found: 5 });
}

#[test]
fn timestamp_range_matches_formula() {
    // timestamp = T ns, time_interval = I in 0.1 us units: the derived
    // range is [T / 1e9, T / 1e9 + I / 1e7) seconds.
    let mut h = header(PointDataType::ImuData, 1);
    h.timestamp = 2_000_000_000;
    h.time_interval = 500;
    assert_eq!(h.time_interval_nanos(), 50_000);
    let (start_ns, end_ns) = h.timestamp_range_nanos().unwrap();
    assert_eq!(start_ns, 2_000_000_000);
    assert_eq!(end_ns, 2_000_050_000);

    let start_sec = start_ns as f64 / 1e9;
    let end_sec = end_ns as f64 / 1e9;
    assert_eq!(start_sec, h.timestamp as f64 / 1e9);
    let expected_end = h.timestamp as f64 / 1e9 + h.time_interval as f64 / 1e7;
    assert!((end_sec - expected_end).abs() < 1e-12);
}

#[test]
fn timestamp_range_overflow_is_none() {
    let mut h = header(PointDataType::ImuData, 1);
    h.timestamp = u64::MAX;
    h.time_interval = 1;
    assert_eq!(h.timestamp_range_nanos(), None);
}

#[test]
fn point_data_type_values_and_sizes() {
    let cases = [
        (PointDataType::ImuData, 0u8, 24usize, "ImuData"),
        (
            PointDataType::CartesianCoordinateHighData,
            1,
            14,
            "CartesianCoordinateHighData",
        ),
        (
            PointDataType::CartesianCoordinateLowData,
            2,
            8,
            "CartesianCoordinateLowData",
        ),
        (PointDataType::SphericalCoordinateData, 3, 10, "SphericalCoordinateData"),
    ];
    for (t, v, size, name) in cases {
        assert_eq!(t.value(), v);
        assert_eq!(PointDataType::from_value(v), Some(t));
        assert_eq!(t.elem_size(), size);
        assert_eq!(t.description(), name);
    }
    assert_eq!(PointDataType::from_value(4), None);
}

#[test]
fn coordinate_data_with_elems_counts_bytes() {
    let payload = [0u8; 28];
    // 2 cartesian-low points fit exactly in 16 bytes; extras ignored.
    let r = CoordinateData::try_from_bytes_with_elems(
        &payload,
        PointDataType::CartesianCoordinateLowData,
        2,
    )
    .unwrap();
    match r {
        CoordinateData::CartesianLow(v) => assert_eq!(v.len(), 2),
        other => panic!("wrong variant: {:?}", other),
    }
    // 3 spherical points need 30 bytes; 28 are there.
    let r = CoordinateData::try_from_bytes_with_elems(
        &payload,
        PointDataType::SphericalCoordinateData,
        3,
    );
    assert_eq!(r.unwrap_err(), Error::InvalidSize { expect: 30, found: 28 });
}

#[test]
fn streaming_crc_verification() {
    // The CRC-32 covers the timestamp field and the payload: bytes 28 to
    // the end of the payload.  Store the right value and check it.
    let mut h = header(PointDataType::SphericalCoordinateData, 1);
    let p = SphericalPoint { depth: 500, theta: 100, phi: 200, reflectivity: 9, tag: 0 };
    let payload = p.to_bytes();
    let bytes = frame(&h, &payload);
    let covered: Vec<u8> = bytes[28..].to_vec();
    h.crc32 = crc::Crc::<u32>::new(&crc::CRC_32_ISO_HDLC).checksum(&covered);
    let mut bytes = frame(&h, &payload);

    assert_eq!(livox2::ethernet::verify_ethernet_frame_crc(&bytes).unwrap(), true);

    bytes[40] ^= 0xFF;
    assert_eq!(livox2::ethernet::verify_ethernet_frame_crc(&bytes).unwrap(), false);
}
