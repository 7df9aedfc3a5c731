use livox2::error::Error;
use livox2::lidar_port::{
    addr_eq, discover_from_receives, discovery_parse, discovery_step, NetAddr, SocketPortConfig,
    DETECTION_BUFFER_SIZE, IMU_BUFFER_SIZE, POINT_DATA_BUFFER_SIZE,
};
use livox2::sdk_packet::{
    build_control_frame, CommandID, CommandType, LivoxLidarDeviceType, QueryDeviceTypeAck,
    SendType,
};
use livox2::seq_counter::SeqCounter;

fn ack_frame(ret_code: u8) -> Vec<u8> {
    let ack = QueryDeviceTypeAck {
        ret_code,
        dev_type: LivoxLidarDeviceType::Mid360,
        sn: [0u8; 16],
        lidar_ip: [192, 168, 1, 101],
        cmd_port: 56000,
    };
    let mut counter = SeqCounter::new();
    build_control_frame(
        &ack.to_bytes(),
        CommandID::QueryDeviceType,
        CommandType::Ack,
        SendType::LidarSend,
        &mut counter,
    )
}

fn peer() -> NetAddr {
    NetAddr { ip: [192, 168, 1, 101], port: 56000 }
}

fn stranger() -> NetAddr {
    NetAddr { ip: [10, 0, 0, 9], port: 4242 }
}

#[test]
fn discovery_ignores_non_matching_sources() {
    // Receives from non-matching sources, then one from the peer with
    // ret_code = 0: the exchange returns that entry and ignores the rest.
    let receives: Vec<(NetAddr, Vec<u8>)> = vec![
        (stranger(), vec![1, 2, 3]),
        (stranger(), ack_frame(0)),
        (peer(), ack_frame(0)),
        (peer(), vec![9, 9, 9]),
    ];
    let r = discover_from_receives(&receives, &peer());
    let ack = r.unwrap().unwrap();
    assert_eq!(ack.ret_code, 0);
    assert_eq!(ack.dev_type, LivoxLidarDeviceType::Mid360);
    assert_eq!(ack.lidar_ip, [192, 168, 1, 101]);
    assert_eq!(ack.cmd_port, 56000);
}

#[test]
fn discovery_without_peer_datagram_keeps_waiting() {
    let receives: Vec<(NetAddr, Vec<u8>)> = vec![
        (stranger(), ack_frame(0)),
        (stranger(), ack_frame(0)),
    ];
    assert_eq!(discover_from_receives(&receives, &peer()), None);
}

#[test]
fn discovery_rejects_failing_return_code() {
    let receives: Vec<(NetAddr, Vec<u8>)> = vec![(peer(), ack_frame(3))];
    let r = discover_from_receives(&receives, &peer()).unwrap();
    assert_eq!(r.unwrap_err(), Error::InvalidAck { ret_code: 3 });
}

#[test]
fn discovery_step_decides_single_datagrams() {
    assert_eq!(discovery_step(&peer(), &stranger(), &ack_frame(0)), None);
    let decided = discovery_step(&peer(), &peer(), &ack_frame(0)).unwrap();
    assert_eq!(decided.unwrap().ret_code, 0);
}

#[test]
fn discovery_parse_propagates_parse_errors() {
    let r = discovery_parse(&[0u8; 5]);
    assert_eq!(r.unwrap_err(), Error::InvalidSize { expect: 24, found: 5 });
}

#[test]
fn addr_eq_compares_all_fields() {
    assert!(addr_eq(&peer(), &peer()));
    assert!(!addr_eq(&peer(), &stranger()));
    let mut p = peer();
    p.port = 1;
    assert!(!addr_eq(&peer(), &p));
    let mut q = peer();
    q.ip[3] = 102;
    assert!(!addr_eq(&peer(), &q));
}

#[test]
fn default_port_configs() {
    let d = SocketPortConfig::new_detection_port_config();
    assert_eq!((d.local, d.lidar), (56000, 56000));
    let p = SocketPortConfig::new_point_data_config();
    assert_eq!((p.local, p.lidar), (56301, 56300));
    let i = SocketPortConfig::new_imu_port_config();
    assert_eq!((i.local, i.lidar), (56401, 56400));
}

#[test]
fn default_buffer_sizes() {
    assert_eq!(DETECTION_BUFFER_SIZE, 48);
    assert_eq!(POINT_DATA_BUFFER_SIZE, 1380);
    assert_eq!(IMU_BUFFER_SIZE, 60);
}
