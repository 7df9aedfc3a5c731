//! Per-channel receive logic: port configuration and the discovery
//! request/reply correlation.
//!
//! A port owns one UDP socket and one reusable buffer; socket creation and
//! the receive calls themselves are outside collaborators.  What this
//! module holds is everything the channels decide: the default port
//! numbers and buffer sizes, and the discovery filter — which datagrams a
//! discovery exchange discards, and what the one it accepts must parse to.
//!
//! The discovery exchange broadcasts a request and then receives until a
//! datagram arrives from the peer's address; datagrams from any other
//! source are discarded, a deliberate filter rather than a failure.  The
//! accepted datagram is parsed as a control frame and its acknowledgement
//! entry is returned if its validity predicate holds (return code zero),
//! else a data error.  The wait is unbounded: no timeout or retry is
//! imposed here, and a caller wanting bounded waits must impose its own.

use vstd::prelude::*;

use crate::error::Error;
use crate::sdk_packet::{spec_parse_search_ack, LidarSearchAckRef, QueryDeviceTypeAck};

verus! {

broadcast use vstd::array::group_array_axioms;

/// The default UDP port of the discovery channel, on both sides.
pub const DEFAULT_DETECTION_PORT: u16 = 56000;

/// The default UDP port of the point-data channel on the LiDAR.
pub const DEFAULT_LIDAR_POINT_DATA_PORT: u16 = 56300;

/// The default UDP port of the point-data channel on the host.
pub const DEFAULT_LOCAL_POINT_DATA_PORT: u16 = 56301;

/// The default UDP port of the inertial channel on the LiDAR.
pub const DEFAULT_LIDAR_IMU_PORT: u16 = 56400;

/// The default UDP port of the inertial channel on the host.
pub const DEFAULT_LOCAL_IMU_PORT: u16 = 56401;

/// The discovery channel's receive buffer size in bytes.
pub const DETECTION_BUFFER_SIZE: usize = 48;

/// The point-data channel's receive buffer size in bytes.
pub const POINT_DATA_BUFFER_SIZE: usize = 1380;

/// The inertial channel's receive buffer size in bytes.
pub const IMU_BUFFER_SIZE: usize = 60;

/// The two UDP port numbers of one channel: the host's and the LiDAR's.
#[derive(Debug, Clone, Copy, PartialEq, Eq, Structural)]
pub struct SocketPortConfig {
    /// The port on the local (host) machine.
    pub local: u16,
    /// The port on the LiDAR.
    pub lidar: u16,
}

impl SocketPortConfig {
    /// The default discovery channel ports: 56000 on both sides.
    pub fn new_detection_port_config() -> (r: SocketPortConfig)
        ensures
            r == (SocketPortConfig {
                local: DEFAULT_DETECTION_PORT,
                lidar: DEFAULT_DETECTION_PORT,
            }),
    {
        SocketPortConfig { local: DEFAULT_DETECTION_PORT, lidar: DEFAULT_DETECTION_PORT }
    }

    /// The default point-data channel ports: 56301 on the host, 56300 on
    /// the LiDAR.
    pub fn new_point_data_config() -> (r: SocketPortConfig)
        ensures
            r == (SocketPortConfig {
                local: DEFAULT_LOCAL_POINT_DATA_PORT,
                lidar: DEFAULT_LIDAR_POINT_DATA_PORT,
            }),
    {
        SocketPortConfig {
            local: DEFAULT_LOCAL_POINT_DATA_PORT,
            lidar: DEFAULT_LIDAR_POINT_DATA_PORT,
        }
    }

    /// The default inertial channel ports: 56401 on the host, 56400 on the
    /// LiDAR.
    pub fn new_imu_port_config() -> (r: SocketPortConfig)
        ensures
            r == (SocketPortConfig {
                local: DEFAULT_LOCAL_IMU_PORT,
                lidar: DEFAULT_LIDAR_IMU_PORT,
            }),
    {
        SocketPortConfig { local: DEFAULT_LOCAL_IMU_PORT, lidar: DEFAULT_LIDAR_IMU_PORT }
    }
}

/// A UDP endpoint as plain values: four IPv4 octets and a port number.
#[derive(Debug, Clone, Copy, PartialEq, Eq)]
#[verifier::ext_equal]
pub struct NetAddr {
    /// The IPv4 address, one octet per byte.
    pub ip: [u8; 4],
    /// The UDP port.
    pub port: u16,
}

/// Compares two endpoints.
pub fn addr_eq(a: &NetAddr, b: &NetAddr) -> (r: bool)
    ensures
        r <==> *a == *b,
{
    let r = a.ip[0] == b.ip[0] && a.ip[1] == b.ip[1] && a.ip[2] == b.ip[2] && a.ip[3] == b.ip[3]
        && a.port == b.port;
    proof {
        if r {
            assert(a.ip@ =~= b.ip@);
            assert(*a =~= *b);
        }
    }
    r
}

/// What the accepted discovery datagram must yield: the acknowledgement
/// entry, filtered by the validity predicate (return code zero), or the
/// parse error, or a data error naming the failing return code.
pub open spec fn spec_discovery_parse(datagram: Seq<u8>) -> Result<QueryDeviceTypeAck, Error> {
    match spec_parse_search_ack(datagram) {
        Err(e) => Err(e),
        Ok(ack) => if ack.data.ret_code == 0 {
            Ok(ack.data)
        } else {
            Err(Error::InvalidAck { ret_code: ack.data.ret_code })
        },
    }
}

/// Parses the accepted discovery datagram and filters its acknowledgement
/// entry by the validity predicate.
pub fn discovery_parse(datagram: &[u8]) -> (r: Result<QueryDeviceTypeAck, Error>)
    ensures
        r == spec_discovery_parse(datagram@),
{
    match LidarSearchAckRef::try_from_bytes(datagram) {
        Err(e) => Err(e),
        Ok(ack) => if ack.data.is_valid() {
            Ok(ack.data)
        } else {
            Err(Error::InvalidAck { ret_code: ack.data.ret_code })
        },
    }
}

/// What one received datagram contributes to a discovery exchange: nothing
/// when its source is not the peer (the datagram is discarded and the wait
/// goes on), else the exchange's outcome.
pub open spec fn spec_discovery_step(peer: NetAddr, src: NetAddr, datagram: Seq<u8>) -> Option<
    Result<QueryDeviceTypeAck, Error>,
> {
    if src != peer {
        None
    } else {
        Some(spec_discovery_parse(datagram))
    }
}

/// Decides one received datagram of a discovery exchange: `None` discards
/// it and keeps waiting; `Some` ends the exchange with its outcome.
pub fn discovery_step(peer: &NetAddr, src: &NetAddr, datagram: &[u8]) -> (r: Option<
    Result<QueryDeviceTypeAck, Error>,
>)
    ensures
        r == spec_discovery_step(*peer, *src, datagram@),
{
    if !addr_eq(src, peer) {
        None
    } else {
        Some(discovery_parse(datagram))
    }
}

/// The outcome of a discovery exchange over a sequence of receives, each a
/// source endpoint and a datagram: the first datagram from the peer decides
/// the exchange; everything before it is discarded; `None` when no
/// datagram came from the peer (the real exchange would still be waiting).
pub open spec fn spec_discover(receives: Seq<(NetAddr, Vec<u8>)>, peer: NetAddr) -> Option<
    Result<QueryDeviceTypeAck, Error>,
>
    decreases receives.len(),
{
    if receives.len() == 0 {
        None
    } else if receives[0].0 == peer {
        Some(spec_discovery_parse(receives[0].1@))
    } else {
        spec_discover(receives.skip(1), peer)
    }
}

/// Replays a discovery exchange over an already-recorded sequence of
/// receives, applying [`discovery_step`] to each in order.
pub fn discover_from_receives(receives: &Vec<(NetAddr, Vec<u8>)>, peer: &NetAddr) -> (r: Option<
    Result<QueryDeviceTypeAck, Error>,
>)
    ensures
        r == spec_discover(receives@, *peer),
{
    let n = receives.len();
    proof {
        assert(receives@.skip(0) =~= receives@);
    }
    let mut i: usize = 0;
    while i < n
        invariant
            i <= n,
            n == receives@.len(),
            spec_discover(receives@, *peer) == spec_discover(receives@.skip(i as int), *peer),
        decreases n - i,
    {
        let step = discovery_step(peer, &receives[i].0, receives[i].1.as_slice());
        proof {
            assert(receives@.skip(i as int)[0] == receives@[i as int]);
            assert(receives@.skip(i as int).skip(1) =~= receives@.skip(i + 1));
        }
        match step {
            Some(outcome) => {
                return Some(outcome);
            },
            None => {},
        }
        i = i + 1;
    }
    proof {
        assert(receives@.skip(n as int).len() == 0);
    }
    None
}

/// The discovery filter: when every receive before the `k`-th comes from a
/// source other than the peer and the `k`-th comes from the peer, the
/// exchange's outcome is decided by the `k`-th datagram alone — all the
/// earlier ones are ignored.
pub proof fn lemma_discovery_filter(receives: Seq<(NetAddr, Vec<u8>)>, peer: NetAddr, k: int)
    requires
        0 <= k < receives.len(),
        forall|j: int| 0 <= j < k ==> receives[j].0 != peer,
        receives[k].0 == peer,
    ensures
        spec_discover(receives, peer) == Some(spec_discovery_parse(receives[k].1@)),
    decreases k,
{
    if k == 0 {
    } else {
        assert(receives[0].0 != peer);
        assert forall|j: int| 0 <= j < k - 1 implies receives.skip(1)[j].0 != peer by {
            assert(receives.skip(1)[j] == receives[j + 1]);
        }
        assert(receives.skip(1)[k - 1] == receives[k]);
        lemma_discovery_filter(receives.skip(1), peer, k - 1);
    }
}

/// Round-trip for a whole discovery exchange step: the frame built over a
/// valid acknowledgement (return code zero), received from the peer,
/// decides the exchange with exactly that acknowledgement.
pub proof fn lemma_discovery_round_trip(
    a: QueryDeviceTypeAck,
    cmd_type: crate::sdk_packet::CommandType,
    sender_type: crate::sdk_packet::SendType,
    seq_num: u32,
    peer: NetAddr,
)
    requires
        a.ret_code == 0,
    ensures
        ({
            let h = crate::sdk_packet::spec_control_header_for(
                crate::sdk_packet::spec_encode_ack(a),
                crate::sdk_packet::CommandID::QueryDeviceType,
                cmd_type,
                sender_type,
                seq_num,
            );
            let frame = crate::sdk_packet::spec_encode_sdk_header(h)
                + crate::sdk_packet::spec_encode_ack(a);
            spec_discovery_step(peer, peer, frame) == Some(Ok::<_, Error>(a))
        }),
{
    crate::sdk_packet::lemma_search_ack_round_trip(a, cmd_type, sender_type, seq_num);
}

} // verus!
