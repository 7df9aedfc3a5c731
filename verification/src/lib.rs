//! Client-side implementation of the wire protocol used to discover and
//! stream data from a Livox LiDAR sensor over UDP.
//!
//! The heart of the crate is the frame-parsing engine in [`dst`]: a generic
//! mechanism that splits a raw datagram into a fixed-size header and a
//! variable-length, tag-selected payload while validating every header field.
//! On top of it sit the two concrete wire formats — the command/control
//! protocol in [`sdk_packet`] and the streaming point-cloud/IMU protocol in
//! [`ethernet`] — together with the checksum helpers in [`crc`], the outbound
//! correlation counter in [`seq_counter`], and the per-channel receive
//! logic in [`lidar_port`].

pub mod bytes;
pub mod crc;
pub mod dst;
pub mod error;
pub mod ethernet;
pub mod lidar_port;
pub mod sdk_packet;
pub mod seq_counter;
pub mod types;

pub use error::Error;
