//! Assorted data structures of the device's SDK vocabulary: status and
//! mode enumerations and configuration records reported by or pushed to
//! the LiDAR.  They carry no parsing logic of their own; each enumeration
//! keeps its on-wire code through a value map.

use vstd::prelude::*;

verus! {

/// Which protocol family a frame belongs to.
#[derive(Debug, Clone, Copy, PartialEq, Eq, Structural)]
pub enum ProtocolType {
    LidarSdk,
    Rsvd1,
    ProtocolUndef,
}

/// The kind of a log pushed by the device.
#[derive(Debug, Clone, Copy, PartialEq, Eq, Structural)]
pub enum LogType {
    RealTimeLog,
    ExceptionLog,
}

/// An SDK operation status code.
#[derive(Debug, Clone, Copy, PartialEq, Eq, Structural)]
pub enum LidarStatus {
    /// Command send failed.
    SendFailed,
    /// Handler implementation not exist.
    HandlerImplNotExist,
    /// Device handle invalid.
    InvalidHandle,
    /// Command channel not exist.
    ChannelNotExist,
    /// No enough memory.
    NotEnoughMemory,
    /// Operation timeouts.
    Timeout,
    /// Operation is not supported on this device.
    NotSupported,
    /// Requested device is not connected.
    NotConnected,
    /// Failure.
    Failure,
    /// Success.
    Success,
}

/// The device's working mode.
#[derive(Debug, Clone, Copy, PartialEq, Eq, Structural)]
pub enum WorkMode {
    Normal,
    WakeUp,
    Sleep,
    Error,
    PowerOnSelfTest,
    MotorStarting,
    MotorStoping,
    Upgrade,
}

/// The working mode the device boots into.
#[derive(Debug, Clone, Copy, PartialEq, Eq, Structural)]
pub enum WorkModeAfterBoot {
    AfterBootDefault,
    AfterBootNormal,
    AfterBootWakeUp,
}

impl LogType {
    /// The SDK code of this log kind.
    pub open spec fn spec_code(self) -> u8 {
        match self {
            LogType::RealTimeLog => 0,
            LogType::ExceptionLog => 0x01,
        }
    }

    /// The SDK code of this log kind.
    pub fn code(&self) -> (r: u8)
        ensures
            r == self.spec_code(),
    {
        match self {
            LogType::RealTimeLog => 0,
            LogType::ExceptionLog => 0x01,
        }
    }
}

impl LidarStatus {
    /// The SDK code of this status; failures are negative, success is zero.
    pub open spec fn spec_code(self) -> i32 {
        match self {
            LidarStatus::SendFailed => -9i32,
            LidarStatus::HandlerImplNotExist => -8i32,
            LidarStatus::InvalidHandle => -7i32,
            LidarStatus::ChannelNotExist => -6i32,
            LidarStatus::NotEnoughMemory => -5i32,
            LidarStatus::Timeout => -4i32,
            LidarStatus::NotSupported => -3i32,
            LidarStatus::NotConnected => -2i32,
            LidarStatus::Failure => -1i32,
            LidarStatus::Success => 0i32,
        }
    }

    /// The SDK code of this status; failures are negative, success is zero.
    pub fn code(&self) -> (r: i32)
        ensures
            r == self.spec_code(),
    {
        match self {
            LidarStatus::SendFailed => -9,
            LidarStatus::HandlerImplNotExist => -8,
            LidarStatus::InvalidHandle => -7,
            LidarStatus::ChannelNotExist => -6,
            LidarStatus::NotEnoughMemory => -5,
            LidarStatus::Timeout => -4,
            LidarStatus::NotSupported => -3,
            LidarStatus::NotConnected => -2,
            LidarStatus::Failure => -1,
            LidarStatus::Success => 0,
        }
    }
}

impl WorkMode {
    /// The SDK code of this working mode.
    pub open spec fn spec_code(self) -> u8 {
        match self {
            WorkMode::Normal => 0x01,
            WorkMode::WakeUp => 0x02,
            WorkMode::Sleep => 0x03,
            WorkMode::Error => 0x04,
            WorkMode::PowerOnSelfTest => 0x05,
            WorkMode::MotorStarting => 0x06,
            WorkMode::MotorStoping => 0x07,
            WorkMode::Upgrade => 0x08,
        }
    }

    /// The SDK code of this working mode.
    pub fn code(&self) -> (r: u8)
        ensures
            r == self.spec_code(),
    {
        match self {
            WorkMode::Normal => 0x01,
            WorkMode::WakeUp => 0x02,
            WorkMode::Sleep => 0x03,
            WorkMode::Error => 0x04,
            WorkMode::PowerOnSelfTest => 0x05,
            WorkMode::MotorStarting => 0x06,
            WorkMode::MotorStoping => 0x07,
            WorkMode::Upgrade => 0x08,
        }
    }
}

impl WorkModeAfterBoot {
    /// The SDK code of this boot mode.
    pub open spec fn spec_code(self) -> u8 {
        match self {
            WorkModeAfterBoot::AfterBootDefault => 0x00,
            WorkModeAfterBoot::AfterBootNormal => 0x01,
            WorkModeAfterBoot::AfterBootWakeUp => 0x02,
        }
    }

    /// The SDK code of this boot mode.
    pub fn code(&self) -> (r: u8)
        ensures
            r == self.spec_code(),
    {
        match self {
            WorkModeAfterBoot::AfterBootDefault => 0x00,
            WorkModeAfterBoot::AfterBootNormal => 0x01,
            WorkModeAfterBoot::AfterBootWakeUp => 0x02,
        }
    }
}

/// The response to an asynchronous control command.
#[derive(Debug, Clone, Copy, PartialEq, Eq, Structural)]
pub struct AsyncControlResponse {
    /// Return code.
    pub ret_code: u8,
    /// Key of the failing parameter, when the command failed.
    pub error_key: u16,
}

/// The LiDAR's own IP configuration, as dotted-decimal strings padded to
/// 16 bytes each.
#[derive(Debug, Clone, Copy, PartialEq, Eq)]
pub struct LivoxLidarIpInfo {
    /// IP address.
    pub ip_addr: [u8; 16],
    /// Subnet mask.
    pub net_mask: [u8; 16],
    /// Gateway address.
    pub gw_addr: [u8; 16],
}

/// Where the device pushes state information.
#[derive(Debug, Clone, Copy, PartialEq, Eq)]
pub struct HostStateInfoIpInfo {
    /// Host IP address.
    pub host_ip_addr: [u8; 16],
    /// Port the host listens on for state information.
    pub host_state_info_port: u16,
    /// Port the device sends state information from.
    pub lidar_state_info_port: u16,
}

/// Where the device sends point-cloud data.
#[derive(Debug, Clone, Copy, PartialEq, Eq)]
pub struct HostPointIPInfo {
    /// Host IP address.
    pub host_ip_addr: [u8; 16],
    /// Port the host listens on for point data.
    pub host_point_data_port: u16,
    /// Port the device sends point data from.
    pub lidar_point_data_port: u16,
}

/// Where the device sends inertial data.
#[derive(Debug, Clone, Copy, PartialEq, Eq)]
pub struct HostImuDataIPInfo {
    /// Host IP address.
    pub host_ip_addr: [u8; 16],
    /// Port the host listens on for inertial data.
    pub host_imu_data_port: u16,
    /// Port the device sends inertial data from.
    pub lidar_imu_data_port: u16,
}

/// A generic source/destination endpoint configuration.
#[derive(Debug, Clone, Copy, PartialEq, Eq)]
pub struct LivoxIpCfg {
    /// IP address.
    pub ip_addr: [u8; 16],
    /// Destination port.
    pub dst_port: u16,
    /// Source port.
    pub src_port: u16,
}

/// A field-of-view window.
#[derive(Debug, Clone, Copy, PartialEq, Eq, Structural)]
pub struct FovCfg {
    /// Yaw start angle.
    pub yaw_start: i32,
    /// Yaw stop angle.
    pub yaw_stop: i32,
    /// Pitch start angle.
    pub pitch_start: i32,
    /// Pitch stop angle.
    pub pitch_stop: i32,
    /// Reserved.
    pub rsvd: u32,
}

} // verus!
