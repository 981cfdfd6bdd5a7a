//! The parts of the subscribed ROS messages that the collectors read, as
//! plain values. Floating-point fields are carried as [`Real`] bit patterns;
//! `float32` fields are widened to doubles first, which is exact.

use vstd::prelude::*;
use crate::value::Real;

verus! {

/// A `builtin_interfaces/Time` stamp.
#[derive(Clone, Copy, Debug)]
pub struct Time {
    pub sec: i32,
    pub nanosec: u32,
}

/// A `geometry_msgs/Vector3` (or `Point`).
#[derive(Clone, Copy, Debug)]
pub struct Vector3 {
    pub x: Real,
    pub y: Real,
    pub z: Real,
}

/// A `geometry_msgs/Quaternion`.
#[derive(Clone, Copy, Debug)]
pub struct Quaternion {
    pub x: Real,
    pub y: Real,
    pub z: Real,
    pub w: Real,
}

/// A `nav_msgs/Odometry`: header stamp, pose and twist.
#[derive(Clone, Copy, Debug)]
pub struct Odometry {
    pub stamp: Time,
    pub position: Vector3,
    pub orientation: Quaternion,
    pub linear: Vector3,
    pub angular: Vector3,
}

/// A `sensor_msgs/Imu`.
#[derive(Clone, Copy, Debug)]
pub struct Imu {
    pub stamp: Time,
    pub orientation: Quaternion,
    pub angular_velocity: Vector3,
    pub linear_acceleration: Vector3,
}

/// A `geometry_msgs/Twist`.
#[derive(Clone, Copy, Debug)]
pub struct Twist {
    pub linear: Vector3,
    pub angular: Vector3,
}

/// A `sensor_msgs/BatteryState`.
#[derive(Clone, Debug)]
pub struct BatteryState {
    pub stamp: Time,
    pub voltage: Real,
    pub current: Real,
    pub temperature: Real,
    pub charge: Real,
    pub capacity: Real,
    pub design_capacity: Real,
    pub percentage: Real,
    pub power_supply_status: u8,
    pub power_supply_health: u8,
    pub power_supply_technology: u8,
    pub present: bool,
    pub cell_voltage: Vec<Real>,
    pub cell_temperature: Vec<Real>,
}

/// A `sensor_msgs/LaserScan`.
#[derive(Clone, Debug)]
pub struct LaserScan {
    pub stamp: Time,
    pub angle_min: Real,
    pub angle_max: Real,
    pub angle_increment: Real,
    pub time_increment: Real,
    pub scan_time: Real,
    pub range_min: Real,
    pub range_max: Real,
    pub ranges: Vec<Real>,
    pub intensities: Vec<Real>,
}

/// One `geometry_msgs/TransformStamped` of a `tf2_msgs/TFMessage`,
/// reduced to what the collector reads: its stamp, the Euclidean norm of
/// its translation, the norm `|q|` of its rotation quaternion, and the
/// rotation angle `2 acos(w / |q|)` (with `w / |q|` clamped to `[-1, 1]`),
/// which only means something when `|q|` is finite and not zero.
#[derive(Clone, Copy, Debug)]
pub struct TransformSummary {
    pub stamp: Time,
    pub translation_norm: Real,
    pub rotation_norm: Real,
    pub rotation_angle: Real,
}

/// A `tf2_msgs/TFMessage`.
#[derive(Clone, Debug)]
pub struct TfMessage {
    pub transforms: Vec<TransformSummary>,
}

/// An `rcl_interfaces/Log` record.
#[derive(Clone, Debug)]
pub struct Log {
    pub stamp: Time,
    pub level: u8,
    pub name: String,
    pub msg: String,
    pub file: String,
    pub function: String,
    pub line: u32,
}

} // verus!
