//! Telemetry extraction for a ROS 2 robot: turns sensor, command and log
//! messages into metric samples and event records, and resolves the node's
//! configuration parameters.

pub mod collectors;
pub mod messages;
pub mod params;
pub mod records;
pub mod value;
