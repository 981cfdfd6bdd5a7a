pub mod common;
pub mod odom;
pub mod imu;
pub mod twist;
pub mod battery;
pub mod scan;
pub mod tf;
pub mod rosout;
