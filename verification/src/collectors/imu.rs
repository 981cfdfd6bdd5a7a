use vstd::prelude::*;
use crate::collectors::common::{
    group_samples_consistent, push_finite, push_finite_sample, samples_consistent, stamp_nanos,
    timestamp_ns,
};
use crate::messages::Imu;
use crate::records::{sample_views, MetricSample, MetricSampleView};
use crate::collectors::common::{finite_reading, group_value_named, value_named};

verus! {

/// The samples of an IMU message: orientation (quaternion), angular
/// velocity (rad/s) and linear acceleration (m/s^2), each kept only when
/// finite, all stamped with the message's header time.
pub open spec fn imu_metrics(msg: Imu, topic: Seq<char>) -> Seq<MetricSampleView> {
    let ts = stamp_nanos(msg.stamp.sec, msg.stamp.nanosec) as i64;
    let s = Seq::empty();
    let s = push_finite(s, ts, topic, "imu_orientation_x"@, msg.orientation.x, "quaternion"@);
    let s = push_finite(s, ts, topic, "imu_orientation_y"@, msg.orientation.y, "quaternion"@);
    let s = push_finite(s, ts, topic, "imu_orientation_z"@, msg.orientation.z, "quaternion"@);
    let s = push_finite(s, ts, topic, "imu_orientation_w"@, msg.orientation.w, "quaternion"@);
    let s = push_finite(s, ts, topic, "imu_angular_velocity_x"@, msg.angular_velocity.x, "rad/s"@);
    let s = push_finite(s, ts, topic, "imu_angular_velocity_y"@, msg.angular_velocity.y, "rad/s"@);
    let s = push_finite(s, ts, topic, "imu_angular_velocity_z"@, msg.angular_velocity.z, "rad/s"@);
    let s = push_finite(s, ts, topic, "imu_linear_acceleration_x"@, msg.linear_acceleration.x, "m/s^2"@);
    let s = push_finite(s, ts, topic, "imu_linear_acceleration_y"@, msg.linear_acceleration.y, "m/s^2"@);
    push_finite(s, ts, topic, "imu_linear_acceleration_z"@, msg.linear_acceleration.z, "m/s^2"@)
}

/// Extracts the metric samples of a `sensor_msgs/Imu` message.
pub fn extract_imu_metrics(msg: &Imu, source_topic: &str) -> (samples: Vec<MetricSample>)
    ensures
        sample_views(samples@) == imu_metrics(*msg, source_topic@),
{
    let ts = timestamp_ns(msg.stamp.sec, msg.stamp.nanosec);
    let mut samples: Vec<MetricSample> = Vec::with_capacity(10);
    proof {
        assert(sample_views(samples@) =~= Seq::empty());
    }
    push_finite_sample(&mut samples, ts, source_topic, "imu_orientation_x", msg.orientation.x, "quaternion");
    push_finite_sample(&mut samples, ts, source_topic, "imu_orientation_y", msg.orientation.y, "quaternion");
    push_finite_sample(&mut samples, ts, source_topic, "imu_orientation_z", msg.orientation.z, "quaternion");
    push_finite_sample(&mut samples, ts, source_topic, "imu_orientation_w", msg.orientation.w, "quaternion");
    push_finite_sample(&mut samples, ts, source_topic, "imu_angular_velocity_x", msg.angular_velocity.x, "rad/s");
    push_finite_sample(&mut samples, ts, source_topic, "imu_angular_velocity_y", msg.angular_velocity.y, "rad/s");
    push_finite_sample(&mut samples, ts, source_topic, "imu_angular_velocity_z", msg.angular_velocity.z, "rad/s");
    push_finite_sample(&mut samples, ts, source_topic, "imu_linear_acceleration_x", msg.linear_acceleration.x, "m/s^2");
    push_finite_sample(&mut samples, ts, source_topic, "imu_linear_acceleration_y", msg.linear_acceleration.y, "m/s^2");
    push_finite_sample(&mut samples, ts, source_topic, "imu_linear_acceleration_z", msg.linear_acceleration.z, "m/s^2");
    samples
}

/// Every IMU sample carries the message's stamp, the topic it came from,
/// quality `ok`, and a finite value.
pub proof fn imu_samples_consistent(msg: Imu, topic: Seq<char>)
    ensures
        samples_consistent(imu_metrics(msg, topic), stamp_nanos(msg.stamp.sec, msg.stamp.nanosec) as i64, topic),
{
    broadcast use group_samples_consistent;
}

} // verus!

verus! {

/// The sample named after each field of the message holds that field:
/// `imu_linear_acceleration_x` holds `linear_acceleration.x`, and so on for
/// all ten; a field that is not finite has no sample.
pub proof fn imu_fields_law(msg: Imu, topic: Seq<char>)
    ensures
        ({
            let s = imu_metrics(msg, topic);
            &&& value_named(s, "imu_orientation_x"@) == finite_reading(msg.orientation.x)
            &&& value_named(s, "imu_orientation_y"@) == finite_reading(msg.orientation.y)
            &&& value_named(s, "imu_orientation_z"@) == finite_reading(msg.orientation.z)
            &&& value_named(s, "imu_orientation_w"@) == finite_reading(msg.orientation.w)
            &&& value_named(s, "imu_angular_velocity_x"@) == finite_reading(msg.angular_velocity.x)
            &&& value_named(s, "imu_angular_velocity_y"@) == finite_reading(msg.angular_velocity.y)
            &&& value_named(s, "imu_angular_velocity_z"@) == finite_reading(msg.angular_velocity.z)
            &&& value_named(s, "imu_linear_acceleration_x"@) == finite_reading(msg.linear_acceleration.x)
            &&& value_named(s, "imu_linear_acceleration_y"@) == finite_reading(msg.linear_acceleration.y)
            &&& value_named(s, "imu_linear_acceleration_z"@) == finite_reading(msg.linear_acceleration.z)
        }),
{
    broadcast use group_value_named;
    reveal_strlit("imu_orientation_x");
    assert("imu_orientation_x"@.len() == 17 && "imu_orientation_x"@[16] == 'x');
    reveal_strlit("imu_orientation_y");
    assert("imu_orientation_y"@.len() == 17 && "imu_orientation_y"@[16] == 'y');
    reveal_strlit("imu_orientation_z");
    assert("imu_orientation_z"@.len() == 17 && "imu_orientation_z"@[16] == 'z');
    reveal_strlit("imu_orientation_w");
    assert("imu_orientation_w"@.len() == 17 && "imu_orientation_w"@[16] == 'w');
    reveal_strlit("imu_angular_velocity_x");
    assert("imu_angular_velocity_x"@.len() == 22 && "imu_angular_velocity_x"@[21] == 'x');
    reveal_strlit("imu_angular_velocity_y");
    assert("imu_angular_velocity_y"@.len() == 22 && "imu_angular_velocity_y"@[21] == 'y');
    reveal_strlit("imu_angular_velocity_z");
    assert("imu_angular_velocity_z"@.len() == 22 && "imu_angular_velocity_z"@[21] == 'z');
    reveal_strlit("imu_linear_acceleration_x");
    assert("imu_linear_acceleration_x"@.len() == 25 && "imu_linear_acceleration_x"@[24] == 'x');
    reveal_strlit("imu_linear_acceleration_y");
    assert("imu_linear_acceleration_y"@.len() == 25 && "imu_linear_acceleration_y"@[24] == 'y');
    reveal_strlit("imu_linear_acceleration_z");
    assert("imu_linear_acceleration_z"@.len() == 25 && "imu_linear_acceleration_z"@[24] == 'z');
}

} // verus!
