use vstd::prelude::*;
use crate::collectors::common::{
    group_samples_consistent, push_finite, push_finite_sample, samples_consistent, stamp_nanos,
    timestamp_ns,
};
use crate::messages::Odometry;
use crate::records::{sample_views, MetricSample, MetricSampleView};
use crate::collectors::common::{finite_reading, group_value_named, value_named};

verus! {

/// The samples of an odometry message: position (m), orientation
/// (quaternion), linear (m/s) and angular (rad/s) velocity, each kept only
/// when finite, all stamped with the message's header time.
pub open spec fn odom_metrics(msg: Odometry, topic: Seq<char>) -> Seq<MetricSampleView> {
    let ts = stamp_nanos(msg.stamp.sec, msg.stamp.nanosec) as i64;
    let s = Seq::empty();
    let s = push_finite(s, ts, topic, "odom_position_x"@, msg.position.x, "m"@);
    let s = push_finite(s, ts, topic, "odom_position_y"@, msg.position.y, "m"@);
    let s = push_finite(s, ts, topic, "odom_position_z"@, msg.position.z, "m"@);
    let s = push_finite(s, ts, topic, "odom_orientation_x"@, msg.orientation.x, "quaternion"@);
    let s = push_finite(s, ts, topic, "odom_orientation_y"@, msg.orientation.y, "quaternion"@);
    let s = push_finite(s, ts, topic, "odom_orientation_z"@, msg.orientation.z, "quaternion"@);
    let s = push_finite(s, ts, topic, "odom_orientation_w"@, msg.orientation.w, "quaternion"@);
    let s = push_finite(s, ts, topic, "odom_linear_x"@, msg.linear.x, "m/s"@);
    let s = push_finite(s, ts, topic, "odom_linear_y"@, msg.linear.y, "m/s"@);
    let s = push_finite(s, ts, topic, "odom_linear_z"@, msg.linear.z, "m/s"@);
    let s = push_finite(s, ts, topic, "odom_angular_x"@, msg.angular.x, "rad/s"@);
    let s = push_finite(s, ts, topic, "odom_angular_y"@, msg.angular.y, "rad/s"@);
    push_finite(s, ts, topic, "odom_angular_z"@, msg.angular.z, "rad/s"@)
}

/// Extracts the metric samples of a `nav_msgs/Odometry` message.
pub fn extract_odom_metrics(msg: &Odometry, source_topic: &str) -> (samples: Vec<MetricSample>)
    ensures
        sample_views(samples@) == odom_metrics(*msg, source_topic@),
{
    let ts = timestamp_ns(msg.stamp.sec, msg.stamp.nanosec);
    let mut samples: Vec<MetricSample> = Vec::with_capacity(13);
    proof {
        assert(sample_views(samples@) =~= Seq::empty());
    }
    push_finite_sample(&mut samples, ts, source_topic, "odom_position_x", msg.position.x, "m");
    push_finite_sample(&mut samples, ts, source_topic, "odom_position_y", msg.position.y, "m");
    push_finite_sample(&mut samples, ts, source_topic, "odom_position_z", msg.position.z, "m");
    push_finite_sample(&mut samples, ts, source_topic, "odom_orientation_x", msg.orientation.x, "quaternion");
    push_finite_sample(&mut samples, ts, source_topic, "odom_orientation_y", msg.orientation.y, "quaternion");
    push_finite_sample(&mut samples, ts, source_topic, "odom_orientation_z", msg.orientation.z, "quaternion");
    push_finite_sample(&mut samples, ts, source_topic, "odom_orientation_w", msg.orientation.w, "quaternion");
    push_finite_sample(&mut samples, ts, source_topic, "odom_linear_x", msg.linear.x, "m/s");
    push_finite_sample(&mut samples, ts, source_topic, "odom_linear_y", msg.linear.y, "m/s");
    push_finite_sample(&mut samples, ts, source_topic, "odom_linear_z", msg.linear.z, "m/s");
    push_finite_sample(&mut samples, ts, source_topic, "odom_angular_x", msg.angular.x, "rad/s");
    push_finite_sample(&mut samples, ts, source_topic, "odom_angular_y", msg.angular.y, "rad/s");
    push_finite_sample(&mut samples, ts, source_topic, "odom_angular_z", msg.angular.z, "rad/s");
    samples
}

/// Every odometry sample carries the message's stamp, the topic it came
/// from, quality `ok`, and a finite value.
pub proof fn odom_samples_consistent(msg: Odometry, topic: Seq<char>)
    ensures
        samples_consistent(odom_metrics(msg, topic), stamp_nanos(msg.stamp.sec, msg.stamp.nanosec) as i64, topic),
{
    broadcast use group_samples_consistent;
}

} // verus!

verus! {

/// The sample named after each field of the message holds that field:
/// `odom_position_x` holds `position.x`, and so on for all thirteen; a field
/// that is not finite has no sample.
pub proof fn odom_fields_law(msg: Odometry, topic: Seq<char>)
    ensures
        ({
            let s = odom_metrics(msg, topic);
            &&& value_named(s, "odom_position_x"@) == finite_reading(msg.position.x)
            &&& value_named(s, "odom_position_y"@) == finite_reading(msg.position.y)
            &&& value_named(s, "odom_position_z"@) == finite_reading(msg.position.z)
            &&& value_named(s, "odom_orientation_x"@) == finite_reading(msg.orientation.x)
            &&& value_named(s, "odom_orientation_y"@) == finite_reading(msg.orientation.y)
            &&& value_named(s, "odom_orientation_z"@) == finite_reading(msg.orientation.z)
            &&& value_named(s, "odom_orientation_w"@) == finite_reading(msg.orientation.w)
            &&& value_named(s, "odom_linear_x"@) == finite_reading(msg.linear.x)
            &&& value_named(s, "odom_linear_y"@) == finite_reading(msg.linear.y)
            &&& value_named(s, "odom_linear_z"@) == finite_reading(msg.linear.z)
            &&& value_named(s, "odom_angular_x"@) == finite_reading(msg.angular.x)
            &&& value_named(s, "odom_angular_y"@) == finite_reading(msg.angular.y)
            &&& value_named(s, "odom_angular_z"@) == finite_reading(msg.angular.z)
        }),
{
    broadcast use group_value_named;
    reveal_strlit("odom_position_x");
    assert("odom_position_x"@.len() == 15 && "odom_position_x"@[14] == 'x');
    reveal_strlit("odom_position_y");
    assert("odom_position_y"@.len() == 15 && "odom_position_y"@[14] == 'y');
    reveal_strlit("odom_position_z");
    assert("odom_position_z"@.len() == 15 && "odom_position_z"@[14] == 'z');
    reveal_strlit("odom_orientation_x");
    assert("odom_orientation_x"@.len() == 18 && "odom_orientation_x"@[17] == 'x');
    reveal_strlit("odom_orientation_y");
    assert("odom_orientation_y"@.len() == 18 && "odom_orientation_y"@[17] == 'y');
    reveal_strlit("odom_orientation_z");
    assert("odom_orientation_z"@.len() == 18 && "odom_orientation_z"@[17] == 'z');
    reveal_strlit("odom_orientation_w");
    assert("odom_orientation_w"@.len() == 18 && "odom_orientation_w"@[17] == 'w');
    reveal_strlit("odom_linear_x");
    assert("odom_linear_x"@.len() == 13 && "odom_linear_x"@[12] == 'x');
    reveal_strlit("odom_linear_y");
    assert("odom_linear_y"@.len() == 13 && "odom_linear_y"@[12] == 'y');
    reveal_strlit("odom_linear_z");
    assert("odom_linear_z"@.len() == 13 && "odom_linear_z"@[12] == 'z');
    reveal_strlit("odom_angular_x");
    assert("odom_angular_x"@.len() == 14 && "odom_angular_x"@[13] == 'x');
    reveal_strlit("odom_angular_y");
    assert("odom_angular_y"@.len() == 14 && "odom_angular_y"@[13] == 'y');
    reveal_strlit("odom_angular_z");
    assert("odom_angular_z"@.len() == 14 && "odom_angular_z"@[13] == 'z');
}

} // verus!
