use vstd::prelude::*;
use crate::collectors::common::{
    group_samples_consistent, push_finite, push_finite_sample, samples_consistent,
};
use crate::messages::Twist;
use crate::records::{sample_views, MetricSample, MetricSampleView};
use crate::collectors::common::{finite_reading, group_value_named, value_named};

verus! {

/// The samples of a velocity command: linear (m/s) and angular (rad/s)
/// components, each kept only when finite, all stamped with `ts`.
pub open spec fn twist_metrics(msg: Twist, topic: Seq<char>, ts: i64) -> Seq<MetricSampleView> {
    let s = Seq::empty();
    let s = push_finite(s, ts, topic, "cmd_vel_linear_x"@, msg.linear.x, "m/s"@);
    let s = push_finite(s, ts, topic, "cmd_vel_linear_y"@, msg.linear.y, "m/s"@);
    let s = push_finite(s, ts, topic, "cmd_vel_linear_z"@, msg.linear.z, "m/s"@);
    let s = push_finite(s, ts, topic, "cmd_vel_angular_x"@, msg.angular.x, "rad/s"@);
    let s = push_finite(s, ts, topic, "cmd_vel_angular_y"@, msg.angular.y, "rad/s"@);
    push_finite(s, ts, topic, "cmd_vel_angular_z"@, msg.angular.z, "rad/s"@)
}

/// Extracts the metric samples of a `geometry_msgs/Twist` velocity command,
/// which carries no stamp of its own: `timestamp_ns` stamps every sample.
pub fn extract_twist_metrics(msg: &Twist, source_topic: &str, timestamp_ns: i64) -> (samples: Vec<MetricSample>)
    ensures
        sample_views(samples@) == twist_metrics(*msg, source_topic@, timestamp_ns),
{
    let ts = timestamp_ns;
    let mut samples: Vec<MetricSample> = Vec::with_capacity(6);
    proof {
        assert(sample_views(samples@) =~= Seq::empty());
    }
    push_finite_sample(&mut samples, ts, source_topic, "cmd_vel_linear_x", msg.linear.x, "m/s");
    push_finite_sample(&mut samples, ts, source_topic, "cmd_vel_linear_y", msg.linear.y, "m/s");
    push_finite_sample(&mut samples, ts, source_topic, "cmd_vel_linear_z", msg.linear.z, "m/s");
    push_finite_sample(&mut samples, ts, source_topic, "cmd_vel_angular_x", msg.angular.x, "rad/s");
    push_finite_sample(&mut samples, ts, source_topic, "cmd_vel_angular_y", msg.angular.y, "rad/s");
    push_finite_sample(&mut samples, ts, source_topic, "cmd_vel_angular_z", msg.angular.z, "rad/s");
    samples
}

/// Every velocity-command sample carries the given stamp, the topic it came
/// from, quality `ok`, and a finite value.
pub proof fn twist_samples_consistent(msg: Twist, topic: Seq<char>, ts: i64)
    ensures
        samples_consistent(twist_metrics(msg, topic, ts), ts, topic),
{
    broadcast use group_samples_consistent;
}

} // verus!

verus! {

/// The sample named after each component of the command holds that
/// component: `cmd_vel_angular_z` holds `angular.z`, and so on for all six;
/// a component that is not finite has no sample.
pub proof fn twist_fields_law(msg: Twist, topic: Seq<char>, ts: i64)
    ensures
        ({
            let s = twist_metrics(msg, topic, ts);
            &&& value_named(s, "cmd_vel_linear_x"@) == finite_reading(msg.linear.x)
            &&& value_named(s, "cmd_vel_linear_y"@) == finite_reading(msg.linear.y)
            &&& value_named(s, "cmd_vel_linear_z"@) == finite_reading(msg.linear.z)
            &&& value_named(s, "cmd_vel_angular_x"@) == finite_reading(msg.angular.x)
            &&& value_named(s, "cmd_vel_angular_y"@) == finite_reading(msg.angular.y)
            &&& value_named(s, "cmd_vel_angular_z"@) == finite_reading(msg.angular.z)
        }),
{
    broadcast use group_value_named;
    reveal_strlit("cmd_vel_linear_x");
    assert("cmd_vel_linear_x"@.len() == 16 && "cmd_vel_linear_x"@[15] == 'x');
    reveal_strlit("cmd_vel_linear_y");
    assert("cmd_vel_linear_y"@.len() == 16 && "cmd_vel_linear_y"@[15] == 'y');
    reveal_strlit("cmd_vel_linear_z");
    assert("cmd_vel_linear_z"@.len() == 16 && "cmd_vel_linear_z"@[15] == 'z');
    reveal_strlit("cmd_vel_angular_x");
    assert("cmd_vel_angular_x"@.len() == 17 && "cmd_vel_angular_x"@[16] == 'x');
    reveal_strlit("cmd_vel_angular_y");
    assert("cmd_vel_angular_y"@.len() == 17 && "cmd_vel_angular_y"@[16] == 'y');
    reveal_strlit("cmd_vel_angular_z");
    assert("cmd_vel_angular_z"@.len() == 17 && "cmd_vel_angular_z"@[16] == 'z');
}

} // verus!
