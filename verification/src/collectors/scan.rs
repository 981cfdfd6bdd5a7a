use vstd::prelude::*;
use crate::collectors::common::{
    finite_part, finite_stats, greatest, least, push_count, push_count_sample, push_finite,
    push_finite_sample, push_finite_summary, push_mean, push_mean_sample, stamp_nanos,
    timestamp_ns, finite_part_law, group_samples_consistent, samples_consistent,
};
use crate::messages::LaserScan;
use crate::records::{sample_views, MetricSample, MetricSampleView};
use crate::value::{MetricValueView, Real};
use crate::collectors::common::{
    finite_part_filter_law, finite_reading, group_value_named, lemma_value_named_summary,
    reports_finite_extent, reports_finite_summary, summary_extremes_law, value_named,
};

verus! {

/// A range reading is valid when it is finite and lies within
/// `[range_min, range_max]` as doubles compare (never when a bound is NaN).
pub open spec fn range_is_valid(range: Real, range_min: Real, range_max: Real) -> bool {
    range.spec_finite() && range_min.spec_le(range) && range.spec_le(range_max)
}

/// The valid entries of `ranges`, in order.
pub open spec fn valid_ranges(ranges: Seq<Real>, range_min: Real, range_max: Real) -> Seq<Real>
    decreases ranges.len(),
{
    if ranges.len() == 0 {
        Seq::empty()
    } else {
        let rest = valid_ranges(ranges.drop_last(), range_min, range_max);
        if range_is_valid(ranges.last(), range_min, range_max) {
            rest.push(ranges.last())
        } else {
            rest
        }
    }
}

/// The samples of a laser scan: its finite scan parameters, the number of
/// range readings, the numbers of valid and invalid readings with the
/// minimum, maximum and mean of the valid ones, and a summary of the
/// finite intensities.
pub open spec fn scan_metrics(msg: LaserScan, topic: Seq<char>) -> Seq<MetricSampleView> {
    let ts = stamp_nanos(msg.stamp.sec, msg.stamp.nanosec) as i64;
    let total = msg.ranges@.len();
    let s = Seq::empty();
    let s = push_finite(s, ts, topic, "scan_angle_min"@, msg.angle_min, "rad"@);
    let s = push_finite(s, ts, topic, "scan_angle_max"@, msg.angle_max, "rad"@);
    let s = push_finite(s, ts, topic, "scan_angle_increment"@, msg.angle_increment, "rad"@);
    let s = push_finite(s, ts, topic, "scan_time_increment"@, msg.time_increment, "s"@);
    let s = push_finite(s, ts, topic, "scan_time"@, msg.scan_time, "s"@);
    let s = push_finite(s, ts, topic, "scan_range_min_limit"@, msg.range_min, "m"@);
    let s = push_finite(s, ts, topic, "scan_range_max_limit"@, msg.range_max, "m"@);
    let s = push_count(s, ts, topic, "scan_range_count"@, total as int);
    let valid = finite_part(valid_ranges(msg.ranges@, msg.range_min, msg.range_max));
    let s = if valid.len() > 0 {
        let s = push_count(s, ts, topic, "scan_valid_range_count"@, valid.len() as int);
        let invalid = if total >= valid.len() { total - valid.len() } else { 0 };
        let s = push_count(s, ts, topic, "scan_invalid_range_count"@, invalid);
        let s = push_finite(s, ts, topic, "scan_range_min"@, least(valid), "m"@);
        let s = push_finite(s, ts, topic, "scan_range_max"@, greatest(valid), "m"@);
        push_mean(s, ts, topic, "scan_range_mean"@, valid, "m"@)
    } else {
        let s = push_count(s, ts, topic, "scan_valid_range_count"@, 0);
        push_count(s, ts, topic, "scan_invalid_range_count"@, total as int)
    };
    push_finite_summary(
        s,
        ts,
        topic,
        "scan_intensity_count"@,
        "scan_intensity_min"@,
        "scan_intensity_max"@,
        "scan_intensity_mean"@,
        msg.intensities@,
        "intensity"@,
    )
}

/// Whether a range reading is valid.
fn is_valid_range(range: Real, range_min: Real, range_max: Real) -> (valid: bool)
    ensures
        valid == range_is_valid(range, range_min, range_max),
{
    range.is_finite() && range_min.le(&range) && range.le(&range_max)
}

/// The valid readings of a scan, in order.
fn collect_valid_ranges(msg: &LaserScan) -> (valid: Vec<Real>)
    ensures
        valid@ == valid_ranges(msg.ranges@, msg.range_min, msg.range_max),
{
    let mut valid: Vec<Real> = Vec::new();
    let n = msg.ranges.len();
    for i in 0..n
        invariant
            n == msg.ranges@.len(),
            valid@ == valid_ranges(msg.ranges@.take(i as int), msg.range_min, msg.range_max),
    {
        proof {
            assert(msg.ranges@.take(i + 1).drop_last() =~= msg.ranges@.take(i as int));
        }
        let r = msg.ranges[i];
        if is_valid_range(r, msg.range_min, msg.range_max) {
            valid.push(r);
        }
    }
    proof {
        assert(msg.ranges@.take(n as int) =~= msg.ranges@);
    }
    valid
}

/// Extracts the metric samples of a `sensor_msgs/LaserScan` message.
pub fn extract_scan_metrics(msg: &LaserScan, source_topic: &str) -> (samples: Vec<MetricSample>)
    ensures
        sample_views(samples@) == scan_metrics(*msg, source_topic@),
{
    let ts = timestamp_ns(msg.stamp.sec, msg.stamp.nanosec);
    let mut samples: Vec<MetricSample> = Vec::with_capacity(18);
    proof {
        assert(sample_views(samples@) =~= Seq::empty());
    }
    push_finite_sample(&mut samples, ts, source_topic, "scan_angle_min", msg.angle_min, "rad");
    push_finite_sample(&mut samples, ts, source_topic, "scan_angle_max", msg.angle_max, "rad");
    push_finite_sample(&mut samples, ts, source_topic, "scan_angle_increment", msg.angle_increment, "rad");
    push_finite_sample(&mut samples, ts, source_topic, "scan_time_increment", msg.time_increment, "s");
    push_finite_sample(&mut samples, ts, source_topic, "scan_time", msg.scan_time, "s");
    push_finite_sample(&mut samples, ts, source_topic, "scan_range_min_limit", msg.range_min, "m");
    push_finite_sample(&mut samples, ts, source_topic, "scan_range_max_limit", msg.range_max, "m");
    push_count_sample(&mut samples, ts, source_topic, "scan_range_count", msg.ranges.len());

    let valid = collect_valid_ranges(msg);
    if let Some(stats) = finite_stats(&valid) {
        push_count_sample(&mut samples, ts, source_topic, "scan_valid_range_count", stats.count);
        push_count_sample(
            &mut samples,
            ts,
            source_topic,
            "scan_invalid_range_count",
            msg.ranges.len().saturating_sub(stats.count),
        );
        push_finite_sample(&mut samples, ts, source_topic, "scan_range_min", stats.min, "m");
        push_finite_sample(&mut samples, ts, source_topic, "scan_range_max", stats.max, "m");
        push_mean_sample(&mut samples, ts, source_topic, "scan_range_mean", stats.finite_values, "m");
    } else {
        push_count_sample(&mut samples, ts, source_topic, "scan_valid_range_count", 0);
        push_count_sample(&mut samples, ts, source_topic, "scan_invalid_range_count", msg.ranges.len());
    }

    if let Some(stats) = finite_stats(&msg.intensities) {
        push_count_sample(&mut samples, ts, source_topic, "scan_intensity_count", stats.count);
        push_finite_sample(&mut samples, ts, source_topic, "scan_intensity_min", stats.min, "intensity");
        push_finite_sample(&mut samples, ts, source_topic, "scan_intensity_max", stats.max, "intensity");
        push_mean_sample(&mut samples, ts, source_topic, "scan_intensity_mean", stats.finite_values, "intensity");
    }

    samples
}

/// The valid readings are exactly the readings that pass the validity test,
/// in order; they are finite, and there are no more of them than readings.
pub proof fn valid_ranges_law(ranges: Seq<Real>, range_min: Real, range_max: Real)
    ensures
        valid_ranges(ranges, range_min, range_max).len() <= ranges.len(),
        forall|j: int|
            0 <= j < valid_ranges(ranges, range_min, range_max).len() ==> range_is_valid(
                #[trigger] valid_ranges(ranges, range_min, range_max)[j],
                range_min,
                range_max,
            ),
        finite_part(valid_ranges(ranges, range_min, range_max)) == valid_ranges(ranges, range_min, range_max),
    decreases ranges.len(),
{
    if ranges.len() > 0 {
        valid_ranges_law(ranges.drop_last(), range_min, range_max);
        let rest = valid_ranges(ranges.drop_last(), range_min, range_max);
        if range_is_valid(ranges.last(), range_min, range_max) {
            assert(rest.push(ranges.last()).drop_last() =~= rest);
        }
    } else {
        assert(finite_part(valid_ranges(ranges, range_min, range_max)) =~= Seq::<Real>::empty());
    }
}

/// A scan's valid and invalid range counts add up to its number of range
/// readings, and the valid count is the number of readings that are finite
/// and within `[range_min, range_max]`.
pub proof fn scan_range_counts_law(msg: LaserScan)
    ensures
        ({
            let total = msg.ranges@.len();
            let valid = finite_part(valid_ranges(msg.ranges@, msg.range_min, msg.range_max));
            let invalid = if total >= valid.len() { total - valid.len() } else { 0 };
            &&& valid == valid_ranges(msg.ranges@, msg.range_min, msg.range_max)
            &&& valid.len() + invalid == total
        }),
{
    valid_ranges_law(msg.ranges@, msg.range_min, msg.range_max);
}

/// Every scan sample carries the message's stamp, the topic it came from,
/// quality `ok`, and a value built from finite inputs.
pub proof fn scan_samples_consistent(msg: LaserScan, topic: Seq<char>)
    ensures
        samples_consistent(scan_metrics(msg, topic), stamp_nanos(msg.stamp.sec, msg.stamp.nanosec) as i64, topic),
{
    broadcast use group_samples_consistent;
    finite_part_law(valid_ranges(msg.ranges@, msg.range_min, msg.range_max));
}

} // verus!

verus! {

/// The intensity summary depends on the intensities alone, whatever the
/// range readings are: when some intensity is finite, the count is the
/// number of finite intensities, the minimum and maximum are a least and a
/// greatest finite intensity, and the mean is taken over the finite
/// intensities in order; when none is, there is no intensity sample.
pub proof fn scan_intensity_law(msg: LaserScan, topic: Seq<char>)
    ensures
        reports_finite_summary(
            scan_metrics(msg, topic),
            "scan_intensity_count"@,
            "scan_intensity_min"@,
            "scan_intensity_max"@,
            "scan_intensity_mean"@,
            msg.intensities@,
        ),
{
    broadcast use group_value_named, lemma_value_named_summary;
    reveal_strlit("scan_angle_min");
    assert("scan_angle_min"@[5] == 'a');
    reveal_strlit("scan_angle_max");
    assert("scan_angle_max"@[5] == 'a');
    reveal_strlit("scan_angle_increment");
    assert("scan_angle_increment"@[5] == 'a');
    reveal_strlit("scan_time_increment");
    assert("scan_time_increment"@[5] == 't');
    reveal_strlit("scan_time");
    assert("scan_time"@[5] == 't');
    reveal_strlit("scan_range_min_limit");
    assert("scan_range_min_limit"@[5] == 'r');
    reveal_strlit("scan_range_max_limit");
    assert("scan_range_max_limit"@[5] == 'r');
    reveal_strlit("scan_range_count");
    assert("scan_range_count"@[5] == 'r');
    reveal_strlit("scan_valid_range_count");
    assert("scan_valid_range_count"@[5] == 'v');
    reveal_strlit("scan_range_min");
    assert("scan_range_min"@[5] == 'r');
    reveal_strlit("scan_range_max");
    assert("scan_range_max"@[5] == 'r');
    reveal_strlit("scan_range_mean");
    assert("scan_range_mean"@[5] == 'r');
    reveal_strlit("scan_invalid_range_count");
    assert("scan_invalid_range_count"@[7] == 'v');
    reveal_strlit("scan_intensity_count");
    assert("scan_intensity_count"@.len() == 20
        && "scan_intensity_count"@[5] == 'i'
        && "scan_intensity_count"@[7] == 't'
        && "scan_intensity_count"@[16] == 'o');
    reveal_strlit("scan_intensity_min");
    assert("scan_intensity_min"@.len() == 18
        && "scan_intensity_min"@[5] == 'i'
        && "scan_intensity_min"@[7] == 't'
        && "scan_intensity_min"@[16] == 'i');
    reveal_strlit("scan_intensity_max");
    assert("scan_intensity_max"@.len() == 18
        && "scan_intensity_max"@[5] == 'i'
        && "scan_intensity_max"@[7] == 't'
        && "scan_intensity_max"@[16] == 'a');
    reveal_strlit("scan_intensity_mean");
    assert("scan_intensity_mean"@.len() == 19
        && "scan_intensity_mean"@[5] == 'i'
        && "scan_intensity_mean"@[7] == 't'
        && "scan_intensity_mean"@[16] == 'e');
    let v = msg.intensities@;
    let f = finite_part(v);
    finite_part_filter_law(v);
    if f.len() > 0 {
        summary_extremes_law(v);
    }
}

} // verus!

verus! {

/// The valid readings are the readings filtered by the validity test, in
/// order.
pub proof fn valid_ranges_filter_law(ranges: Seq<Real>, range_min: Real, range_max: Real)
    ensures
        valid_ranges(ranges, range_min, range_max) == ranges.filter(
            |r: Real| r.spec_finite() && range_min.spec_le(r) && r.spec_le(range_max),
        ),
    decreases ranges.len(),
{
    reveal(Seq::filter);
    let p = |r: Real| r.spec_finite() && range_min.spec_le(r) && r.spec_le(range_max);
    if ranges.len() == 0 {
        assert(valid_ranges(ranges, range_min, range_max) =~= ranges.filter(p));
    } else {
        valid_ranges_filter_law(ranges.drop_last(), range_min, range_max);
    }
}

/// What a scan reports of its parameters and range readings: each finite
/// parameter under its own name; the number of readings; the number of
/// valid readings (finite and within `[range_min, range_max]`) and of the
/// others, which add up to the number of readings; and the extent of the
/// valid readings: a least and a greatest one and the mean over them, or no
/// sample when none is valid.
pub proof fn scan_ranges_law(msg: LaserScan, topic: Seq<char>)
    ensures
        ({
            let s = scan_metrics(msg, topic);
            let total = msg.ranges@.len();
            let valid = msg.ranges@.filter(
                |r: Real| r.spec_finite() && msg.range_min.spec_le(r) && r.spec_le(msg.range_max),
            );
            &&& value_named(s, "scan_angle_min"@) == finite_reading(msg.angle_min)
            &&& value_named(s, "scan_angle_max"@) == finite_reading(msg.angle_max)
            &&& value_named(s, "scan_angle_increment"@) == finite_reading(msg.angle_increment)
            &&& value_named(s, "scan_time_increment"@) == finite_reading(msg.time_increment)
            &&& value_named(s, "scan_time"@) == finite_reading(msg.scan_time)
            &&& value_named(s, "scan_range_min_limit"@) == finite_reading(msg.range_min)
            &&& value_named(s, "scan_range_max_limit"@) == finite_reading(msg.range_max)
            &&& value_named(s, "scan_range_count"@) == Some(MetricValueView::Integer(total as u64))
            &&& value_named(s, "scan_valid_range_count"@) == Some(MetricValueView::Integer(valid.len() as u64))
            &&& value_named(s, "scan_invalid_range_count"@) == Some(
                MetricValueView::Integer((total - valid.len()) as u64),
            )
            &&& valid.len() <= total
            &&& reports_finite_extent(s, "scan_range_min"@, "scan_range_max"@, "scan_range_mean"@, valid)
        }),
{
    broadcast use group_value_named, lemma_value_named_summary;
    reveal_strlit("scan_angle_min");
    assert("scan_angle_min"@.len() == 14 && "scan_angle_min"@[12] == 'i' && "scan_angle_min"@[5] == 'a');
    reveal_strlit("scan_angle_max");
    assert("scan_angle_max"@.len() == 14 && "scan_angle_max"@[12] == 'a' && "scan_angle_max"@[5] == 'a');
    reveal_strlit("scan_angle_increment");
    assert("scan_angle_increment"@.len() == 20
        && "scan_angle_increment"@[12] == 'n'
        && "scan_angle_increment"@[5] == 'a'
        && "scan_angle_increment"@[16] == 'm');
    reveal_strlit("scan_time_increment");
    assert("scan_time_increment"@.len() == 19
        && "scan_time_increment"@[12] == 'c'
        && "scan_time_increment"@[5] == 't'
        && "scan_time_increment"@[16] == 'e');
    reveal_strlit("scan_time");
    assert("scan_time"@.len() == 9 && "scan_time"@[5] == 't');
    reveal_strlit("scan_range_min_limit");
    assert("scan_range_min_limit"@.len() == 20
        && "scan_range_min_limit"@[12] == 'i'
        && "scan_range_min_limit"@[5] == 'r'
        && "scan_range_min_limit"@[16] == 'i');
    reveal_strlit("scan_range_max_limit");
    assert("scan_range_max_limit"@.len() == 20
        && "scan_range_max_limit"@[12] == 'a'
        && "scan_range_max_limit"@[5] == 'r'
        && "scan_range_max_limit"@[16] == 'i');
    reveal_strlit("scan_range_count");
    assert("scan_range_count"@.len() == 16
        && "scan_range_count"@[12] == 'o'
        && "scan_range_count"@[5] == 'r');
    reveal_strlit("scan_valid_range_count");
    assert("scan_valid_range_count"@.len() == 22
        && "scan_valid_range_count"@[12] == 'a'
        && "scan_valid_range_count"@[5] == 'v'
        && "scan_valid_range_count"@[16] == '_');
    reveal_strlit("scan_invalid_range_count");
    assert("scan_invalid_range_count"@.len() == 24
        && "scan_invalid_range_count"@[12] == '_'
        && "scan_invalid_range_count"@[5] == 'i'
        && "scan_invalid_range_count"@[16] == 'g');
    reveal_strlit("scan_range_min");
    assert("scan_range_min"@.len() == 14 && "scan_range_min"@[12] == 'i' && "scan_range_min"@[5] == 'r');
    reveal_strlit("scan_range_max");
    assert("scan_range_max"@.len() == 14 && "scan_range_max"@[12] == 'a' && "scan_range_max"@[5] == 'r');
    reveal_strlit("scan_range_mean");
    assert("scan_range_mean"@.len() == 15 && "scan_range_mean"@[12] == 'e' && "scan_range_mean"@[5] == 'r');
    reveal_strlit("scan_intensity_count");
    assert("scan_intensity_count"@.len() == 20
        && "scan_intensity_count"@[12] == 't'
        && "scan_intensity_count"@[5] == 'i'
        && "scan_intensity_count"@[16] == 'o');
    reveal_strlit("scan_intensity_min");
    assert("scan_intensity_min"@.len() == 18
        && "scan_intensity_min"@[12] == 't'
        && "scan_intensity_min"@[5] == 'i'
        && "scan_intensity_min"@[16] == 'i');
    reveal_strlit("scan_intensity_max");
    assert("scan_intensity_max"@.len() == 18
        && "scan_intensity_max"@[12] == 't'
        && "scan_intensity_max"@[5] == 'i'
        && "scan_intensity_max"@[16] == 'a');
    reveal_strlit("scan_intensity_mean");
    assert("scan_intensity_mean"@.len() == 19
        && "scan_intensity_mean"@[12] == 't'
        && "scan_intensity_mean"@[5] == 'i'
        && "scan_intensity_mean"@[16] == 'e');
    let valid = valid_ranges(msg.ranges@, msg.range_min, msg.range_max);
    valid_ranges_filter_law(msg.ranges@, msg.range_min, msg.range_max);
    valid_ranges_law(msg.ranges@, msg.range_min, msg.range_max);
    finite_part_filter_law(valid);
    if valid.len() > 0 {
        summary_extremes_law(valid);
    }
}

} // verus!
