use vstd::prelude::*;
use crate::collectors::common::{
    current_timestamp_ns, finite_part, finite_stats, greatest, least, push_count,
    push_count_sample, push_finite, push_finite_sample, push_mean, push_mean_sample, stamp_nanos,
    timestamp_ns, finite_part_law, group_samples_consistent, lemma_push_finite_consistent,
    lemma_push_mean_consistent, samples_consistent,
};
use crate::messages::{TfMessage, TransformSummary};
use crate::records::{sample_views, MetricSample, MetricSampleView};
use crate::value::{MetricValueView, Real};
use crate::collectors::common::{
    finite_part_filter_law, group_value_named, reports_finite_extent, summary_extremes_law,
    value_named,
};

verus! {

/// The translation norms of the transforms, in order.
pub open spec fn translation_norms(transforms: Seq<TransformSummary>) -> Seq<Real> {
    transforms.map_values(|t: TransformSummary| t.translation_norm)
}

/// A transform has a rotation angle when its quaternion norm is finite
/// and not zero.
pub open spec fn has_rotation(t: TransformSummary) -> bool {
    t.rotation_norm.spec_finite() && !t.rotation_norm.spec_zero()
}

/// The rotation angles of the transforms that have one, in order.
pub open spec fn rotation_angles(transforms: Seq<TransformSummary>) -> Seq<Real>
    decreases transforms.len(),
{
    if transforms.len() == 0 {
        Seq::empty()
    } else {
        let rest = rotation_angles(transforms.drop_last());
        if has_rotation(transforms.last()) {
            rest.push(transforms.last().rotation_angle)
        } else {
            rest
        }
    }
}

/// The rotation angle of a transform, when it has one.
pub fn rotation_angle(t: &TransformSummary) -> (angle: Option<Real>)
    ensures
        angle == if has_rotation(*t) {
            Some(t.rotation_angle)
        } else {
            None
        },
{
    if !t.rotation_norm.is_finite() || t.rotation_norm.is_zero() {
        None
    } else {
        Some(t.rotation_angle)
    }
}

/// The timestamp of a transform message: the stamp of its first transform,
/// or `fallback_ns` (the current time) when it has none.
pub open spec fn tf_timestamp(transforms: Seq<TransformSummary>, fallback_ns: i64) -> i64 {
    if transforms.len() > 0 {
        stamp_nanos(transforms[0].stamp.sec, transforms[0].stamp.nanosec) as i64
    } else {
        fallback_ns
    }
}

/// `samples` followed by the minimum, maximum and mean of the finite
/// entries of `values`; nothing when no entry is finite.
pub open spec fn push_extent(
    samples: Seq<MetricSampleView>,
    ts: i64,
    topic: Seq<char>,
    min_name: Seq<char>,
    max_name: Seq<char>,
    mean_name: Seq<char>,
    values: Seq<Real>,
    unit: Seq<char>,
) -> Seq<MetricSampleView> {
    let finite = finite_part(values);
    if finite.len() == 0 {
        samples
    } else {
        let s = push_finite(samples, ts, topic, min_name, least(finite), unit);
        let s = push_finite(s, ts, topic, max_name, greatest(finite), unit);
        push_mean(s, ts, topic, mean_name, finite, unit)
    }
}

/// The samples of a transform message: the number of transforms, then the
/// minimum, maximum and mean of the finite translation norms (m) and of the
/// finite rotation angles (rad).
pub open spec fn tf_metrics(transforms: Seq<TransformSummary>, topic: Seq<char>, fallback_ns: i64) -> Seq<MetricSampleView> {
    let ts = tf_timestamp(transforms, fallback_ns);
    let s = push_count(Seq::empty(), ts, topic, "tf_transform_count"@, transforms.len() as int);
    let s = push_extent(
        s,
        ts,
        topic,
        "tf_translation_norm_min"@,
        "tf_translation_norm_max"@,
        "tf_translation_norm_mean"@,
        translation_norms(transforms),
        "m"@,
    );
    push_extent(
        s,
        ts,
        topic,
        "tf_rotation_angle_min"@,
        "tf_rotation_angle_max"@,
        "tf_rotation_angle_mean"@,
        rotation_angles(transforms),
        "rad"@,
    )
}

/// The translation norms of a message's transforms.
fn collect_translation_norms(transforms: &Vec<TransformSummary>) -> (norms: Vec<Real>)
    ensures
        norms@ == translation_norms(transforms@),
{
    let mut norms: Vec<Real> = Vec::new();
    let n = transforms.len();
    for i in 0..n
        invariant
            n == transforms@.len(),
            norms@ == translation_norms(transforms@.take(i as int)),
    {
        norms.push(transforms[i].translation_norm);
        proof {
            assert(norms@ =~= translation_norms(transforms@.take(i + 1)));
        }
    }
    proof {
        assert(transforms@.take(n as int) =~= transforms@);
    }
    norms
}

/// The rotation angles of a message's transforms that have one.
fn collect_rotation_angles(transforms: &Vec<TransformSummary>) -> (angles: Vec<Real>)
    ensures
        angles@ == rotation_angles(transforms@),
{
    let mut angles: Vec<Real> = Vec::new();
    let n = transforms.len();
    for i in 0..n
        invariant
            n == transforms@.len(),
            angles@ == rotation_angles(transforms@.take(i as int)),
    {
        proof {
            assert(transforms@.take(i + 1).drop_last() =~= transforms@.take(i as int));
        }
        if let Some(angle) = rotation_angle(&transforms[i]) {
            angles.push(angle);
        }
    }
    proof {
        assert(transforms@.take(n as int) =~= transforms@);
    }
    angles
}

/// Extracts the metric samples of a transform message, with `fallback_ns`
/// as the timestamp when the message holds no transform.
pub fn extract_tf_metrics_at(msg: &TfMessage, source_topic: &str, fallback_ns: i64) -> (samples: Vec<MetricSample>)
    ensures
        sample_views(samples@) == tf_metrics(msg.transforms@, source_topic@, fallback_ns),
{
    let ts = if msg.transforms.len() > 0 {
        timestamp_ns(msg.transforms[0].stamp.sec, msg.transforms[0].stamp.nanosec)
    } else {
        fallback_ns
    };
    let mut samples: Vec<MetricSample> = Vec::with_capacity(8);
    proof {
        assert(sample_views(samples@) =~= Seq::empty());
    }
    push_count_sample(&mut samples, ts, source_topic, "tf_transform_count", msg.transforms.len());

    let norms = collect_translation_norms(&msg.transforms);
    if let Some(stats) = finite_stats(&norms) {
        push_finite_sample(&mut samples, ts, source_topic, "tf_translation_norm_min", stats.min, "m");
        push_finite_sample(&mut samples, ts, source_topic, "tf_translation_norm_max", stats.max, "m");
        push_mean_sample(&mut samples, ts, source_topic, "tf_translation_norm_mean", stats.finite_values, "m");
    }

    let angles = collect_rotation_angles(&msg.transforms);
    if let Some(stats) = finite_stats(&angles) {
        push_finite_sample(&mut samples, ts, source_topic, "tf_rotation_angle_min", stats.min, "rad");
        push_finite_sample(&mut samples, ts, source_topic, "tf_rotation_angle_max", stats.max, "rad");
        push_mean_sample(&mut samples, ts, source_topic, "tf_rotation_angle_mean", stats.finite_values, "rad");
    }

    samples
}

/// Extracts the metric samples of a `tf2_msgs/TFMessage`. The stamp of the
/// first transform stamps every sample; a message without transforms is
/// stamped with the current time, read from the system clock.
pub fn extract_tf_metrics(msg: &TfMessage, source_topic: &str) -> (samples: Vec<MetricSample>)
    ensures
        exists|fallback_ns: i64|
            0 <= fallback_ns && sample_views(samples@) == #[trigger] tf_metrics(msg.transforms@, source_topic@, fallback_ns),
{
    let fallback_ns = if msg.transforms.len() > 0 {
        0
    } else {
        current_timestamp_ns()
    };
    let samples = extract_tf_metrics_at(msg, source_topic, fallback_ns);
    samples
}

/// Appending the extent of a list's finite entries keeps a list consistent.
pub broadcast proof fn lemma_push_extent_consistent(
    samples: Seq<MetricSampleView>,
    ts: i64,
    topic: Seq<char>,
    min_name: Seq<char>,
    max_name: Seq<char>,
    mean_name: Seq<char>,
    values: Seq<Real>,
    unit: Seq<char>,
)
    requires
        samples_consistent(samples, ts, topic),
    ensures
        #[trigger] samples_consistent(push_extent(samples, ts, topic, min_name, max_name, mean_name, values, unit), ts, topic),
{
    let finite = finite_part(values);
    finite_part_law(values);
    if finite.len() > 0 {
        let s = push_finite(samples, ts, topic, min_name, least(finite), unit);
        lemma_push_finite_consistent(samples, ts, topic, min_name, least(finite), unit);
        let s2 = push_finite(s, ts, topic, max_name, greatest(finite), unit);
        lemma_push_finite_consistent(s, ts, topic, max_name, greatest(finite), unit);
        lemma_push_mean_consistent(s2, ts, topic, mean_name, finite, unit);
    }
}

/// Every transform sample carries one stamp (the first transform's, or the
/// fallback), the topic it came from, quality `ok`, and a value built from finite inputs.
pub proof fn tf_samples_consistent(transforms: Seq<TransformSummary>, topic: Seq<char>, fallback_ns: i64)
    ensures
        samples_consistent(tf_metrics(transforms, topic, fallback_ns), tf_timestamp(transforms, fallback_ns), topic),
{
    broadcast use group_samples_consistent, lemma_push_extent_consistent;
}

} // verus!

verus! {

/// The angles collected are those of the transforms whose quaternion norm
/// is finite and not zero, each once, in the order of the transforms; no
/// other transform contributes one.
pub proof fn rotation_angles_law(transforms: Seq<TransformSummary>)
    ensures
        rotation_angles(transforms) == transforms.filter(
            |t: TransformSummary| t.rotation_norm.spec_finite() && !t.rotation_norm.spec_zero(),
        ).map_values(|t: TransformSummary| t.rotation_angle),
    decreases transforms.len(),
{
    reveal(Seq::filter);
    let p = |t: TransformSummary| t.rotation_norm.spec_finite() && !t.rotation_norm.spec_zero();
    let f = |t: TransformSummary| t.rotation_angle;
    if transforms.len() == 0 {
        assert(rotation_angles(transforms) =~= transforms.filter(p).map_values(f));
    } else {
        rotation_angles_law(transforms.drop_last());
        let rest = transforms.drop_last().filter(p);
        if p(transforms.last()) {
            assert(transforms.filter(p) == rest.push(transforms.last()));
            assert(rest.push(transforms.last()).map_values(f) =~= rest.map_values(f).push(transforms.last().rotation_angle));
        } else {
            assert(transforms.filter(p) == rest);
        }
    }
}

/// Looking a name up after the extent of `values`: when some entry is
/// finite, the minimum and maximum are the least and greatest of the finite
/// entries and the mean is taken over them; when none is, nothing was added.
/// Other names keep what they had.
pub broadcast proof fn lemma_value_named_extent(
    samples: Seq<MetricSampleView>,
    ts: i64,
    topic: Seq<char>,
    min_name: Seq<char>,
    max_name: Seq<char>,
    mean_name: Seq<char>,
    values: Seq<Real>,
    unit: Seq<char>,
    name: Seq<char>,
)
    requires
        min_name != max_name,
        min_name != mean_name,
        max_name != mean_name,
    ensures
        ({
            let f = finite_part(values);
            #[trigger] value_named(push_extent(samples, ts, topic, min_name, max_name, mean_name, values, unit), name)
                == if f.len() > 0 && name == min_name {
                Some(MetricValueView::Real(least(f)))
            } else if f.len() > 0 && name == max_name {
                Some(MetricValueView::Real(greatest(f)))
            } else if f.len() > 0 && name == mean_name {
                Some(MetricValueView::Mean(f))
            } else {
                value_named(samples, name)
            }
        }),
{
    broadcast use group_value_named;
    if finite_part(values).len() > 0 {
        summary_extremes_law(values);
    }
}

/// What a transform message reports: the number of its transforms; the
/// extent of the finite translation norms; and the extent of the rotation
/// angles of the transforms whose quaternion norm is finite and not zero,
/// every such transform included (the first as well as the others). An
/// extent gives a least and a greatest finite entry and the mean over the
/// finite entries, or no sample when no entry is finite.
pub proof fn tf_extent_law(transforms: Seq<TransformSummary>, topic: Seq<char>, fallback_ns: i64)
    ensures
        ({
            let s = tf_metrics(transforms, topic, fallback_ns);
            let angles = transforms.filter(
                |t: TransformSummary| t.rotation_norm.spec_finite() && !t.rotation_norm.spec_zero(),
            ).map_values(|t: TransformSummary| t.rotation_angle);
            &&& value_named(s, "tf_transform_count"@) == Some(MetricValueView::Integer(transforms.len() as u64))
            &&& reports_finite_extent(
                s,
                "tf_translation_norm_min"@,
                "tf_translation_norm_max"@,
                "tf_translation_norm_mean"@,
                transforms.map_values(|t: TransformSummary| t.translation_norm),
            )
            &&& reports_finite_extent(
                s,
                "tf_rotation_angle_min"@,
                "tf_rotation_angle_max"@,
                "tf_rotation_angle_mean"@,
                angles,
            )
        }),
{
    broadcast use group_value_named, lemma_value_named_extent;
    reveal_strlit("tf_transform_count");
    assert("tf_transform_count"@.len() == 18);
    reveal_strlit("tf_translation_norm_min");
    assert("tf_translation_norm_min"@.len() == 23
        && "tf_translation_norm_min"@[19] == '_'
        && "tf_translation_norm_min"@[21] == 'i');
    reveal_strlit("tf_translation_norm_max");
    assert("tf_translation_norm_max"@.len() == 23
        && "tf_translation_norm_max"@[19] == '_'
        && "tf_translation_norm_max"@[21] == 'a');
    reveal_strlit("tf_translation_norm_mean");
    assert("tf_translation_norm_mean"@.len() == 24
        && "tf_translation_norm_mean"@[19] == '_'
        && "tf_translation_norm_mean"@[21] == 'e');
    reveal_strlit("tf_rotation_angle_min");
    assert("tf_rotation_angle_min"@.len() == 21 && "tf_rotation_angle_min"@[19] == 'i');
    reveal_strlit("tf_rotation_angle_max");
    assert("tf_rotation_angle_max"@.len() == 21 && "tf_rotation_angle_max"@[19] == 'a');
    reveal_strlit("tf_rotation_angle_mean");
    assert("tf_rotation_angle_mean"@.len() == 22
        && "tf_rotation_angle_mean"@[19] == 'e'
        && "tf_rotation_angle_mean"@[21] == 'n');
    rotation_angles_law(transforms);
    let norms = translation_norms(transforms);
    let angles = rotation_angles(transforms);
    finite_part_filter_law(norms);
    finite_part_filter_law(angles);
    if finite_part(norms).len() > 0 {
        summary_extremes_law(norms);
    }
    if finite_part(angles).len() > 0 {
        summary_extremes_law(angles);
    }
}

} // verus!

verus! {

/// Every sample of a message with transforms is stamped with its first
/// transform's stamp, whatever the fallback; the fallback stamps only a
/// message without transforms.
pub proof fn tf_stamp_law(transforms: Seq<TransformSummary>, topic: Seq<char>, fallback_ns: i64)
    ensures
        transforms.len() > 0 ==> samples_consistent(
            tf_metrics(transforms, topic, fallback_ns),
            stamp_nanos(transforms[0].stamp.sec, transforms[0].stamp.nanosec) as i64,
            topic,
        ),
        transforms.len() == 0 ==> samples_consistent(tf_metrics(transforms, topic, fallback_ns), fallback_ns, topic),
{
    tf_samples_consistent(transforms, topic, fallback_ns);
}

} // verus!
