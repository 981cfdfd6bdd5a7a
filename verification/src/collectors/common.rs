use vstd::prelude::*;
use crate::records::{sample_views, MetricSample, MetricSampleView};
use crate::value::{MetricValue, MetricValueView, Real};

verus! {

/// Nanoseconds in one second.
pub const NANOS_PER_SEC: i64 = 1_000_000_000;

/// The instant that a message stamp `(sec, nanosec)` names, in nanoseconds
/// since the epoch.
pub open spec fn stamp_nanos(sec: i32, nanosec: u32) -> int {
    sec * 1_000_000_000 + nanosec
}

/// Converts a ROS time stamp to nanoseconds since the epoch.
pub fn timestamp_ns(sec: i32, nanosec: u32) -> (ts: i64)
    ensures
        ts == stamp_nanos(sec, nanosec),
{
    assert(-2_147_483_648 * 1_000_000_000 <= sec * 1_000_000_000 <= 2_147_483_647 * 1_000_000_000) by (nonlinear_arith)
        requires -2_147_483_648 <= sec <= 2_147_483_647;
    (sec as i64) * NANOS_PER_SEC + (nanosec as i64)
}

/// The quality tag of every sample the collectors produce.
pub open spec fn quality_ok() -> Seq<char> {
    "ok"@
}

/// The sample that [`sample`] builds.
pub open spec fn sample_view(
    timestamp_ns: i64,
    source_topic: Seq<char>,
    metric_name: Seq<char>,
    metric_value: MetricValueView,
    unit: Seq<char>,
) -> MetricSampleView {
    MetricSampleView {
        timestamp_ns,
        source_topic,
        metric_name,
        metric_value,
        unit,
        quality: quality_ok(),
    }
}

/// `samples` with a sample of `value` appended when `value` is finite, and
/// unchanged otherwise.
pub open spec fn push_finite(
    samples: Seq<MetricSampleView>,
    timestamp_ns: i64,
    source_topic: Seq<char>,
    metric_name: Seq<char>,
    value: Real,
    unit: Seq<char>,
) -> Seq<MetricSampleView> {
    if value.spec_finite() {
        samples.push(sample_view(timestamp_ns, source_topic, metric_name, MetricValueView::Real(value), unit))
    } else {
        samples
    }
}

/// `samples` with a sample of the whole number `value` appended.
pub open spec fn push_integer(
    samples: Seq<MetricSampleView>,
    timestamp_ns: i64,
    source_topic: Seq<char>,
    metric_name: Seq<char>,
    value: u64,
    unit: Seq<char>,
) -> Seq<MetricSampleView> {
    samples.push(sample_view(timestamp_ns, source_topic, metric_name, MetricValueView::Integer(value), unit))
}

/// `samples` with a count sample (unit `count`) appended.
pub open spec fn push_count(
    samples: Seq<MetricSampleView>,
    timestamp_ns: i64,
    source_topic: Seq<char>,
    metric_name: Seq<char>,
    count: int,
) -> Seq<MetricSampleView> {
    push_integer(samples, timestamp_ns, source_topic, metric_name, count as u64, "count"@)
}

/// `samples` with a sample of the mean of `values` appended.
pub open spec fn push_mean(
    samples: Seq<MetricSampleView>,
    timestamp_ns: i64,
    source_topic: Seq<char>,
    metric_name: Seq<char>,
    values: Seq<Real>,
    unit: Seq<char>,
) -> Seq<MetricSampleView> {
    samples.push(sample_view(timestamp_ns, source_topic, metric_name, MetricValueView::Mean(values), unit))
}

/// Builds a sample of quality `ok`.
pub fn sample(
    timestamp_ns: i64,
    source_topic: &str,
    metric_name: &str,
    metric_value: MetricValue,
    unit: &str,
) -> (s: MetricSample)
    ensures
        s@ == sample_view(timestamp_ns, source_topic@, metric_name@, metric_value@, unit@),
{
    MetricSample {
        timestamp_ns,
        source_topic: source_topic.to_owned(),
        metric_name: metric_name.to_owned(),
        metric_value,
        unit: unit.to_owned(),
        quality: "ok".to_owned(),
    }
}

proof fn lemma_views_push(samples: Seq<MetricSample>, s: MetricSample)
    ensures
        sample_views(samples.push(s)) == sample_views(samples).push(s@),
{
    assert(sample_views(samples.push(s)) =~= sample_views(samples).push(s@));
}

/// Appends a sample of `metric_value` when it is finite.
pub fn push_finite_sample(
    samples: &mut Vec<MetricSample>,
    timestamp_ns: i64,
    source_topic: &str,
    metric_name: &str,
    metric_value: Real,
    unit: &str,
)
    ensures
        sample_views(final(samples)@) == push_finite(
            sample_views(old(samples)@),
            timestamp_ns,
            source_topic@,
            metric_name@,
            metric_value,
            unit@,
        ),
{
    if metric_value.is_finite() {
        let s = sample(timestamp_ns, source_topic, metric_name, MetricValue::Real(metric_value), unit);
        proof {
            lemma_views_push(samples@, s);
        }
        samples.push(s);
    }
}

/// Appends a sample of a whole number, such as a status code or a flag.
pub fn push_integer_sample(
    samples: &mut Vec<MetricSample>,
    timestamp_ns: i64,
    source_topic: &str,
    metric_name: &str,
    value: u64,
    unit: &str,
)
    ensures
        sample_views(final(samples)@) == push_integer(
            sample_views(old(samples)@),
            timestamp_ns,
            source_topic@,
            metric_name@,
            value,
            unit@,
        ),
{
    let s = sample(timestamp_ns, source_topic, metric_name, MetricValue::Integer(value), unit);
    proof {
        lemma_views_push(samples@, s);
    }
    samples.push(s);
}

/// Appends a count sample: unit `count`, the count as an integer value.
pub fn push_count_sample(
    samples: &mut Vec<MetricSample>,
    timestamp_ns: i64,
    source_topic: &str,
    metric_name: &str,
    count: usize,
)
    ensures
        sample_views(final(samples)@) == push_count(
            sample_views(old(samples)@),
            timestamp_ns,
            source_topic@,
            metric_name@,
            count as int,
        ),
{
    push_integer_sample(samples, timestamp_ns, source_topic, metric_name, count as u64, "count");
}

/// Appends a sample of the mean of `values`, a list of finite doubles.
pub fn push_mean_sample(
    samples: &mut Vec<MetricSample>,
    timestamp_ns: i64,
    source_topic: &str,
    metric_name: &str,
    values: Vec<Real>,
    unit: &str,
)
    ensures
        sample_views(final(samples)@) == push_mean(
            sample_views(old(samples)@),
            timestamp_ns,
            source_topic@,
            metric_name@,
            values@,
            unit@,
        ),
{
    let s = sample(timestamp_ns, source_topic, metric_name, MetricValue::Mean(values), unit);
    proof {
        lemma_views_push(samples@, s);
    }
    samples.push(s);
}

/// The finite entries of `values`, in order.
pub open spec fn finite_part(values: Seq<Real>) -> Seq<Real>
    decreases values.len(),
{
    if values.len() == 0 {
        Seq::empty()
    } else {
        let rest = finite_part(values.drop_last());
        if values.last().spec_finite() {
            rest.push(values.last())
        } else {
            rest
        }
    }
}

/// The smallest entry of a non-empty list, scanned left to right: an entry
/// replaces the current one only when it is strictly smaller.
pub open spec fn least(values: Seq<Real>) -> Real
    decreases values.len(),
{
    if values.len() <= 1 {
        values[0]
    } else {
        let m = least(values.drop_last());
        if values.last().spec_lt(m) {
            values.last()
        } else {
            m
        }
    }
}

/// The greatest entry of a non-empty list, scanned left to right: an entry
/// replaces the current one only when it is strictly greater.
pub open spec fn greatest(values: Seq<Real>) -> Real
    decreases values.len(),
{
    if values.len() <= 1 {
        values[0]
    } else {
        let m = greatest(values.drop_last());
        if m.spec_lt(values.last()) {
            values.last()
        } else {
            m
        }
    }
}

/// Summary of the finite entries of a list of doubles.
#[derive(Clone, Debug)]
pub struct FiniteStats {
    /// How many entries are finite.
    pub count: usize,
    /// The smallest finite entry.
    pub min: Real,
    /// The greatest finite entry.
    pub max: Real,
    /// The finite entries in order; their mean is the list's mean.
    pub finite_values: Vec<Real>,
}

/// What [`finite_stats`] returns for `values`.
pub open spec fn stats_of(values: Seq<Real>, stats: Option<FiniteStats>) -> bool {
    let finite = finite_part(values);
    match stats {
        None => finite.len() == 0,
        Some(st) => {
            &&& finite.len() > 0
            &&& st.count == finite.len()
            &&& st.min == least(finite)
            &&& st.max == greatest(finite)
            &&& st.finite_values@ == finite
        },
    }
}

proof fn lemma_finite_part_step(values: Seq<Real>, i: int)
    requires
        0 <= i < values.len(),
    ensures
        finite_part(values.take(i + 1)) == if values[i].spec_finite() {
            finite_part(values.take(i)).push(values[i])
        } else {
            finite_part(values.take(i))
        },
{
    assert(values.take(i + 1).drop_last() =~= values.take(i));
}

/// Count, minimum, maximum and entries of the finite values of a list;
/// `None` when no entry is finite.
pub fn finite_stats(values: &Vec<Real>) -> (stats: Option<FiniteStats>)
    ensures
        stats_of(values@, stats),
{
    let mut count: usize = 0;
    let mut min = Real { bits: 0 };
    let mut max = Real { bits: 0 };
    let mut finite: Vec<Real> = Vec::new();
    let n = values.len();
    for i in 0..n
        invariant
            n == values@.len(),
            finite@ == finite_part(values@.take(i as int)),
            count == finite@.len(),
            count <= i,
            count > 0 ==> min == least(finite@) && max == greatest(finite@),
    {
        let v = values[i];
        proof {
            lemma_finite_part_step(values@, i as int);
        }
        if v.is_finite() {
            let ghost before = finite@;
            if count == 0 || v.lt(&min) {
                min = v;
            }
            if count == 0 || max.lt(&v) {
                max = v;
            }
            finite.push(v);
            count += 1;
            proof {
                assert(finite@.drop_last() =~= before);
            }
        }
    }
    proof {
        assert(values@.take(n as int) =~= values@);
    }
    if count == 0 {
        None
    } else {
        Some(FiniteStats { count, min, max, finite_values: finite })
    }
}

#[verifier::external_type_specification]
#[verifier::external_body]
pub struct ExSystemTime(std::time::SystemTime);

#[verifier::external_type_specification]
#[verifier::external_body]
pub struct ExSystemTimeError(std::time::SystemTimeError);

/// Reads the system clock (`std::time::SystemTime::now`). The instant
/// depends on the time of the call, so nothing is stated of it.
#[verifier::external_body]
fn system_time_now() -> std::time::SystemTime {
    std::time::SystemTime::now()
}

/// `SystemTime::duration_since(UNIX_EPOCH)`: the time elapsed since the
/// Unix epoch, or an error when `instant` lies before it. Which of the two
/// comes back depends on the clock reading, so nothing is stated.
#[verifier::external_body]
fn elapsed_since_unix_epoch(
    instant: &std::time::SystemTime,
) -> Result<core::time::Duration, std::time::SystemTimeError> {
    instant.duration_since(std::time::UNIX_EPOCH)
}

/// `Duration::as_nanos`: the whole nanoseconds of a duration. The duration
/// is opaque here, so nothing is stated of the number.
#[verifier::external_body]
fn duration_as_nanos(duration: &core::time::Duration) -> u128 {
    duration.as_nanos()
}

/// The timestamp that a clock reading gives: 0 when the clock is before
/// the epoch, the nanoseconds since the epoch when they fit in an `i64`,
/// and `i64::MAX` beyond.
pub open spec fn clock_timestamp(nanos_since_epoch: Option<u128>) -> i64 {
    match nanos_since_epoch {
        None => 0,
        Some(n) => if n <= i64::MAX {
            n as i64
        } else {
            i64::MAX
        },
    }
}

/// Turns a clock reading (nanoseconds since the epoch, `None` before the
/// epoch) into a timestamp.
pub fn timestamp_from_clock(nanos_since_epoch: Option<u128>) -> (ts: i64)
    ensures
        ts == clock_timestamp(nanos_since_epoch),
{
    match nanos_since_epoch {
        None => 0,
        Some(n) => if n <= i64::MAX as u128 {
            n as i64
        } else {
            i64::MAX
        },
    }
}

/// The current time in nanoseconds since the Unix epoch: 0 when the clock
/// reads before the epoch, saturated at `i64::MAX`.
pub fn current_timestamp_ns() -> (ts: i64)
    ensures
        0 <= ts,
{
    let now = system_time_now();
    let reading = match elapsed_since_unix_epoch(&now) {
        Ok(duration) => Some(duration_as_nanos(&duration)),
        Err(_) => None,
    };
    timestamp_from_clock(reading)
}

/// The sample that a mean sample becomes once its mean is evaluated to
/// `evaluated`: a sample of that double when it is finite, and no sample
/// when the sum overflowed; any other sample stays as it is.
pub open spec fn settled_sample(sample: MetricSampleView, evaluated: Real) -> Option<MetricSampleView> {
    match sample.metric_value {
        MetricValueView::Mean(_) => if evaluated.spec_finite() {
            Some(
                MetricSampleView {
                    timestamp_ns: sample.timestamp_ns,
                    source_topic: sample.source_topic,
                    metric_name: sample.metric_name,
                    metric_value: MetricValueView::Real(evaluated),
                    unit: sample.unit,
                    quality: sample.quality,
                },
            )
        } else {
            None
        },
        _ => Some(sample),
    }
}

/// Settles a mean sample against the floating-point value of its mean
/// (summed in order and divided by the count, where floating point is
/// evaluated): the sample keeps that value when it is finite and is
/// dropped otherwise, as a finite-only sample would be. Other samples pass
/// through unchanged and `evaluated` is ignored.
pub fn settle_mean_sample(sample: MetricSample, evaluated: Real) -> (settled: Option<MetricSample>)
    ensures
        match settled {
            Some(s) => settled_sample(sample@, evaluated) == Some(s@),
            None => settled_sample(sample@, evaluated) is None,
        },
{
    let is_mean = match &sample.metric_value {
        MetricValue::Mean(_) => true,
        _ => false,
    };
    if !is_mean {
        Some(sample)
    } else if evaluated.is_finite() {
        Some(
            MetricSample {
                timestamp_ns: sample.timestamp_ns,
                source_topic: sample.source_topic,
                metric_name: sample.metric_name,
                metric_value: MetricValue::Real(evaluated),
                unit: sample.unit,
                quality: sample.quality,
            },
        )
    } else {
        None
    }
}

/// `samples` followed by the summary of the finite entries of `values`:
/// their count, minimum, maximum and mean, in that order; nothing when no
/// entry is finite.
pub open spec fn push_finite_summary(
    samples: Seq<MetricSampleView>,
    timestamp_ns: i64,
    source_topic: Seq<char>,
    count_name: Seq<char>,
    min_name: Seq<char>,
    max_name: Seq<char>,
    mean_name: Seq<char>,
    values: Seq<Real>,
    unit: Seq<char>,
) -> Seq<MetricSampleView> {
    let finite = finite_part(values);
    if finite.len() == 0 {
        samples
    } else {
        let s = push_count(samples, timestamp_ns, source_topic, count_name, finite.len() as int);
        let s = push_finite(s, timestamp_ns, source_topic, min_name, least(finite), unit);
        let s = push_finite(s, timestamp_ns, source_topic, max_name, greatest(finite), unit);
        push_mean(s, timestamp_ns, source_topic, mean_name, finite, unit)
    }
}

/// Whether a value is built from finite inputs: a double that is finite,
/// any whole number, or the mean of a non-empty list of finite doubles.
/// The mean itself is not judged here: the floating-point sum of large
/// finite doubles can overflow, so whether a mean is finite is settled where
/// it is evaluated, and a mean that is not finite is not written.
pub open spec fn value_has_finite_inputs(value: MetricValueView) -> bool {
    match value {
        MetricValueView::Real(r) => r.spec_finite(),
        MetricValueView::Integer(_) => true,
        MetricValueView::Mean(values) => values.len() > 0 && forall|j: int|
            0 <= j < values.len() ==> (#[trigger] values[j]).spec_finite(),
    }
}

/// Every sample is stamped `ts`, comes from `topic`, has quality `ok` and
/// holds a value built from finite inputs (a finite double, a whole number,
/// or the mean of finite doubles).
pub open spec fn samples_consistent(samples: Seq<MetricSampleView>, ts: i64, topic: Seq<char>) -> bool {
    forall|i: int|
        0 <= i < samples.len() ==> {
            &&& (#[trigger] samples[i]).timestamp_ns == ts
            &&& samples[i].source_topic == topic
            &&& samples[i].quality == quality_ok()
            &&& value_has_finite_inputs(samples[i].metric_value)
        }
}

/// An empty list of samples is consistent with any stamp and topic.
pub broadcast proof fn lemma_empty_consistent(ts: i64, topic: Seq<char>)
    ensures
        #[trigger] samples_consistent(Seq::empty(), ts, topic),
{
}

/// Appending a finite reading keeps a list consistent.
pub broadcast proof fn lemma_push_finite_consistent(
    samples: Seq<MetricSampleView>,
    ts: i64,
    topic: Seq<char>,
    name: Seq<char>,
    value: Real,
    unit: Seq<char>,
)
    requires
        samples_consistent(samples, ts, topic),
    ensures
        #[trigger] samples_consistent(push_finite(samples, ts, topic, name, value, unit), ts, topic),
{
    let pushed = push_finite(samples, ts, topic, name, value, unit);
    assert forall|i: int| 0 <= i < pushed.len() implies {
        &&& (#[trigger] pushed[i]).timestamp_ns == ts
        &&& pushed[i].source_topic == topic
        &&& pushed[i].quality == quality_ok()
        &&& value_has_finite_inputs(pushed[i].metric_value)
    } by {
        if i < samples.len() {
            assert(pushed[i] == samples[i]);
        }
    }
}

/// Appending a whole number keeps a list consistent.
pub broadcast proof fn lemma_push_integer_consistent(
    samples: Seq<MetricSampleView>,
    ts: i64,
    topic: Seq<char>,
    name: Seq<char>,
    value: u64,
    unit: Seq<char>,
)
    requires
        samples_consistent(samples, ts, topic),
    ensures
        #[trigger] samples_consistent(push_integer(samples, ts, topic, name, value, unit), ts, topic),
{
    let pushed = push_integer(samples, ts, topic, name, value, unit);
    assert forall|i: int| 0 <= i < pushed.len() implies {
        &&& (#[trigger] pushed[i]).timestamp_ns == ts
        &&& pushed[i].source_topic == topic
        &&& pushed[i].quality == quality_ok()
        &&& value_has_finite_inputs(pushed[i].metric_value)
    } by {
        if i < samples.len() {
            assert(pushed[i] == samples[i]);
        }
    }
}

/// Appending a count keeps a list consistent.
pub broadcast proof fn lemma_push_count_consistent(
    samples: Seq<MetricSampleView>,
    ts: i64,
    topic: Seq<char>,
    name: Seq<char>,
    count: int,
)
    requires
        samples_consistent(samples, ts, topic),
    ensures
        #[trigger] samples_consistent(push_count(samples, ts, topic, name, count), ts, topic),
{
    lemma_push_integer_consistent(samples, ts, topic, name, count as u64, "count"@);
}

/// Appending the mean of a non-empty list of finite doubles keeps a list
/// consistent.
pub broadcast proof fn lemma_push_mean_consistent(
    samples: Seq<MetricSampleView>,
    ts: i64,
    topic: Seq<char>,
    name: Seq<char>,
    values: Seq<Real>,
    unit: Seq<char>,
)
    requires
        samples_consistent(samples, ts, topic),
        values.len() > 0,
        forall|j: int| 0 <= j < values.len() ==> (#[trigger] values[j]).spec_finite(),
    ensures
        #[trigger] samples_consistent(push_mean(samples, ts, topic, name, values, unit), ts, topic),
{
    let pushed = push_mean(samples, ts, topic, name, values, unit);
    assert forall|i: int| 0 <= i < pushed.len() implies {
        &&& (#[trigger] pushed[i]).timestamp_ns == ts
        &&& pushed[i].source_topic == topic
        &&& pushed[i].quality == quality_ok()
        &&& value_has_finite_inputs(pushed[i].metric_value)
    } by {
        if i < samples.len() {
            assert(pushed[i] == samples[i]);
        }
    }
}

/// The finite part of a list holds exactly its finite entries, in order:
/// every entry is finite, every finite entry of the list occurs in it, and
/// it is no longer than the list.
pub proof fn finite_part_law(values: Seq<Real>)
    ensures
        finite_part(values).len() <= values.len(),
        forall|j: int| 0 <= j < finite_part(values).len() ==> (#[trigger] finite_part(values)[j]).spec_finite(),
        forall|x: Real| #[trigger] finite_part(values).contains(x) <==> (values.contains(x) && x.spec_finite()),
    decreases values.len(),
{
    if values.len() == 0 {
        assert forall|x: Real| #[trigger] finite_part(values).contains(x) <==> (values.contains(x) && x.spec_finite()) by {
            assert(finite_part(values) =~= Seq::<Real>::empty());
        }
    } else {
        let rest = values.drop_last();
        finite_part_law(rest);
        assert forall|x: Real| values.contains(x) <==> (rest.contains(x) || x == values.last()) by {
            if values.contains(x) {
                let k = choose|k: int| 0 <= k < values.len() && values[k] == x;
                if k < values.len() - 1 {
                    assert(rest[k] == x);
                }
            }
            if rest.contains(x) {
                let k = choose|k: int| 0 <= k < rest.len() && rest[k] == x;
                assert(values[k] == x);
            }
            if x == values.last() {
                assert(values[values.len() - 1] == x);
            }
        }
        let fr = finite_part(rest);
        if values.last().spec_finite() {
            assert forall|x: Real| fr.push(values.last()).contains(x) <==> (fr.contains(x) || x == values.last()) by {
                if fr.push(values.last()).contains(x) {
                    let k = choose|k: int| 0 <= k < fr.len() + 1 && fr.push(values.last())[k] == x;
                    if k < fr.len() {
                        assert(fr[k] == x);
                    }
                }
                if fr.contains(x) {
                    let k = choose|k: int| 0 <= k < fr.len() && fr[k] == x;
                    assert(fr.push(values.last())[k] == x);
                }
                if x == values.last() {
                    assert(fr.push(values.last())[fr.len() as int] == x);
                }
            }
        }
        assert forall|x: Real| #[trigger] finite_part(values).contains(x) <==> (values.contains(x) && x.spec_finite()) by {
            assert(fr.contains(x) <==> (rest.contains(x) && x.spec_finite()));
        }
    }
}

/// The smallest entry of a non-empty list without NaN is one of its
/// entries, and no entry is smaller.
pub proof fn least_law(values: Seq<Real>)
    requires
        values.len() > 0,
        forall|j: int| 0 <= j < values.len() ==> !(#[trigger] values[j]).spec_nan(),
    ensures
        values.contains(least(values)),
        forall|j: int| 0 <= j < values.len() ==> least(values).order_key() <= (#[trigger] values[j]).order_key(),
    decreases values.len(),
{
    if values.len() == 1 {
        assert(values[0] == least(values));
    } else {
        let rest = values.drop_last();
        least_law(rest);
        let m = least(rest);
        let k = choose|k: int| 0 <= k < rest.len() && rest[k] == m;
        assert(values[k] == m);
        assert(values[values.len() - 1] == values.last());
        assert forall|j: int| 0 <= j < values.len() implies least(values).order_key() <= (#[trigger] values[j]).order_key() by {
            if j < values.len() - 1 {
                assert(values[j] == rest[j]);
            }
        }
    }
}

/// The greatest entry of a non-empty list without NaN is one of its
/// entries, and no entry is greater.
pub proof fn greatest_law(values: Seq<Real>)
    requires
        values.len() > 0,
        forall|j: int| 0 <= j < values.len() ==> !(#[trigger] values[j]).spec_nan(),
    ensures
        values.contains(greatest(values)),
        forall|j: int| 0 <= j < values.len() ==> (#[trigger] values[j]).order_key() <= greatest(values).order_key(),
    decreases values.len(),
{
    if values.len() == 1 {
        assert(values[0] == greatest(values));
    } else {
        let rest = values.drop_last();
        greatest_law(rest);
        let m = greatest(rest);
        let k = choose|k: int| 0 <= k < rest.len() && rest[k] == m;
        assert(values[k] == m);
        assert(values[values.len() - 1] == values.last());
        assert forall|j: int| 0 <= j < values.len() implies (#[trigger] values[j]).order_key() <= greatest(values).order_key() by {
            if j < values.len() - 1 {
                assert(values[j] == rest[j]);
            }
        }
    }
}

/// What [`finite_stats`] reports of a list: the number of its finite
/// entries; a minimum and a maximum that are finite entries of the list
/// with no finite entry below the one or above the other; and the finite
/// entries themselves. It reports nothing exactly when no entry is finite.
pub proof fn finite_stats_law(values: Seq<Real>, stats: Option<FiniteStats>)
    requires
        stats_of(values, stats),
    ensures
        stats is None <==> (forall|j: int| 0 <= j < values.len() ==> !(#[trigger] values[j]).spec_finite()),
        stats matches Some(st) ==> {
            &&& st.count <= values.len()
            &&& values.contains(st.min) && st.min.spec_finite()
            &&& values.contains(st.max) && st.max.spec_finite()
            &&& forall|j: int|
                0 <= j < values.len() && (#[trigger] values[j]).spec_finite() ==> st.min.order_key()
                    <= values[j].order_key() <= st.max.order_key()
        },
{
    finite_part_law(values);
    let f = finite_part(values);
    if stats is None {
        assert forall|j: int| 0 <= j < values.len() implies !(#[trigger] values[j]).spec_finite() by {
            if values[j].spec_finite() {
                assert(values.contains(values[j]));
                assert(f.contains(values[j]));
            }
        }
    } else {
        let k = 0int;
        assert(f.contains(f[k]));
        assert(values.contains(f[k]));
        let kk = choose|kk: int| 0 <= kk < values.len() && values[kk] == f[k];
        assert(values[kk].spec_finite());
        assert forall|j: int| 0 <= j < f.len() implies !(#[trigger] f[j]).spec_nan() by {
            assert(f[j].spec_finite());
        }
        least_law(f);
        greatest_law(f);
        assert(f.contains(least(f)));
        assert(f.contains(greatest(f)));
        assert forall|j: int| 0 <= j < values.len() && (#[trigger] values[j]).spec_finite() implies {
            let st = stats->Some_0;
            st.min.order_key() <= values[j].order_key() <= st.max.order_key()
        } by {
            assert(values.contains(values[j]));
            assert(f.contains(values[j]));
            let m = choose|m: int| 0 <= m < f.len() && f[m] == values[j];
            assert(f[m] == values[j]);
        }
    }
}

/// Appending the summary of a list's finite entries keeps a list consistent.
pub broadcast proof fn lemma_push_finite_summary_consistent(
    samples: Seq<MetricSampleView>,
    ts: i64,
    topic: Seq<char>,
    count_name: Seq<char>,
    min_name: Seq<char>,
    max_name: Seq<char>,
    mean_name: Seq<char>,
    values: Seq<Real>,
    unit: Seq<char>,
)
    requires
        samples_consistent(samples, ts, topic),
    ensures
        #[trigger] samples_consistent(
            push_finite_summary(samples, ts, topic, count_name, min_name, max_name, mean_name, values, unit),
            ts,
            topic,
        ),
{
    let finite = finite_part(values);
    finite_part_law(values);
    if finite.len() > 0 {
        let s = push_count(samples, ts, topic, count_name, finite.len() as int);
        lemma_push_count_consistent(samples, ts, topic, count_name, finite.len() as int);
        let s2 = push_finite(s, ts, topic, min_name, least(finite), unit);
        lemma_push_finite_consistent(s, ts, topic, min_name, least(finite), unit);
        let s3 = push_finite(s2, ts, topic, max_name, greatest(finite), unit);
        lemma_push_finite_consistent(s2, ts, topic, max_name, greatest(finite), unit);
        lemma_push_mean_consistent(s3, ts, topic, mean_name, finite, unit);
    }
}

/// The lemmas that keep a list of samples consistent.
pub broadcast group group_samples_consistent {
    lemma_empty_consistent,
    lemma_push_finite_consistent,
    lemma_push_integer_consistent,
    lemma_push_count_consistent,
    lemma_push_mean_consistent,
    lemma_push_finite_summary_consistent,
}

/// Stamps map to timestamps in order: with nanoseconds below one second,
/// a stamp is earlier than another exactly when its timestamp is smaller,
/// so distinct stamps never share a timestamp.
pub proof fn timestamp_order_law(sec1: i32, nanosec1: u32, sec2: i32, nanosec2: u32)
    requires
        nanosec1 < 1_000_000_000,
        nanosec2 < 1_000_000_000,
    ensures
        (stamp_nanos(sec1, nanosec1) < stamp_nanos(sec2, nanosec2)) <==> (sec1 < sec2 || (sec1 == sec2
            && nanosec1 < nanosec2)),
        (stamp_nanos(sec1, nanosec1) == stamp_nanos(sec2, nanosec2)) <==> (sec1 == sec2 && nanosec1 == nanosec2),
{
    if sec1 < sec2 {
        assert(sec1 * 1_000_000_000 + 1_000_000_000 <= sec2 * 1_000_000_000) by (nonlinear_arith)
            requires sec1 < sec2;
    } else if sec2 < sec1 {
        assert(sec2 * 1_000_000_000 + 1_000_000_000 <= sec1 * 1_000_000_000) by (nonlinear_arith)
            requires sec2 < sec1;
    }
}

} // verus!

verus! {

proof fn lemma_finite_part_counts(values: Seq<Real>)
    ensures
        forall|x: Real|
            #[trigger] finite_part(values).to_multiset().count(x) == if x.spec_finite() {
                values.to_multiset().count(x)
            } else {
                0
            },
    decreases values.len(),
{
    broadcast use vstd::seq_lib::group_to_multiset_ensures, vstd::multiset::group_multiset_axioms;
    if values.len() == 0 {
        assert(values.to_multiset().len() == 0);
        assert(finite_part(values).to_multiset().len() == 0);
        assert forall|x: Real| #[trigger] finite_part(values).to_multiset().count(x) == if x.spec_finite() {
            values.to_multiset().count(x)
        } else {
            0
        } by {
            vstd::multiset::lemma_multiset_empty_len(values.to_multiset());
            vstd::multiset::lemma_multiset_empty_len(finite_part(values).to_multiset());
        }
    } else {
        let rest = values.drop_last();
        let last = values.last();
        lemma_finite_part_counts(rest);
        assert(values =~= rest.push(last));
        assert(rest.push(last).to_multiset() =~= rest.to_multiset().insert(last));
        let fr = finite_part(rest);
        if last.spec_finite() {
            assert(fr.push(last).to_multiset() =~= fr.to_multiset().insert(last));
        }
        assert forall|x: Real| #[trigger] finite_part(values).to_multiset().count(x) == if x.spec_finite() {
            values.to_multiset().count(x)
        } else {
            0
        } by {
            assert(fr.to_multiset().count(x) == if x.spec_finite() { rest.to_multiset().count(x) } else { 0 });
        }
    }
}

/// The summary of a list does not depend on the order of its finite
/// entries, nor on entries that are not finite: two lists whose finite
/// entries agree up to order (one a permutation of the other, with any
/// number of infinities and NaNs added anywhere) both have a summary or
/// both have none, with the same count, and minima and maxima that are
/// equal as doubles.
pub proof fn finite_stats_permutation_law(
    values1: Seq<Real>,
    values2: Seq<Real>,
    stats1: Option<FiniteStats>,
    stats2: Option<FiniteStats>,
)
    requires
        forall|x: Real| x.spec_finite() ==> values1.to_multiset().count(x) == values2.to_multiset().count(x),
        stats_of(values1, stats1),
        stats_of(values2, stats2),
    ensures
        stats1 is None <==> stats2 is None,
        stats1 is Some && stats2 is Some ==> {
            &&& stats1->Some_0.count == stats2->Some_0.count
            &&& stats1->Some_0.min.spec_same_double(stats2->Some_0.min)
            &&& stats1->Some_0.max.spec_same_double(stats2->Some_0.max)
        },
{
    broadcast use vstd::seq_lib::group_to_multiset_ensures;
    let f1 = finite_part(values1);
    let f2 = finite_part(values2);
    lemma_finite_part_counts(values1);
    lemma_finite_part_counts(values2);
    finite_part_law(values1);
    finite_part_law(values2);
    assert(f1.to_multiset() =~= f2.to_multiset());
    assert(f1.to_multiset().len() == f2.to_multiset().len());
    assert(f1.len() == f2.len());
    if f1.len() > 0 {
        assert forall|j: int| 0 <= j < f1.len() implies !(#[trigger] f1[j]).spec_nan() by {
            assert(f1[j].spec_finite());
        }
        assert forall|j: int| 0 <= j < f2.len() implies !(#[trigger] f2[j]).spec_nan() by {
            assert(f2[j].spec_finite());
        }
        least_law(f1);
        least_law(f2);
        greatest_law(f1);
        greatest_law(f2);
        let (l1, l2, g1, g2) = (least(f1), least(f2), greatest(f1), greatest(f2));
        assert(f1.to_multiset().count(l1) > 0);
        assert(f2.contains(l1));
        assert(f2.to_multiset().count(l2) > 0);
        assert(f1.contains(l2));
        assert(f1.to_multiset().count(g1) > 0);
        assert(f2.contains(g1));
        assert(f2.to_multiset().count(g2) > 0);
        assert(f1.contains(g2));
        let i1 = choose|i: int| 0 <= i < f2.len() && f2[i] == l1;
        let i2 = choose|i: int| 0 <= i < f1.len() && f1[i] == l2;
        let i3 = choose|i: int| 0 <= i < f2.len() && f2[i] == g1;
        let i4 = choose|i: int| 0 <= i < f1.len() && f1[i] == g2;
        assert(l2.order_key() <= f2[i1].order_key());
        assert(l1.order_key() <= f1[i2].order_key());
        assert(f2[i3].order_key() <= g2.order_key());
        assert(f1[i4].order_key() <= g1.order_key());
        assert(!f2[i1].spec_nan() && !f1[i2].spec_nan() && !f2[i3].spec_nan() && !f1[i4].spec_nan());
    }
}

} // verus!

verus! {

/// The value of the last sample called `name`, if any sample is.
#[verifier::opaque]
pub open spec fn value_named(samples: Seq<MetricSampleView>, name: Seq<char>) -> Option<MetricValueView>
    decreases samples.len(),
{
    if samples.len() == 0 {
        None
    } else if samples.last().metric_name == name {
        Some(samples.last().metric_value)
    } else {
        value_named(samples.drop_last(), name)
    }
}

/// `m` is a smallest finite entry of `values`: an entry, finite, and not
/// above any finite entry.
pub open spec fn least_finite_entry(values: Seq<Real>, m: Real) -> bool {
    &&& values.contains(m)
    &&& m.spec_finite()
    &&& forall|j: int| 0 <= j < values.len() && (#[trigger] values[j]).spec_finite() ==> m.order_key() <= values[j].order_key()
}

/// `m` is a greatest finite entry of `values`: an entry, finite, and not
/// below any finite entry.
pub open spec fn greatest_finite_entry(values: Seq<Real>, m: Real) -> bool {
    &&& values.contains(m)
    &&& m.spec_finite()
    &&& forall|j: int| 0 <= j < values.len() && (#[trigger] values[j]).spec_finite() ==> values[j].order_key() <= m.order_key()
}

/// The summary's minimum and maximum are a smallest and a greatest finite
/// entry of the list.
pub proof fn summary_extremes_law(values: Seq<Real>)
    requires
        finite_part(values).len() > 0,
    ensures
        least_finite_entry(values, least(finite_part(values))),
        greatest_finite_entry(values, greatest(finite_part(values))),
{
    let f = finite_part(values);
    finite_part_law(values);
    assert forall|j: int| 0 <= j < f.len() implies !(#[trigger] f[j]).spec_nan() by {
        assert(f[j].spec_finite());
    }
    least_law(f);
    greatest_law(f);
    let k1 = choose|k: int| 0 <= k < f.len() && f[k] == least(f);
    let k2 = choose|k: int| 0 <= k < f.len() && f[k] == greatest(f);
    assert(f[k1].spec_finite() && f[k2].spec_finite());
    assert forall|j: int| 0 <= j < values.len() && (#[trigger] values[j]).spec_finite() implies {
        &&& least(f).order_key() <= values[j].order_key()
        &&& values[j].order_key() <= greatest(f).order_key()
    } by {
        assert(values.contains(values[j]));
        assert(f.contains(values[j]));
        let m = choose|m: int| 0 <= m < f.len() && f[m] == values[j];
        assert(f[m] == values[j]);
    }
}

/// Looking a name up after a push: the pushed sample if it has the name.
pub broadcast proof fn lemma_value_named_push(samples: Seq<MetricSampleView>, s: MetricSampleView, name: Seq<char>)
    ensures
        #[trigger] value_named(samples.push(s), name) == if s.metric_name == name {
            Some(s.metric_value)
        } else {
            value_named(samples, name)
        },
{
    reveal(value_named);
    assert(samples.push(s).drop_last() =~= samples);
}

/// Looking a name up in an empty list finds nothing.
pub broadcast proof fn lemma_value_named_empty(name: Seq<char>)
    ensures
        #[trigger] value_named(Seq::<MetricSampleView>::empty(), name) is None,
{
    reveal(value_named);
}

/// What a field of a message gives as a sample value: the reading itself
/// when it is finite, nothing otherwise.
pub open spec fn finite_reading(v: Real) -> Option<MetricValueView> {
    if v.spec_finite() {
        Some(MetricValueView::Real(v))
    } else {
        None
    }
}

/// Looking a name up after a finite-only push.
pub broadcast proof fn lemma_value_named_push_finite(
    samples: Seq<MetricSampleView>,
    ts: i64,
    topic: Seq<char>,
    metric_name: Seq<char>,
    value: Real,
    unit: Seq<char>,
    name: Seq<char>,
)
    ensures
        #[trigger] value_named(push_finite(samples, ts, topic, metric_name, value, unit), name) == if metric_name
            == name && value.spec_finite() {
            Some(MetricValueView::Real(value))
        } else {
            value_named(samples, name)
        },
{
    broadcast use lemma_value_named_push;
}

/// Looking a name up after pushing a whole number.
pub broadcast proof fn lemma_value_named_push_integer(
    samples: Seq<MetricSampleView>,
    ts: i64,
    topic: Seq<char>,
    metric_name: Seq<char>,
    value: u64,
    unit: Seq<char>,
    name: Seq<char>,
)
    ensures
        #[trigger] value_named(push_integer(samples, ts, topic, metric_name, value, unit), name) == if metric_name
            == name {
            Some(MetricValueView::Integer(value))
        } else {
            value_named(samples, name)
        },
{
    broadcast use lemma_value_named_push;
}

/// Looking a name up after pushing a count.
pub broadcast proof fn lemma_value_named_push_count(
    samples: Seq<MetricSampleView>,
    ts: i64,
    topic: Seq<char>,
    metric_name: Seq<char>,
    count: int,
    name: Seq<char>,
)
    ensures
        #[trigger] value_named(push_count(samples, ts, topic, metric_name, count), name) == if metric_name == name {
            Some(MetricValueView::Integer(count as u64))
        } else {
            value_named(samples, name)
        },
{
    broadcast use lemma_value_named_push;
}

/// Looking a name up after pushing a mean.
pub broadcast proof fn lemma_value_named_push_mean(
    samples: Seq<MetricSampleView>,
    ts: i64,
    topic: Seq<char>,
    metric_name: Seq<char>,
    values: Seq<Real>,
    unit: Seq<char>,
    name: Seq<char>,
)
    ensures
        #[trigger] value_named(push_mean(samples, ts, topic, metric_name, values, unit), name) == if metric_name
            == name {
            Some(MetricValueView::Mean(values))
        } else {
            value_named(samples, name)
        },
{
    broadcast use lemma_value_named_push;
}

/// The lemmas that look a sample up by name.
pub broadcast group group_value_named {
    lemma_value_named_empty,
    lemma_value_named_push_finite,
    lemma_value_named_push_integer,
    lemma_value_named_push_count,
    lemma_value_named_push_mean,
}

} // verus!

verus! {

/// The finite part of a list is the list filtered down to its finite
/// entries.
pub proof fn finite_part_filter_law(values: Seq<Real>)
    ensures
        finite_part(values) == values.filter(|x: Real| x.spec_finite()),
    decreases values.len(),
{
    reveal(Seq::filter);
    let p = |x: Real| x.spec_finite();
    if values.len() == 0 {
        assert(finite_part(values) =~= values.filter(p));
    } else {
        finite_part_filter_law(values.drop_last());
    }
}

/// Looking a name up after a summary of `values`: when some entry is
/// finite, the count is the number of finite entries, the minimum and
/// maximum are the least and greatest of them, the mean is taken over them;
/// when none is, nothing was added. Other names keep what they had.
pub broadcast proof fn lemma_value_named_summary(
    samples: Seq<MetricSampleView>,
    ts: i64,
    topic: Seq<char>,
    count_name: Seq<char>,
    min_name: Seq<char>,
    max_name: Seq<char>,
    mean_name: Seq<char>,
    values: Seq<Real>,
    unit: Seq<char>,
    name: Seq<char>,
)
    requires
        count_name != min_name,
        count_name != max_name,
        count_name != mean_name,
        min_name != max_name,
        min_name != mean_name,
        max_name != mean_name,
    ensures
        ({
            let f = finite_part(values);
            #[trigger] value_named(
                push_finite_summary(samples, ts, topic, count_name, min_name, max_name, mean_name, values, unit),
                name,
            ) == if f.len() > 0 && name == count_name {
                Some(MetricValueView::Integer(f.len() as u64))
            } else if f.len() > 0 && name == min_name {
                Some(MetricValueView::Real(least(f)))
            } else if f.len() > 0 && name == max_name {
                Some(MetricValueView::Real(greatest(f)))
            } else if f.len() > 0 && name == mean_name {
                Some(MetricValueView::Mean(f))
            } else {
                value_named(samples, name)
            }
        }),
{
    broadcast use group_value_named;
    let f = finite_part(values);
    if f.len() > 0 {
        summary_extremes_law(values);
    }
}

} // verus!

verus! {

/// The samples report the extent of the finite entries of `values` under
/// the three names: when some entry is finite, the minimum and maximum are a
/// least and a greatest finite entry, and the mean is taken over the finite
/// entries in order; when none is, no sample has any of the three names.
pub open spec fn reports_finite_extent(
    samples: Seq<MetricSampleView>,
    min_name: Seq<char>,
    max_name: Seq<char>,
    mean_name: Seq<char>,
    values: Seq<Real>,
) -> bool {
    let finite = values.filter(|x: Real| x.spec_finite());
    if finite.len() == 0 {
        &&& value_named(samples, min_name) is None
        &&& value_named(samples, max_name) is None
        &&& value_named(samples, mean_name) is None
    } else {
        &&& exists|m: Real|
            value_named(samples, min_name) == Some(MetricValueView::Real(m)) && least_finite_entry(values, m)
        &&& exists|m: Real|
            value_named(samples, max_name) == Some(MetricValueView::Real(m)) && greatest_finite_entry(values, m)
        &&& value_named(samples, mean_name) == Some(MetricValueView::Mean(finite))
    }
}

/// The samples report a summary of the finite entries of `values` under the
/// four names: the extent of the finite entries, as above, and under
/// `count_name` the number of finite entries when there is one, nothing when
/// there is none.
pub open spec fn reports_finite_summary(
    samples: Seq<MetricSampleView>,
    count_name: Seq<char>,
    min_name: Seq<char>,
    max_name: Seq<char>,
    mean_name: Seq<char>,
    values: Seq<Real>,
) -> bool {
    let finite = values.filter(|x: Real| x.spec_finite());
    &&& value_named(samples, count_name) == if finite.len() == 0 {
        None
    } else {
        Some(MetricValueView::Integer(finite.len() as u64))
    }
    &&& reports_finite_extent(samples, min_name, max_name, mean_name, values)
}

} // verus!
