use vstd::prelude::*;
use crate::collectors::common::{
    group_samples_consistent, sample, sample_view, samples_consistent, stamp_nanos, timestamp_ns,
};
use crate::messages::Log;
use crate::records::{sample_views, EventLog, EventLogView, MetricSample, MetricSampleView};
use crate::value::{MetricValue, MetricValueView};

verus! {

/// `None` for an empty string, the string itself otherwise.
pub open spec fn optional_text(value: Seq<char>) -> Option<Seq<char>> {
    if value.len() == 0 {
        None
    } else {
        Some(value)
    }
}

/// Maps an empty string to `None`, keeping any other string.
pub fn optional_string(value: String) -> (res: Option<String>)
    ensures
        match res {
            None => value@.len() == 0,
            Some(s) => value@.len() > 0 && s@ == value@,
        },
{
    if value.as_str().is_empty() {
        None
    } else {
        Some(value)
    }
}

/// The event record of a log message.
pub open spec fn rosout_event(msg: Log, topic: Seq<char>) -> EventLogView {
    EventLogView {
        timestamp_ns: stamp_nanos(msg.stamp.sec, msg.stamp.nanosec) as i64,
        source_topic: topic,
        logger_name: msg.name@,
        severity: msg.level as i64,
        message: msg.msg@,
        file: optional_text(msg.file@),
        function_name: optional_text(msg.function@),
        line: Some(msg.line as i64),
    }
}

/// Builds the event record of an `rcl_interfaces/Log` message: its stamp,
/// logger name, severity level and text; the file and function name when
/// they are not empty; and the line.
pub fn extract_rosout_event(msg: &Log, source_topic: &str) -> (event: EventLog)
    ensures
        event@ == rosout_event(*msg, source_topic@),
{
    EventLog {
        timestamp_ns: timestamp_ns(msg.stamp.sec, msg.stamp.nanosec),
        source_topic: source_topic.to_owned(),
        logger_name: msg.name.clone(),
        severity: msg.level as i64,
        message: msg.msg.clone(),
        file: optional_string(msg.file.clone()),
        function_name: optional_string(msg.function.clone()),
        line: Some(msg.line as i64),
    }
}

/// The one sample of a log message: its severity level (unit `level`).
pub open spec fn rosout_metrics(msg: Log, topic: Seq<char>) -> Seq<MetricSampleView> {
    seq![
        sample_view(
            stamp_nanos(msg.stamp.sec, msg.stamp.nanosec) as i64,
            topic,
            "rosout_severity"@,
            MetricValueView::Integer(msg.level as u64),
            "level"@,
        ),
    ]
}

/// Extracts the metric samples of an `rcl_interfaces/Log` message.
pub fn extract_rosout_metrics(msg: &Log, source_topic: &str) -> (samples: Vec<MetricSample>)
    ensures
        sample_views(samples@) == rosout_metrics(*msg, source_topic@),
{
    let s = sample(
        timestamp_ns(msg.stamp.sec, msg.stamp.nanosec),
        source_topic,
        "rosout_severity",
        MetricValue::Integer(msg.level as u64),
        "level",
    );
    let samples = vec![s];
    proof {
        assert(sample_views(samples@) =~= rosout_metrics(*msg, source_topic@));
    }
    samples
}

/// The log sample carries the message's stamp, the topic it came from,
/// quality `ok`, and a finite value.
pub proof fn rosout_samples_consistent(msg: Log, topic: Seq<char>)
    ensures
        samples_consistent(rosout_metrics(msg, topic), stamp_nanos(msg.stamp.sec, msg.stamp.nanosec) as i64, topic),
{
    broadcast use group_samples_consistent;
}

/// An empty text becomes no value and any other text is kept whole, so the
/// text is recovered by reading no value as the empty text.
pub proof fn optional_text_law(value: Seq<char>)
    ensures
        match optional_text(value) {
            None => value =~= Seq::<char>::empty(),
            Some(t) => t == value && t.len() > 0,
        },
{
}

} // verus!

verus! {

/// A log message gives one sample, `rosout_severity`, holding its level,
/// and an event that carries the same stamp, topic and level, with the
/// logger name and text of the message.
pub proof fn rosout_law(msg: Log, topic: Seq<char>)
    ensures
        ({
            let s = rosout_metrics(msg, topic);
            let e = rosout_event(msg, topic);
            &&& s.len() == 1
            &&& s[0].metric_name == "rosout_severity"@
            &&& s[0].metric_value == MetricValueView::Integer(msg.level as u64)
            &&& s[0].timestamp_ns == e.timestamp_ns
            &&& s[0].source_topic == e.source_topic
            &&& e.timestamp_ns == stamp_nanos(msg.stamp.sec, msg.stamp.nanosec) as i64
            &&& e.source_topic == topic
            &&& e.severity == msg.level as i64
            &&& e.logger_name == msg.name@
            &&& e.message == msg.msg@
            &&& e.line == Some(msg.line as i64)
        }),
{
}

} // verus!
