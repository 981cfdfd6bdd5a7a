use vstd::prelude::*;
use crate::value::{MetricValue, MetricValueView};

verus! {

/// One metric measurement, as stored in the `metric_samples` table.
#[derive(Clone, Debug, PartialEq)]
pub struct MetricSample {
    pub timestamp_ns: i64,
    pub source_topic: String,
    pub metric_name: String,
    pub metric_value: MetricValue,
    pub unit: String,
    pub quality: String,
}

/// The mathematical content of a [`MetricSample`].
pub struct MetricSampleView {
    pub timestamp_ns: i64,
    pub source_topic: Seq<char>,
    pub metric_name: Seq<char>,
    pub metric_value: MetricValueView,
    pub unit: Seq<char>,
    pub quality: Seq<char>,
}

impl View for MetricSample {
    type V = MetricSampleView;

    open spec fn view(&self) -> MetricSampleView {
        MetricSampleView {
            timestamp_ns: self.timestamp_ns,
            source_topic: self.source_topic@,
            metric_name: self.metric_name@,
            metric_value: self.metric_value@,
            unit: self.unit@,
            quality: self.quality@,
        }
    }
}

/// The views of a sequence of samples, in order.
pub open spec fn sample_views(samples: Seq<MetricSample>) -> Seq<MetricSampleView> {
    samples.map_values(|s: MetricSample| s@)
}

/// One log event, as stored in the `event_logs` table.
#[derive(Clone, Debug, PartialEq)]
pub struct EventLog {
    pub timestamp_ns: i64,
    pub source_topic: String,
    pub logger_name: String,
    pub severity: i64,
    pub message: String,
    pub file: Option<String>,
    pub function_name: Option<String>,
    pub line: Option<i64>,
}

/// The mathematical content of an optional string.
pub open spec fn optional_view(value: Option<String>) -> Option<Seq<char>> {
    match value {
        Some(s) => Some(s@),
        None => None,
    }
}

/// The mathematical content of an [`EventLog`].
pub struct EventLogView {
    pub timestamp_ns: i64,
    pub source_topic: Seq<char>,
    pub logger_name: Seq<char>,
    pub severity: i64,
    pub message: Seq<char>,
    pub file: Option<Seq<char>>,
    pub function_name: Option<Seq<char>>,
    pub line: Option<i64>,
}

impl View for EventLog {
    type V = EventLogView;

    open spec fn view(&self) -> EventLogView {
        EventLogView {
            timestamp_ns: self.timestamp_ns,
            source_topic: self.source_topic@,
            logger_name: self.logger_name@,
            severity: self.severity,
            message: self.message@,
            file: optional_view(self.file),
            function_name: optional_view(self.function_name),
            line: self.line,
        }
    }
}

} // verus!
