use vstd::prelude::*;
use crate::collectors::common::{
    finite_stats, push_count_sample, push_finite, push_finite_sample, push_finite_summary,
    push_integer, push_integer_sample, push_mean_sample, stamp_nanos, timestamp_ns,
    group_samples_consistent, samples_consistent,
};
use crate::messages::BatteryState;
use crate::records::{sample_views, MetricSample, MetricSampleView};
use crate::collectors::common::{
    finite_part, finite_part_filter_law, finite_reading, group_value_named, lemma_value_named_summary,
    reports_finite_summary, summary_extremes_law, value_named,
};
use crate::value::MetricValueView;

verus! {

/// The samples of a battery state message: the scalar readings that are
/// finite, the three status codes and the presence flag, then a summary of
/// the finite cell voltages and one of the finite cell temperatures.
pub open spec fn battery_metrics(msg: BatteryState, topic: Seq<char>) -> Seq<MetricSampleView> {
    let ts = stamp_nanos(msg.stamp.sec, msg.stamp.nanosec) as i64;
    let s = Seq::empty();
    let s = push_finite(s, ts, topic, "battery_voltage"@, msg.voltage, "V"@);
    let s = push_finite(s, ts, topic, "battery_current"@, msg.current, "A"@);
    let s = push_finite(s, ts, topic, "battery_temperature"@, msg.temperature, "C"@);
    let s = push_finite(s, ts, topic, "battery_charge"@, msg.charge, "Ah"@);
    let s = push_finite(s, ts, topic, "battery_capacity"@, msg.capacity, "Ah"@);
    let s = push_finite(s, ts, topic, "battery_design_capacity"@, msg.design_capacity, "Ah"@);
    let s = push_finite(s, ts, topic, "battery_percentage"@, msg.percentage, "ratio"@);
    let s = push_integer(s, ts, topic, "battery_power_supply_status"@, msg.power_supply_status as u64, "code"@);
    let s = push_integer(s, ts, topic, "battery_power_supply_health"@, msg.power_supply_health as u64, "code"@);
    let s = push_integer(s, ts, topic, "battery_power_supply_technology"@, msg.power_supply_technology as u64, "code"@);
    let s = push_integer(s, ts, topic, "battery_present"@, if msg.present { 1u64 } else { 0u64 }, "bool"@);
    let s = push_finite_summary(
        s,
        ts,
        topic,
        "battery_cell_voltage_count"@,
        "battery_cell_voltage_min"@,
        "battery_cell_voltage_max"@,
        "battery_cell_voltage_mean"@,
        msg.cell_voltage@,
        "V"@,
    );
    push_finite_summary(
        s,
        ts,
        topic,
        "battery_cell_temperature_count"@,
        "battery_cell_temperature_min"@,
        "battery_cell_temperature_max"@,
        "battery_cell_temperature_mean"@,
        msg.cell_temperature@,
        "C"@,
    )
}

/// Extracts the metric samples of a `sensor_msgs/BatteryState` message.
pub fn extract_battery_metrics(msg: &BatteryState, source_topic: &str) -> (samples: Vec<MetricSample>)
    ensures
        sample_views(samples@) == battery_metrics(*msg, source_topic@),
{
    let ts = timestamp_ns(msg.stamp.sec, msg.stamp.nanosec);
    let mut samples: Vec<MetricSample> = Vec::with_capacity(19);
    proof {
        assert(sample_views(samples@) =~= Seq::empty());
    }
    push_finite_sample(&mut samples, ts, source_topic, "battery_voltage", msg.voltage, "V");
    push_finite_sample(&mut samples, ts, source_topic, "battery_current", msg.current, "A");
    push_finite_sample(&mut samples, ts, source_topic, "battery_temperature", msg.temperature, "C");
    push_finite_sample(&mut samples, ts, source_topic, "battery_charge", msg.charge, "Ah");
    push_finite_sample(&mut samples, ts, source_topic, "battery_capacity", msg.capacity, "Ah");
    push_finite_sample(&mut samples, ts, source_topic, "battery_design_capacity", msg.design_capacity, "Ah");
    push_finite_sample(&mut samples, ts, source_topic, "battery_percentage", msg.percentage, "ratio");
    push_integer_sample(&mut samples, ts, source_topic, "battery_power_supply_status", msg.power_supply_status as u64, "code");
    push_integer_sample(&mut samples, ts, source_topic, "battery_power_supply_health", msg.power_supply_health as u64, "code");
    push_integer_sample(
        &mut samples,
        ts,
        source_topic,
        "battery_power_supply_technology",
        msg.power_supply_technology as u64,
        "code",
    );
    let present: u64 = if msg.present { 1 } else { 0 };
    push_integer_sample(&mut samples, ts, source_topic, "battery_present", present, "bool");

    if let Some(stats) = finite_stats(&msg.cell_voltage) {
        push_count_sample(&mut samples, ts, source_topic, "battery_cell_voltage_count", stats.count);
        push_finite_sample(&mut samples, ts, source_topic, "battery_cell_voltage_min", stats.min, "V");
        push_finite_sample(&mut samples, ts, source_topic, "battery_cell_voltage_max", stats.max, "V");
        push_mean_sample(&mut samples, ts, source_topic, "battery_cell_voltage_mean", stats.finite_values, "V");
    }

    if let Some(stats) = finite_stats(&msg.cell_temperature) {
        push_count_sample(&mut samples, ts, source_topic, "battery_cell_temperature_count", stats.count);
        push_finite_sample(&mut samples, ts, source_topic, "battery_cell_temperature_min", stats.min, "C");
        push_finite_sample(&mut samples, ts, source_topic, "battery_cell_temperature_max", stats.max, "C");
        push_mean_sample(&mut samples, ts, source_topic, "battery_cell_temperature_mean", stats.finite_values, "C");
    }

    samples
}

/// Every battery sample carries the message's stamp, the topic it came
/// from, quality `ok`, and a value built from finite inputs.
pub proof fn battery_samples_consistent(msg: BatteryState, topic: Seq<char>)
    ensures
        samples_consistent(battery_metrics(msg, topic), stamp_nanos(msg.stamp.sec, msg.stamp.nanosec) as i64, topic),
{
    broadcast use group_samples_consistent;
}

} // verus!

verus! {

/// The sample named after each reading of the message holds that reading:
/// `battery_voltage` holds `voltage`, and so on for the seven scalar
/// readings, each present only when finite; the three status codes are
/// always reported as whole numbers, and `battery_present` is 1 exactly when
/// the battery is present, else 0.
pub proof fn battery_fields_law(msg: BatteryState, topic: Seq<char>)
    ensures
        ({
            let s = battery_metrics(msg, topic);
            &&& value_named(s, "battery_voltage"@) == finite_reading(msg.voltage)
            &&& value_named(s, "battery_current"@) == finite_reading(msg.current)
            &&& value_named(s, "battery_temperature"@) == finite_reading(msg.temperature)
            &&& value_named(s, "battery_charge"@) == finite_reading(msg.charge)
            &&& value_named(s, "battery_capacity"@) == finite_reading(msg.capacity)
            &&& value_named(s, "battery_design_capacity"@) == finite_reading(msg.design_capacity)
            &&& value_named(s, "battery_percentage"@) == finite_reading(msg.percentage)
            &&& value_named(s, "battery_power_supply_status"@) == Some(MetricValueView::Integer(msg.power_supply_status as u64))
            &&& value_named(s, "battery_power_supply_health"@) == Some(MetricValueView::Integer(msg.power_supply_health as u64))
            &&& value_named(s, "battery_power_supply_technology"@) == Some(MetricValueView::Integer(msg.power_supply_technology as u64))
            &&& value_named(s, "battery_present"@) == Some(MetricValueView::Integer(if msg.present { 1u64 } else { 0u64 }))
        }),
{
    broadcast use group_value_named, lemma_value_named_summary;
    reveal_strlit("battery_voltage");
    assert("battery_voltage"@.len() == 15 && "battery_voltage"@[8] == 'v');
    reveal_strlit("battery_current");
    assert("battery_current"@.len() == 15 && "battery_current"@[8] == 'c');
    reveal_strlit("battery_temperature");
    assert("battery_temperature"@.len() == 19 && "battery_temperature"@[8] == 't');
    reveal_strlit("battery_charge");
    assert("battery_charge"@.len() == 14 && "battery_charge"@[8] == 'c');
    reveal_strlit("battery_capacity");
    assert("battery_capacity"@.len() == 16 && "battery_capacity"@[8] == 'c');
    reveal_strlit("battery_design_capacity");
    assert("battery_design_capacity"@.len() == 23
        && "battery_design_capacity"@[8] == 'd'
        && "battery_design_capacity"@[22] == 'y');
    reveal_strlit("battery_percentage");
    assert("battery_percentage"@.len() == 18 && "battery_percentage"@[8] == 'p');
    reveal_strlit("battery_power_supply_status");
    assert("battery_power_supply_status"@.len() == 27
        && "battery_power_supply_status"@[8] == 'p'
        && "battery_power_supply_status"@[22] == 't'
        && "battery_power_supply_status"@[26] == 's');
    reveal_strlit("battery_power_supply_health");
    assert("battery_power_supply_health"@.len() == 27
        && "battery_power_supply_health"@[8] == 'p'
        && "battery_power_supply_health"@[22] == 'e'
        && "battery_power_supply_health"@[26] == 'h');
    reveal_strlit("battery_power_supply_technology");
    assert("battery_power_supply_technology"@.len() == 31
        && "battery_power_supply_technology"@[8] == 'p'
        && "battery_power_supply_technology"@[22] == 'e'
        && "battery_power_supply_technology"@[26] == 'o');
    reveal_strlit("battery_present");
    assert("battery_present"@.len() == 15 && "battery_present"@[8] == 'p');
    reveal_strlit("battery_cell_voltage_count");
    assert("battery_cell_voltage_count"@.len() == 26
        && "battery_cell_voltage_count"@[8] == 'c'
        && "battery_cell_voltage_count"@[22] == 'o');
    reveal_strlit("battery_cell_voltage_min");
    assert("battery_cell_voltage_min"@.len() == 24
        && "battery_cell_voltage_min"@[8] == 'c'
        && "battery_cell_voltage_min"@[22] == 'i');
    reveal_strlit("battery_cell_voltage_max");
    assert("battery_cell_voltage_max"@.len() == 24
        && "battery_cell_voltage_max"@[8] == 'c'
        && "battery_cell_voltage_max"@[22] == 'a');
    reveal_strlit("battery_cell_voltage_mean");
    assert("battery_cell_voltage_mean"@.len() == 25
        && "battery_cell_voltage_mean"@[8] == 'c'
        && "battery_cell_voltage_mean"@[22] == 'e');
    reveal_strlit("battery_cell_temperature_count");
    assert("battery_cell_temperature_count"@.len() == 30
        && "battery_cell_temperature_count"@[8] == 'c'
        && "battery_cell_temperature_count"@[22] == 'r'
        && "battery_cell_temperature_count"@[26] == 'o');
    reveal_strlit("battery_cell_temperature_min");
    assert("battery_cell_temperature_min"@.len() == 28
        && "battery_cell_temperature_min"@[8] == 'c'
        && "battery_cell_temperature_min"@[22] == 'r'
        && "battery_cell_temperature_min"@[26] == 'i');
    reveal_strlit("battery_cell_temperature_max");
    assert("battery_cell_temperature_max"@.len() == 28
        && "battery_cell_temperature_max"@[8] == 'c'
        && "battery_cell_temperature_max"@[22] == 'r'
        && "battery_cell_temperature_max"@[26] == 'a');
    reveal_strlit("battery_cell_temperature_mean");
    assert("battery_cell_temperature_mean"@.len() == 29
        && "battery_cell_temperature_mean"@[8] == 'c'
        && "battery_cell_temperature_mean"@[22] == 'r'
        && "battery_cell_temperature_mean"@[26] == 'e');
}

/// The cell summaries come from their own lists: the voltage summary from
/// the cell voltages and the temperature summary from the cell
/// temperatures. When some entry is finite, its count is the number of
/// finite entries and its minimum and maximum are a least and a greatest
/// finite entry, with the mean over the finite entries; when none is, the
/// summary has no sample.
pub proof fn battery_cells_law(msg: BatteryState, topic: Seq<char>)
    ensures
        reports_finite_summary(
            battery_metrics(msg, topic),
            "battery_cell_voltage_count"@,
            "battery_cell_voltage_min"@,
            "battery_cell_voltage_max"@,
            "battery_cell_voltage_mean"@,
            msg.cell_voltage@,
        ),
        reports_finite_summary(
            battery_metrics(msg, topic),
            "battery_cell_temperature_count"@,
            "battery_cell_temperature_min"@,
            "battery_cell_temperature_max"@,
            "battery_cell_temperature_mean"@,
            msg.cell_temperature@,
        ),
{
    broadcast use group_value_named, lemma_value_named_summary;
    reveal_strlit("battery_voltage");
    assert("battery_voltage"@.len() == 15 && "battery_voltage"@[8] == 'v');
    reveal_strlit("battery_current");
    assert("battery_current"@.len() == 15 && "battery_current"@[8] == 'c');
    reveal_strlit("battery_temperature");
    assert("battery_temperature"@.len() == 19 && "battery_temperature"@[8] == 't');
    reveal_strlit("battery_charge");
    assert("battery_charge"@.len() == 14 && "battery_charge"@[8] == 'c');
    reveal_strlit("battery_capacity");
    assert("battery_capacity"@.len() == 16 && "battery_capacity"@[8] == 'c');
    reveal_strlit("battery_design_capacity");
    assert("battery_design_capacity"@.len() == 23
        && "battery_design_capacity"@[8] == 'd'
        && "battery_design_capacity"@[22] == 'y');
    reveal_strlit("battery_percentage");
    assert("battery_percentage"@.len() == 18 && "battery_percentage"@[8] == 'p');
    reveal_strlit("battery_power_supply_status");
    assert("battery_power_supply_status"@.len() == 27
        && "battery_power_supply_status"@[8] == 'p'
        && "battery_power_supply_status"@[22] == 't'
        && "battery_power_supply_status"@[26] == 's');
    reveal_strlit("battery_power_supply_health");
    assert("battery_power_supply_health"@.len() == 27
        && "battery_power_supply_health"@[8] == 'p'
        && "battery_power_supply_health"@[22] == 'e'
        && "battery_power_supply_health"@[26] == 'h');
    reveal_strlit("battery_power_supply_technology");
    assert("battery_power_supply_technology"@.len() == 31
        && "battery_power_supply_technology"@[8] == 'p'
        && "battery_power_supply_technology"@[22] == 'e'
        && "battery_power_supply_technology"@[26] == 'o');
    reveal_strlit("battery_present");
    assert("battery_present"@.len() == 15 && "battery_present"@[8] == 'p');
    reveal_strlit("battery_cell_voltage_count");
    assert("battery_cell_voltage_count"@.len() == 26
        && "battery_cell_voltage_count"@[8] == 'c'
        && "battery_cell_voltage_count"@[22] == 'o');
    reveal_strlit("battery_cell_voltage_min");
    assert("battery_cell_voltage_min"@.len() == 24
        && "battery_cell_voltage_min"@[8] == 'c'
        && "battery_cell_voltage_min"@[22] == 'i');
    reveal_strlit("battery_cell_voltage_max");
    assert("battery_cell_voltage_max"@.len() == 24
        && "battery_cell_voltage_max"@[8] == 'c'
        && "battery_cell_voltage_max"@[22] == 'a');
    reveal_strlit("battery_cell_voltage_mean");
    assert("battery_cell_voltage_mean"@.len() == 25
        && "battery_cell_voltage_mean"@[8] == 'c'
        && "battery_cell_voltage_mean"@[22] == 'e');
    reveal_strlit("battery_cell_temperature_count");
    assert("battery_cell_temperature_count"@.len() == 30
        && "battery_cell_temperature_count"@[8] == 'c'
        && "battery_cell_temperature_count"@[22] == 'r'
        && "battery_cell_temperature_count"@[26] == 'o');
    reveal_strlit("battery_cell_temperature_min");
    assert("battery_cell_temperature_min"@.len() == 28
        && "battery_cell_temperature_min"@[8] == 'c'
        && "battery_cell_temperature_min"@[22] == 'r'
        && "battery_cell_temperature_min"@[26] == 'i');
    reveal_strlit("battery_cell_temperature_max");
    assert("battery_cell_temperature_max"@.len() == 28
        && "battery_cell_temperature_max"@[8] == 'c'
        && "battery_cell_temperature_max"@[22] == 'r'
        && "battery_cell_temperature_max"@[26] == 'a');
    reveal_strlit("battery_cell_temperature_mean");
    assert("battery_cell_temperature_mean"@.len() == 29
        && "battery_cell_temperature_mean"@[8] == 'c'
        && "battery_cell_temperature_mean"@[22] == 'r'
        && "battery_cell_temperature_mean"@[26] == 'e');
    finite_part_filter_law(msg.cell_voltage@);
    finite_part_filter_law(msg.cell_temperature@);
    if finite_part(msg.cell_voltage@).len() > 0 {
        summary_extremes_law(msg.cell_voltage@);
    }
    if finite_part(msg.cell_temperature@).len() > 0 {
        summary_extremes_law(msg.cell_temperature@);
    }
}

} // verus!
