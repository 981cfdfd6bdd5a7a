use robot_telemetry_server::collectors::battery::extract_battery_metrics;
use robot_telemetry_server::collectors::common::{
    current_timestamp_ns, finite_stats, push_count_sample, push_finite_sample, sample,
    settle_mean_sample, timestamp_from_clock, timestamp_ns,
};
use robot_telemetry_server::collectors::imu::extract_imu_metrics;
use robot_telemetry_server::collectors::odom::extract_odom_metrics;
use robot_telemetry_server::collectors::rosout::{
    extract_rosout_event, extract_rosout_metrics, optional_string,
};
use robot_telemetry_server::collectors::scan::extract_scan_metrics;
use robot_telemetry_server::collectors::tf::{extract_tf_metrics, extract_tf_metrics_at, rotation_angle};
use robot_telemetry_server::collectors::twist::extract_twist_metrics;
use robot_telemetry_server::messages::{
    BatteryState, Imu, LaserScan, Log, Odometry, Quaternion, TfMessage, Time, TransformSummary,
    Twist, Vector3,
};
use robot_telemetry_server::records::MetricSample;
use robot_telemetry_server::value::{MetricValue, Real};

fn r(x: f64) -> Real {
    Real { bits: x.to_bits() }
}

fn v3(x: f64, y: f64, z: f64) -> Vector3 {
    Vector3 { x: r(x), y: r(y), z: r(z) }
}

fn q(x: f64, y: f64, z: f64, w: f64) -> Quaternion {
    Quaternion { x: r(x), y: r(y), z: r(z), w: r(w) }
}

fn names(samples: &[MetricSample]) -> Vec<&str> {
    samples.iter().map(|s| s.metric_name.as_str()).collect()
}

fn find<'a>(samples: &'a [MetricSample], name: &str) -> &'a MetricSample {
    samples.iter().find(|s| s.metric_name == name).expect("sample present")
}

fn real_of(s: &MetricSample) -> f64 {
    match s.metric_value {
        MetricValue::Real(v) => f64::from_bits(v.bits),
        ref other => panic!("not a real value: {:?}", other),
    }
}

fn integer_of(s: &MetricSample) -> u64 {
    match s.metric_value {
        MetricValue::Integer(n) => n,
        ref other => panic!("not an integer value: {:?}", other),
    }
}

fn mean_inputs(s: &MetricSample) -> Vec<f64> {
    match &s.metric_value {
        MetricValue::Mean(values) => values.iter().map(|v| f64::from_bits(v.bits)).collect(),
        other => panic!("not a mean: {:?}", other),
    }
}

fn assert_stamped(samples: &[MetricSample], ts: i64, topic: &str) {
    for s in samples {
        assert_eq!(s.timestamp_ns, ts);
        assert_eq!(s.source_topic, topic);
        assert_eq!(s.quality, "ok");
    }
}

#[test]
fn timestamp_combines_seconds_and_nanoseconds() {
    assert_eq!(timestamp_ns(1, 500), 1_000_000_500);
    assert_eq!(timestamp_ns(0, 0), 0);
    assert_eq!(timestamp_ns(-1, 0), -1_000_000_000);
    assert_eq!(timestamp_ns(i32::MAX, u32::MAX), 2_147_483_647_000_000_000 + 4_294_967_295);
    assert_eq!(timestamp_ns(i32::MIN, 0), -2_147_483_648_000_000_000);
}

#[test]
fn timestamp_order_follows_stamps() {
    assert!(timestamp_ns(5, 999_999_999) < timestamp_ns(6, 0));
    assert!(timestamp_ns(-2, 5) < timestamp_ns(-1, 0));
    assert_ne!(timestamp_ns(1, 0), timestamp_ns(0, 999_999_999));
}

#[test]
fn clock_reading_conversion() {
    assert_eq!(timestamp_from_clock(None), 0);
    assert_eq!(timestamp_from_clock(Some(42)), 42);
    assert_eq!(timestamp_from_clock(Some(i64::MAX as u128)), i64::MAX);
    assert_eq!(timestamp_from_clock(Some(i64::MAX as u128 + 1)), i64::MAX);
    assert_eq!(timestamp_from_clock(Some(u128::MAX)), i64::MAX);
}

#[test]
fn current_time_is_after_the_epoch() {
    let now = current_timestamp_ns();
    // 2020-01-01 in nanoseconds: any working clock reads later.
    assert!(now > 1_577_836_800_000_000_000);
}

#[test]
fn sample_has_quality_ok() {
    let s = sample(7, "/x", "m", MetricValue::Integer(3), "u");
    assert_eq!(s.timestamp_ns, 7);
    assert_eq!(s.source_topic, "/x");
    assert_eq!(s.metric_name, "m");
    assert_eq!(s.metric_value, MetricValue::Integer(3));
    assert_eq!(s.unit, "u");
    assert_eq!(s.quality, "ok");
}

#[test]
fn push_finite_sample_skips_non_finite_values() {
    let mut samples = Vec::new();
    push_finite_sample(&mut samples, 1, "/t", "a", r(1.5), "m");
    push_finite_sample(&mut samples, 1, "/t", "b", r(f64::NAN), "m");
    push_finite_sample(&mut samples, 1, "/t", "c", r(f64::INFINITY), "m");
    push_finite_sample(&mut samples, 1, "/t", "d", r(f64::NEG_INFINITY), "m");
    push_finite_sample(&mut samples, 1, "/t", "e", r(-0.0), "m");
    assert_eq!(names(&samples), vec!["a", "e"]);
    assert_eq!(real_of(&samples[0]), 1.5);
}

#[test]
fn push_count_sample_uses_count_unit() {
    let mut samples = Vec::new();
    push_count_sample(&mut samples, 3, "/t", "n", 12);
    assert_eq!(samples.len(), 1);
    assert_eq!(samples[0].unit, "count");
    assert_eq!(integer_of(&samples[0]), 12);
}

#[test]
fn finite_stats_of_mixed_values() {
    let values = vec![r(2.0), r(f64::NAN), r(-1.0), r(f64::INFINITY), r(5.0)];
    let stats = finite_stats(&values).expect("some finite values");
    assert_eq!(stats.count, 3);
    assert_eq!(f64::from_bits(stats.min.bits), -1.0);
    assert_eq!(f64::from_bits(stats.max.bits), 5.0);
    let finite: Vec<f64> = stats.finite_values.iter().map(|v| f64::from_bits(v.bits)).collect();
    assert_eq!(finite, vec![2.0, -1.0, 5.0]);
}

#[test]
fn finite_stats_of_no_finite_values() {
    assert!(finite_stats(&vec![]).is_none());
    assert!(finite_stats(&vec![r(f64::NAN), r(f64::INFINITY)]).is_none());
}

#[test]
fn finite_stats_bounds_every_finite_value() {
    let raw = [3.5, -7.25, 0.0, 1e300, -1e-300, f64::NAN, 42.0];
    let values: Vec<Real> = raw.iter().map(|&x| r(x)).collect();
    let stats = finite_stats(&values).unwrap();
    let (min, max) = (f64::from_bits(stats.min.bits), f64::from_bits(stats.max.bits));
    for x in raw.iter().filter(|x| x.is_finite()) {
        assert!(min <= *x && *x <= max);
    }
    assert!(raw.contains(&min) && raw.contains(&max));
    assert_eq!(stats.count, 6);
}

#[test]
fn odom_extracts_thirteen_finite_fields() {
    let msg = Odometry {
        stamp: Time { sec: 10, nanosec: 20 },
        position: v3(1.0, 2.0, 3.0),
        orientation: q(0.0, 0.0, 0.0, 1.0),
        linear: v3(0.5, 0.0, 0.0),
        angular: v3(0.0, 0.0, -0.25),
    };
    let samples = extract_odom_metrics(&msg, "/odom");
    assert_eq!(
        names(&samples),
        vec![
            "odom_position_x",
            "odom_position_y",
            "odom_position_z",
            "odom_orientation_x",
            "odom_orientation_y",
            "odom_orientation_z",
            "odom_orientation_w",
            "odom_linear_x",
            "odom_linear_y",
            "odom_linear_z",
            "odom_angular_x",
            "odom_angular_y",
            "odom_angular_z",
        ]
    );
    assert_stamped(&samples, 10_000_000_020, "/odom");
    assert_eq!(find(&samples, "odom_position_y").unit, "m");
    assert_eq!(find(&samples, "odom_orientation_w").unit, "quaternion");
    assert_eq!(find(&samples, "odom_linear_x").unit, "m/s");
    assert_eq!(find(&samples, "odom_angular_z").unit, "rad/s");
    assert_eq!(real_of(find(&samples, "odom_angular_z")), -0.25);
}

#[test]
fn odom_drops_non_finite_fields() {
    let msg = Odometry {
        stamp: Time { sec: 0, nanosec: 0 },
        position: v3(f64::NAN, 2.0, f64::INFINITY),
        orientation: q(0.0, 0.0, 0.0, 1.0),
        linear: v3(0.5, 0.0, 0.0),
        angular: v3(0.0, 0.0, 0.0),
    };
    let samples = extract_odom_metrics(&msg, "/odom");
    assert_eq!(samples.len(), 11);
    assert_eq!(samples[0].metric_name, "odom_position_y");
}

#[test]
fn imu_extracts_ten_fields() {
    let msg = Imu {
        stamp: Time { sec: 1, nanosec: 2 },
        orientation: q(0.0, 0.0, 0.0, 1.0),
        angular_velocity: v3(0.1, 0.2, 0.3),
        linear_acceleration: v3(0.0, 0.0, 9.81),
    };
    let samples = extract_imu_metrics(&msg, "/imu");
    assert_eq!(samples.len(), 10);
    assert_stamped(&samples, 1_000_000_002, "/imu");
    assert_eq!(real_of(find(&samples, "imu_linear_acceleration_z")), 9.81);
    assert_eq!(find(&samples, "imu_linear_acceleration_z").unit, "m/s^2");
    assert_eq!(find(&samples, "imu_angular_velocity_y").unit, "rad/s");
}

#[test]
fn twist_uses_given_timestamp() {
    let msg = Twist { linear: v3(1.0, f64::NAN, 0.0), angular: v3(0.0, 0.0, 0.5) };
    let samples = extract_twist_metrics(&msg, "/cmd_vel", 99);
    assert_eq!(
        names(&samples),
        vec!["cmd_vel_linear_x", "cmd_vel_linear_z", "cmd_vel_angular_x", "cmd_vel_angular_y", "cmd_vel_angular_z"]
    );
    assert_stamped(&samples, 99, "/cmd_vel");
}

fn battery(cells: Vec<f64>, temps: Vec<f64>) -> BatteryState {
    BatteryState {
        stamp: Time { sec: 3, nanosec: 0 },
        voltage: r(12.5),
        current: r(-1.5),
        temperature: r(f64::NAN),
        charge: r(2.0),
        capacity: r(4.0),
        design_capacity: r(5.0),
        percentage: r(0.5),
        power_supply_status: 2,
        power_supply_health: 1,
        power_supply_technology: 3,
        present: true,
        cell_voltage: cells.into_iter().map(r).collect(),
        cell_temperature: temps.into_iter().map(r).collect(),
    }
}

#[test]
fn battery_extracts_scalars_codes_and_cell_summaries() {
    let samples = extract_battery_metrics(&battery(vec![3.7, f64::NAN, 3.9], vec![25.0]), "/battery_state");
    assert_eq!(
        names(&samples),
        vec![
            "battery_voltage",
            "battery_current",
            "battery_charge",
            "battery_capacity",
            "battery_design_capacity",
            "battery_percentage",
            "battery_power_supply_status",
            "battery_power_supply_health",
            "battery_power_supply_technology",
            "battery_present",
            "battery_cell_voltage_count",
            "battery_cell_voltage_min",
            "battery_cell_voltage_max",
            "battery_cell_voltage_mean",
            "battery_cell_temperature_count",
            "battery_cell_temperature_min",
            "battery_cell_temperature_max",
            "battery_cell_temperature_mean",
        ]
    );
    assert_stamped(&samples, 3_000_000_000, "/battery_state");
    assert_eq!(integer_of(find(&samples, "battery_power_supply_status")), 2);
    assert_eq!(find(&samples, "battery_power_supply_status").unit, "code");
    assert_eq!(integer_of(find(&samples, "battery_present")), 1);
    assert_eq!(find(&samples, "battery_present").unit, "bool");
    assert_eq!(integer_of(find(&samples, "battery_cell_voltage_count")), 2);
    assert_eq!(real_of(find(&samples, "battery_cell_voltage_min")), 3.7);
    assert_eq!(real_of(find(&samples, "battery_cell_voltage_max")), 3.9);
    assert_eq!(mean_inputs(find(&samples, "battery_cell_voltage_mean")), vec![3.7, 3.9]);
    assert_eq!(find(&samples, "battery_cell_temperature_mean").unit, "C");
}

#[test]
fn battery_without_finite_cells_has_no_cell_summary() {
    let mut msg = battery(vec![], vec![f64::NAN]);
    msg.present = false;
    let samples = extract_battery_metrics(&msg, "/battery_state");
    assert_eq!(samples.len(), 10);
    assert_eq!(integer_of(find(&samples, "battery_present")), 0);
}

fn scan(ranges: Vec<f64>, intensities: Vec<f64>) -> LaserScan {
    LaserScan {
        stamp: Time { sec: 0, nanosec: 7 },
        angle_min: r(-1.5),
        angle_max: r(1.5),
        angle_increment: r(0.01),
        time_increment: r(0.0),
        scan_time: r(0.1),
        range_min: r(0.1),
        range_max: r(10.0),
        ranges: ranges.into_iter().map(r).collect(),
        intensities: intensities.into_iter().map(r).collect(),
    }
}

#[test]
fn scan_counts_valid_and_invalid_ranges() {
    let msg = scan(vec![1.0, 0.05, f64::INFINITY, 2.0, f64::NAN, 10.0, 10.5], vec![5.0, 7.0]);
    let samples = extract_scan_metrics(&msg, "/scan");
    assert_stamped(&samples, 7, "/scan");
    assert_eq!(integer_of(find(&samples, "scan_range_count")), 7);
    assert_eq!(integer_of(find(&samples, "scan_valid_range_count")), 3);
    assert_eq!(integer_of(find(&samples, "scan_invalid_range_count")), 4);
    assert_eq!(real_of(find(&samples, "scan_range_min")), 1.0);
    assert_eq!(real_of(find(&samples, "scan_range_max")), 10.0);
    assert_eq!(mean_inputs(find(&samples, "scan_range_mean")), vec![1.0, 2.0, 10.0]);
    assert_eq!(integer_of(find(&samples, "scan_intensity_count")), 2);
    assert_eq!(real_of(find(&samples, "scan_intensity_max")), 7.0);
    assert_eq!(find(&samples, "scan_intensity_max").unit, "intensity");
    assert_eq!(find(&samples, "scan_range_min_limit").unit, "m");
    assert_eq!(samples.len(), 8 + 5 + 4);
}

#[test]
fn scan_without_valid_ranges() {
    let msg = scan(vec![0.0, f64::NAN, 20.0], vec![]);
    let samples = extract_scan_metrics(&msg, "/scan");
    assert_eq!(integer_of(find(&samples, "scan_valid_range_count")), 0);
    assert_eq!(integer_of(find(&samples, "scan_invalid_range_count")), 3);
    assert!(samples.iter().all(|s| s.metric_name != "scan_range_min"));
    assert!(samples.iter().all(|s| !s.metric_name.starts_with("scan_intensity")));
    assert_eq!(samples.len(), 10);
}

#[test]
fn scan_with_nan_bound_rejects_every_range() {
    let mut msg = scan(vec![1.0, 2.0], vec![]);
    msg.range_max = r(f64::NAN);
    let samples = extract_scan_metrics(&msg, "/scan");
    assert_eq!(integer_of(find(&samples, "scan_valid_range_count")), 0);
    assert_eq!(integer_of(find(&samples, "scan_invalid_range_count")), 2);
    // a NaN limit is not finite, so it is not stored either
    assert!(samples.iter().all(|s| s.metric_name != "scan_range_max_limit"));
}

#[test]
fn scan_counts_add_up() {
    let msg = scan(vec![0.2, -1.0, 3.0, f64::NEG_INFINITY, 9.9], vec![]);
    let samples = extract_scan_metrics(&msg, "/scan");
    let total = integer_of(find(&samples, "scan_range_count"));
    let valid = integer_of(find(&samples, "scan_valid_range_count"));
    let invalid = integer_of(find(&samples, "scan_invalid_range_count"));
    assert_eq!(valid + invalid, total);
}

fn transform(sec: i32, norm: f64, angle: Option<f64>) -> TransformSummary {
    TransformSummary {
        stamp: Time { sec, nanosec: 0 },
        translation_norm: r(norm),
        rotation_norm: r(if angle.is_some() { 1.0 } else { 0.0 }),
        rotation_angle: r(angle.unwrap_or(f64::NAN)),
    }
}

#[test]
fn tf_uses_first_stamp_and_summarises() {
    let msg = TfMessage {
        transforms: vec![
            transform(4, 1.0, Some(0.5)),
            transform(9, 3.0, None),
            transform(9, f64::NAN, Some(0.25)),
        ],
    };
    let samples = extract_tf_metrics(&msg, "/tf");
    assert_stamped(&samples, 4_000_000_000, "/tf");
    assert_eq!(
        names(&samples),
        vec![
            "tf_transform_count",
            "tf_translation_norm_min",
            "tf_translation_norm_max",
            "tf_translation_norm_mean",
            "tf_rotation_angle_min",
            "tf_rotation_angle_max",
            "tf_rotation_angle_mean",
        ]
    );
    assert_eq!(integer_of(&samples[0]), 3);
    assert_eq!(real_of(find(&samples, "tf_translation_norm_max")), 3.0);
    assert_eq!(mean_inputs(find(&samples, "tf_translation_norm_mean")), vec![1.0, 3.0]);
    assert_eq!(real_of(find(&samples, "tf_rotation_angle_min")), 0.25);
    assert_eq!(find(&samples, "tf_rotation_angle_min").unit, "rad");
}

#[test]
fn tf_without_transforms_is_stamped_with_the_fallback() {
    let msg = TfMessage { transforms: vec![] };
    let samples = extract_tf_metrics_at(&msg, "/tf", 1234);
    assert_eq!(samples.len(), 1);
    assert_eq!(samples[0].timestamp_ns, 1234);
    assert_eq!(integer_of(&samples[0]), 0);
    let now_samples = extract_tf_metrics(&msg, "/tf");
    assert!(now_samples[0].timestamp_ns > 1_577_836_800_000_000_000);
}

fn log(file: &str, function: &str) -> Log {
    Log {
        stamp: Time { sec: 2, nanosec: 3 },
        level: 30,
        name: "planner".to_string(),
        msg: "goal reached".to_string(),
        file: file.to_string(),
        function: function.to_string(),
        line: 77,
    }
}

#[test]
fn rosout_event_record() {
    let event = extract_rosout_event(&log("planner.cpp", ""), "/rosout");
    assert_eq!(event.timestamp_ns, 2_000_000_003);
    assert_eq!(event.source_topic, "/rosout");
    assert_eq!(event.logger_name, "planner");
    assert_eq!(event.severity, 30);
    assert_eq!(event.message, "goal reached");
    assert_eq!(event.file, Some("planner.cpp".to_string()));
    assert_eq!(event.function_name, None);
    assert_eq!(event.line, Some(77));
}

#[test]
fn rosout_severity_sample() {
    let samples = extract_rosout_metrics(&log("", "run"), "/rosout");
    assert_eq!(samples.len(), 1);
    assert_eq!(samples[0].metric_name, "rosout_severity");
    assert_eq!(samples[0].unit, "level");
    assert_eq!(integer_of(&samples[0]), 30);
    assert_stamped(&samples, 2_000_000_003, "/rosout");
}

#[test]
fn optional_string_maps_empty_to_none() {
    assert_eq!(optional_string(String::new()), None);
    assert_eq!(optional_string("x".to_string()), Some("x".to_string()));
    assert_eq!(optional_string(" ".to_string()), Some(" ".to_string()));
}

#[test]
fn rotation_angle_needs_a_finite_nonzero_quaternion_norm() {
    let mut t = transform(0, 1.0, Some(0.5));
    assert_eq!(rotation_angle(&t), Some(r(0.5)));
    t.rotation_norm = r(0.0);
    assert_eq!(rotation_angle(&t), None);
    t.rotation_norm = r(-0.0);
    assert_eq!(rotation_angle(&t), None);
    t.rotation_norm = r(f64::INFINITY);
    assert_eq!(rotation_angle(&t), None);
    t.rotation_norm = r(f64::NAN);
    assert_eq!(rotation_angle(&t), None);
    t.rotation_norm = r(1e-300);
    assert_eq!(rotation_angle(&t), Some(r(0.5)));
}

#[test]
fn finite_stats_ignore_order_and_non_finite_entries() {
    let a = finite_stats(&vec![r(3.0), r(-0.0), r(7.5), r(1.0)]).unwrap();
    let b = finite_stats(&vec![r(f64::NAN), r(7.5), r(1.0), r(f64::INFINITY), r(0.0), r(3.0)]).unwrap();
    assert_eq!(a.count, b.count);
    assert!(f64::from_bits(a.min.bits) == f64::from_bits(b.min.bits));
    assert!(f64::from_bits(a.max.bits) == f64::from_bits(b.max.bits));
    assert!(finite_stats(&vec![r(f64::NAN)]).is_none() && finite_stats(&vec![]).is_none());
}

#[test]
fn settling_a_mean_keeps_finite_values_and_drops_overflow() {
    let mean = sample(5, "/tf", "tf_translation_norm_mean", MetricValue::Mean(vec![r(1e308), r(1e308)]), "m");
    assert_eq!(settle_mean_sample(mean.clone(), r(f64::INFINITY)), None);
    assert_eq!(settle_mean_sample(mean.clone(), r(f64::NAN)), None);
    let settled = settle_mean_sample(mean, r(1.5)).expect("finite mean is kept");
    assert_eq!(settled.metric_value, MetricValue::Real(r(1.5)));
    assert_eq!(settled.metric_name, "tf_translation_norm_mean");
    assert_eq!((settled.timestamp_ns, settled.unit.as_str(), settled.quality.as_str()), (5, "m", "ok"));
    let count = sample(5, "/tf", "tf_transform_count", MetricValue::Integer(2), "count");
    assert_eq!(settle_mean_sample(count.clone(), r(f64::NAN)), Some(count));
}
