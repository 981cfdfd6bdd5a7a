use robot_telemetry_server::params::{
    configure_qos, parameter_name, u32_parameter_or_default, u64_parameter_or_default,
    ConfigWarning, DbParameters, Durability, Reliability, SubscriptionConfig, TelemetryTopic,
    TopicDefaults, TopicParameters, DEFAULT_DB_BATCH_SIZE, DEFAULT_DB_FLUSH_INTERVAL_MS,
    DEFAULT_DB_PATH,
};

#[test]
fn parameter_names_are_dotted() {
    assert_eq!(parameter_name("odom", "qos.depth").as_ref(), "odom.qos.depth");
    assert_eq!(parameter_name("db", "path").as_ref(), "db.path");
    assert_eq!(parameter_name("", "").as_ref(), ".");
}

#[test]
fn u32_parameter_in_range_is_kept() {
    let mut warnings = Vec::new();
    assert_eq!(u32_parameter_or_default("db.batch_size", 0, 100, &mut warnings), 0);
    assert_eq!(u32_parameter_or_default("db.batch_size", 4_294_967_295, 100, &mut warnings), u32::MAX);
    assert!(warnings.is_empty());
}

#[test]
fn u32_parameter_out_of_range_defaults_with_warning() {
    let mut warnings = Vec::new();
    assert_eq!(u32_parameter_or_default("db.batch_size", -1, 100, &mut warnings), 100);
    assert_eq!(u32_parameter_or_default("x", 4_294_967_296, 7, &mut warnings), 7);
    assert_eq!(
        warnings,
        vec![
            ConfigWarning::OutOfRange { name: "db.batch_size".to_string(), value: -1, default: 100 },
            ConfigWarning::OutOfRange { name: "x".to_string(), value: 4_294_967_296, default: 7 },
        ]
    );
}

#[test]
fn u64_parameter_rejects_negative_values() {
    let mut warnings = Vec::new();
    assert_eq!(u64_parameter_or_default("db.flush_interval_ms", i64::MAX, 1000, &mut warnings), i64::MAX as u64);
    assert!(warnings.is_empty());
    assert_eq!(u64_parameter_or_default("db.flush_interval_ms", i64::MIN, 1000, &mut warnings), 1000);
    assert_eq!(warnings.len(), 1);
}

#[test]
fn db_config_keeps_valid_values() {
    let params = DbParameters { path: "/data/t.db".to_string(), batch_size: 50, flush_interval_ms: 250 };
    let mut warnings = Vec::new();
    let config = params.config(&mut warnings);
    assert_eq!(config.path, "/data/t.db");
    assert_eq!(config.batch_size, 50);
    assert_eq!(config.flush_interval_ms, 250);
    assert!(warnings.is_empty());
}

#[test]
fn db_config_falls_back_to_defaults() {
    let params = DbParameters { path: String::new(), batch_size: -5, flush_interval_ms: -1 };
    let mut warnings = Vec::new();
    let config = params.config(&mut warnings);
    assert_eq!(config.path, DEFAULT_DB_PATH);
    assert_eq!(config.path, "/tmp/robot_telemetry_server.db");
    assert_eq!(config.batch_size, DEFAULT_DB_BATCH_SIZE);
    assert_eq!(config.flush_interval_ms, DEFAULT_DB_FLUSH_INTERVAL_MS);
    assert_eq!(
        warnings,
        vec![
            ConfigWarning::EmptyDbPath,
            ConfigWarning::OutOfRange { name: "db.batch_size".to_string(), value: -5, default: 100 },
            ConfigWarning::OutOfRange { name: "db.flush_interval_ms".to_string(), value: -1, default: 1000 },
        ]
    );
}

fn topic_params(reliability: &str, depth: i64, durability: &str) -> TopicParameters {
    TopicParameters {
        topic: "/odom".to_string(),
        frame_id: "odom".to_string(),
        child_frame_id: "base_footprint".to_string(),
        reliability: reliability.to_string(),
        depth,
        durability: durability.to_string(),
        default_reliability: "reliable",
        default_depth: 10,
        default_durability: "volatile",
    }
}

#[test]
fn subscription_config_copies_values() {
    let mut warnings = Vec::new();
    let config = topic_params("best_effort", 25, "transient_local").subscription_config("odom", &mut warnings);
    assert_eq!(config.topic, "/odom");
    assert_eq!(config.reliability, "best_effort");
    assert_eq!(config.depth, 25);
    assert_eq!(config.durability, "transient_local");
    assert_eq!(config.default_reliability, "reliable");
    assert_eq!(config.default_durability, "volatile");
    assert!(warnings.is_empty());
}

#[test]
fn subscription_config_invalid_depth() {
    let mut warnings = Vec::new();
    let config = topic_params("reliable", -3, "volatile").subscription_config("odom", &mut warnings);
    assert_eq!(config.depth, 10);
    assert_eq!(
        warnings,
        vec![ConfigWarning::OutOfRange { name: "odom qos.depth".to_string(), value: -3, default: 10 }]
    );
}

fn sub(reliability: &str, durability: &str, default_reliability: &'static str, default_durability: &'static str) -> SubscriptionConfig {
    SubscriptionConfig {
        topic: "/scan".to_string(),
        reliability: reliability.to_string(),
        depth: 5,
        durability: durability.to_string(),
        default_reliability,
        default_durability,
    }
}

#[test]
fn qos_known_names() {
    let mut warnings = Vec::new();
    let qos = configure_qos("scan", &sub("best_effort", "transient_local", "reliable", "volatile"), &mut warnings);
    assert_eq!(qos.reliability, Reliability::BestEffort);
    assert_eq!(qos.durability, Durability::TransientLocal);
    assert_eq!(qos.depth, 5);
    let qos = configure_qos("scan", &sub("reliable", "volatile", "best_effort", "transient_local"), &mut warnings);
    assert_eq!(qos.reliability, Reliability::Reliable);
    assert_eq!(qos.durability, Durability::Volatile);
    assert!(warnings.is_empty());
}

#[test]
fn qos_unknown_names_fall_back_with_warnings() {
    let mut warnings = Vec::new();
    let qos = configure_qos("scan", &sub("Reliable", "durable", "best_effort", "transient_local"), &mut warnings);
    assert_eq!(qos.reliability, Reliability::BestEffort);
    assert_eq!(qos.durability, Durability::TransientLocal);
    assert_eq!(
        warnings,
        vec![
            ConfigWarning::UnknownChoice {
                name: "scan qos.reliability".to_string(),
                given: "Reliable".to_string(),
                fallback: "best_effort".to_string(),
            },
            ConfigWarning::UnknownChoice {
                name: "scan qos.durability".to_string(),
                given: "durable".to_string(),
                fallback: "transient_local".to_string(),
            },
        ]
    );
    let mut warnings = Vec::new();
    let qos = configure_qos("x", &sub("", "", "nonsense", "nonsense"), &mut warnings);
    assert_eq!(qos.reliability, Reliability::Reliable);
    assert_eq!(qos.durability, Durability::Volatile);
    assert_eq!(warnings.len(), 2);
}

#[test]
fn topic_defaults_table() {
    let odom = TelemetryTopic::Odom.defaults();
    assert_eq!(
        (odom.topic, odom.frame_id, odom.child_frame_id, odom.reliability, odom.depth, odom.durability),
        ("/odom", "odom", "base_footprint", "reliable", 10, "volatile")
    );
    let scan = TelemetryTopic::Scan.defaults();
    assert_eq!((scan.topic, scan.frame_id, scan.reliability, scan.depth), ("/scan", "base_scan", "best_effort", 5));
    let rosout = TelemetryTopic::Rosout.defaults();
    assert_eq!((rosout.topic, rosout.depth, rosout.durability), ("/rosout", 1000, "transient_local"));
    assert_eq!(TelemetryTopic::Twist.defaults().topic, "/cmd_vel");
    assert_eq!(TelemetryTopic::Battery.defaults().topic, "/battery_state");
    assert_eq!(TelemetryTopic::Tf.defaults().depth, 100);
    assert_eq!(TelemetryTopic::Imu.defaults().frame_id, "imu_link");
    assert_eq!(TelemetryTopic::Imu.prefix(), "imu");
    assert_eq!(TelemetryTopic::Rosout.prefix(), "rosout");
}

#[test]
fn topic_defaults_apply_without_warnings() {
    let topics = [
        TelemetryTopic::Odom,
        TelemetryTopic::Imu,
        TelemetryTopic::Scan,
        TelemetryTopic::Twist,
        TelemetryTopic::Battery,
        TelemetryTopic::Tf,
        TelemetryTopic::Rosout,
    ];
    for topic in topics {
        let d = topic.defaults();
        let mut warnings = Vec::new();
        let config = SubscriptionConfig {
            topic: d.topic.to_string(),
            reliability: d.reliability.to_string(),
            depth: d.depth,
            durability: d.durability.to_string(),
            default_reliability: d.reliability,
            default_durability: d.durability,
        };
        configure_qos(topic.prefix(), &config, &mut warnings);
        assert!(warnings.is_empty());
    }
}

#[test]
fn topic_defaults_new_keeps_fields() {
    let d = TopicDefaults::new("/a", "f", "c", "best_effort", 3, "volatile");
    assert_eq!((d.topic, d.frame_id, d.child_frame_id, d.reliability, d.depth, d.durability), ("/a", "f", "c", "best_effort", 3, "volatile"));
}
