//! The node's configuration: parameter names and defaults, and how raw
//! parameter values become the database and subscription settings. Reading
//! and declaring the parameters, and logging the warnings collected here,
//! happen where the ROS node lives.

use vstd::prelude::*;

verus! {

/// Where the database goes when `db.path` is empty.
pub const DEFAULT_DB_PATH: &'static str = "/tmp/robot_telemetry_server.db";

/// `db.batch_size` when the parameter is out of range.
pub const DEFAULT_DB_BATCH_SIZE: u32 = 100;

/// `db.flush_interval_ms` when the parameter is out of range.
pub const DEFAULT_DB_FLUSH_INTERVAL_MS: u64 = 1000;

/// A parameter value that was replaced by its default.
#[derive(Clone, Debug, PartialEq)]
pub enum ConfigWarning {
    /// `Invalid {name} '{value}', defaulting to {default}`: an integer
    /// parameter outside the range of its setting.
    OutOfRange { name: String, value: i64, default: u64 },
    /// `Invalid db.path '', defaulting to '{DEFAULT_DB_PATH}'`.
    EmptyDbPath,
    /// `Invalid {name} '{given}', defaulting to '{fallback}'`: a QoS policy
    /// name that is not one of the known ones.
    UnknownChoice { name: String, given: String, fallback: String },
}

/// The mathematical content of a [`ConfigWarning`].
pub enum ConfigWarningView {
    OutOfRange { name: Seq<char>, value: i64, default: u64 },
    EmptyDbPath,
    UnknownChoice { name: Seq<char>, given: Seq<char>, fallback: Seq<char> },
}

impl View for ConfigWarning {
    type V = ConfigWarningView;

    open spec fn view(&self) -> ConfigWarningView {
        match self {
            ConfigWarning::OutOfRange { name, value, default } => ConfigWarningView::OutOfRange {
                name: name@,
                value: *value,
                default: *default,
            },
            ConfigWarning::EmptyDbPath => ConfigWarningView::EmptyDbPath,
            ConfigWarning::UnknownChoice { name, given, fallback } => ConfigWarningView::UnknownChoice {
                name: name@,
                given: given@,
                fallback: fallback@,
            },
        }
    }
}

/// The views of a sequence of warnings, in order.
pub open spec fn warning_views(warnings: Seq<ConfigWarning>) -> Seq<ConfigWarningView> {
    warnings.map_values(|w: ConfigWarning| w@)
}

proof fn lemma_warning_views_push(warnings: Seq<ConfigWarning>, w: ConfigWarning)
    ensures
        warning_views(warnings.push(w)) == warning_views(warnings).push(w@),
{
    assert(warning_views(warnings.push(w)) =~= warning_views(warnings).push(w@));
}

/// Appends a warning to the list.
fn warn(warnings: &mut Vec<ConfigWarning>, warning: ConfigWarning)
    ensures
        warning_views(final(warnings)@) == warning_views(old(warnings)@).push(warning@),
{
    proof {
        lemma_warning_views_push(warnings@, warning);
    }
    warnings.push(warning);
}

/// Whether two strings hold the same characters.
fn same_text(a: &str, b: &str) -> (same: bool)
    ensures
        same == (a@ == b@),
{
    a.to_owned() == b.to_owned()
}

/// The full name of a topic's parameter: `{prefix}.{suffix}`.
pub open spec fn dotted_name(prefix: Seq<char>, suffix: Seq<char>) -> Seq<char> {
    prefix + "."@ + suffix
}

/// `Arc::<str>::from(&str)`, which allocates a reference-counted string
/// holding a copy of `text`.
#[verifier::external_body]
fn shared_str(text: &str) -> (shared: std::sync::Arc<str>)
    ensures
        (*shared)@ == text@,
{
    std::sync::Arc::<str>::from(text)
}

/// The name of parameter `suffix` of the topic configured under `prefix`,
/// such as `odom.qos.depth`.
pub fn parameter_name(prefix: &str, suffix: &str) -> (name: std::sync::Arc<str>)
    ensures
        (*name)@ == dotted_name(prefix@, suffix@),
{
    let mut text = prefix.to_owned();
    text.append(".");
    text.append(suffix);
    shared_str(text.as_str())
}

/// The setting that an integer parameter gives within `[0, max]`: the value
/// itself when it lies in range, `default` otherwise.
pub open spec fn in_range_or(value: i64, max: int, default: int) -> int {
    if 0 <= value <= max {
        value as int
    } else {
        default
    }
}

/// The warnings that an integer parameter adds: one when it is out of range.
pub open spec fn range_warnings(name: Seq<char>, value: i64, max: int, default: u64) -> Seq<ConfigWarningView> {
    if 0 <= value <= max {
        Seq::empty()
    } else {
        seq![ConfigWarningView::OutOfRange { name, value, default }]
    }
}

/// A `u32` setting from an integer parameter: the value when it fits, and
/// otherwise `default`, with a warning.
pub fn u32_parameter_or_default(
    name: &str,
    value: i64,
    default: u32,
    warnings: &mut Vec<ConfigWarning>,
) -> (setting: u32)
    ensures
        setting == in_range_or(value, u32::MAX as int, default as int),
        warning_views(final(warnings)@) == warning_views(old(warnings)@) + range_warnings(
            name@,
            value,
            u32::MAX as int,
            default as u64,
        ),
{
    if 0 <= value && value <= u32::MAX as i64 {
        proof {
            assert(warning_views(old(warnings)@) + Seq::<ConfigWarningView>::empty() =~= warning_views(old(warnings)@));
        }
        value as u32
    } else {
        let warning = ConfigWarning::OutOfRange { name: name.to_owned(), value, default: default as u64 };
        warn(warnings, warning);
        proof {
            assert(warning_views(old(warnings)@).push(warning@) =~= warning_views(old(warnings)@) + seq![warning@]);
        }
        default
    }
}

/// A `u64` setting from an integer parameter: the value when it is not
/// negative, and otherwise `default`, with a warning.
pub fn u64_parameter_or_default(
    name: &str,
    value: i64,
    default: u64,
    warnings: &mut Vec<ConfigWarning>,
) -> (setting: u64)
    ensures
        setting == in_range_or(value, u64::MAX as int, default as int),
        warning_views(final(warnings)@) == warning_views(old(warnings)@) + range_warnings(
            name@,
            value,
            u64::MAX as int,
            default,
        ),
{
    if 0 <= value {
        proof {
            assert(warning_views(old(warnings)@) + Seq::<ConfigWarningView>::empty() =~= warning_views(old(warnings)@));
        }
        value as u64
    } else {
        let warning = ConfigWarning::OutOfRange { name: name.to_owned(), value, default };
        warn(warnings, warning);
        proof {
            assert(warning_views(old(warnings)@).push(warning@) =~= warning_views(old(warnings)@) + seq![warning@]);
        }
        default
    }
}

/// The raw values of the `db.*` parameters.
#[derive(Clone, Debug)]
pub struct DbParameters {
    pub path: String,
    pub batch_size: i64,
    pub flush_interval_ms: i64,
}

/// The database writer's settings.
#[derive(Clone, Debug)]
pub struct DbConfig {
    pub path: String,
    pub batch_size: u32,
    pub flush_interval_ms: u64,
}

/// The database path that a `db.path` value gives.
pub open spec fn db_path_setting(path: Seq<char>) -> Seq<char> {
    if path.len() == 0 {
        DEFAULT_DB_PATH@
    } else {
        path
    }
}

/// The warnings that the `db.*` parameters add, in the order they are
/// resolved: path, batch size, flush interval.
pub open spec fn db_warnings(params: DbParameters) -> Seq<ConfigWarningView> {
    let path_warning = if params.path@.len() == 0 {
        seq![ConfigWarningView::EmptyDbPath]
    } else {
        Seq::empty()
    };
    path_warning + range_warnings(
        "db.batch_size"@,
        params.batch_size,
        u32::MAX as int,
        DEFAULT_DB_BATCH_SIZE as u64,
    ) + range_warnings(
        "db.flush_interval_ms"@,
        params.flush_interval_ms,
        u64::MAX as int,
        DEFAULT_DB_FLUSH_INTERVAL_MS,
    )
}

impl DbParameters {
    /// The database settings: the path (the default one when empty), the
    /// batch size and the flush interval (their defaults when out of range).
    pub fn config(&self, warnings: &mut Vec<ConfigWarning>) -> (config: DbConfig)
        ensures
            config.path@ == db_path_setting(self.path@),
            config.batch_size == in_range_or(self.batch_size, u32::MAX as int, DEFAULT_DB_BATCH_SIZE as int),
            config.flush_interval_ms == in_range_or(
                self.flush_interval_ms,
                u64::MAX as int,
                DEFAULT_DB_FLUSH_INTERVAL_MS as int,
            ),
            warning_views(final(warnings)@) == warning_views(old(warnings)@) + db_warnings(*self),
    {
        let ghost start = warning_views(warnings@);
        let path = if self.path.as_str().is_empty() {
            warn(warnings, ConfigWarning::EmptyDbPath);
            DEFAULT_DB_PATH.to_owned()
        } else {
            self.path.clone()
        };
        let ghost after_path = warning_views(warnings@);
        let batch_size = u32_parameter_or_default("db.batch_size", self.batch_size, DEFAULT_DB_BATCH_SIZE, warnings);
        let ghost after_batch = warning_views(warnings@);
        let flush_interval_ms = u64_parameter_or_default(
            "db.flush_interval_ms",
            self.flush_interval_ms,
            DEFAULT_DB_FLUSH_INTERVAL_MS,
            warnings,
        );
        proof {
            let path_warning = if self.path@.len() == 0 {
                seq![ConfigWarningView::EmptyDbPath]
            } else {
                Seq::empty()
            };
            assert(after_path =~= start + path_warning);
            assert(warning_views(warnings@) =~= start + db_warnings(*self));
        }
        DbConfig { path, batch_size, flush_interval_ms }
    }
}

/// The default values of a topic's parameters.
#[derive(Clone, Copy, Debug)]
pub struct TopicDefaults {
    pub topic: &'static str,
    pub frame_id: &'static str,
    pub child_frame_id: &'static str,
    pub reliability: &'static str,
    pub depth: u32,
    pub durability: &'static str,
}

impl TopicDefaults {
    /// Bundles a topic's default parameter values.
    pub fn new(
        topic: &'static str,
        frame_id: &'static str,
        child_frame_id: &'static str,
        reliability: &'static str,
        depth: u32,
        durability: &'static str,
    ) -> (defaults: Self)
        ensures
            defaults == (TopicDefaults { topic, frame_id, child_frame_id, reliability, depth, durability }),
    {
        TopicDefaults { topic, frame_id, child_frame_id, reliability, depth, durability }
    }
}

/// The topics that the node subscribes to, each configured under its own
/// parameter prefix.
#[derive(Clone, Copy, Debug, PartialEq, Eq, Structural)]
pub enum TelemetryTopic {
    Odom,
    Imu,
    Scan,
    Twist,
    Battery,
    Tf,
    Rosout,
}

/// The parameter prefix of each topic.
pub open spec fn topic_prefix(t: TelemetryTopic) -> Seq<char> {
    match t {
        TelemetryTopic::Odom => "odom"@,
        TelemetryTopic::Imu => "imu"@,
        TelemetryTopic::Scan => "scan"@,
        TelemetryTopic::Twist => "twist"@,
        TelemetryTopic::Battery => "battery"@,
        TelemetryTopic::Tf => "tf"@,
        TelemetryTopic::Rosout => "rosout"@,
    }
}

/// The defaults of each topic: topic name, frame and child frame, QoS
/// reliability, history depth and durability.
pub open spec fn topic_defaults_table(t: TelemetryTopic) -> (Seq<char>, Seq<char>, Seq<char>, Seq<char>, u32, Seq<char>) {
    match t {
        TelemetryTopic::Odom => ("/odom"@, "odom"@, "base_footprint"@, "reliable"@, 10, "volatile"@),
        TelemetryTopic::Imu => ("/imu"@, "imu_link"@, ""@, "reliable"@, 10, "volatile"@),
        TelemetryTopic::Scan => ("/scan"@, "base_scan"@, ""@, "best_effort"@, 5, "volatile"@),
        TelemetryTopic::Twist => ("/cmd_vel"@, ""@, ""@, "reliable"@, 10, "volatile"@),
        TelemetryTopic::Battery => ("/battery_state"@, ""@, ""@, "reliable"@, 10, "volatile"@),
        TelemetryTopic::Tf => ("/tf"@, ""@, ""@, "reliable"@, 100, "volatile"@),
        TelemetryTopic::Rosout => ("/rosout"@, ""@, ""@, "reliable"@, 1000, "transient_local"@),
    }
}

impl TelemetryTopic {
    /// The prefix under which the topic's parameters are declared.
    pub fn prefix(&self) -> (prefix: &'static str)
        ensures
            prefix@ == topic_prefix(*self),
    {
        match self {
            TelemetryTopic::Odom => "odom",
            TelemetryTopic::Imu => "imu",
            TelemetryTopic::Scan => "scan",
            TelemetryTopic::Twist => "twist",
            TelemetryTopic::Battery => "battery",
            TelemetryTopic::Tf => "tf",
            TelemetryTopic::Rosout => "rosout",
        }
    }

    /// The default values of the topic's parameters.
    pub fn defaults(&self) -> (defaults: TopicDefaults)
        ensures
            (defaults.topic@, defaults.frame_id@, defaults.child_frame_id@, defaults.reliability@, defaults.depth, defaults.durability@)
                == topic_defaults_table(*self),
    {
        match self {
            TelemetryTopic::Odom => TopicDefaults::new("/odom", "odom", "base_footprint", "reliable", 10, "volatile"),
            TelemetryTopic::Imu => TopicDefaults::new("/imu", "imu_link", "", "reliable", 10, "volatile"),
            TelemetryTopic::Scan => TopicDefaults::new("/scan", "base_scan", "", "best_effort", 5, "volatile"),
            TelemetryTopic::Twist => TopicDefaults::new("/cmd_vel", "", "", "reliable", 10, "volatile"),
            TelemetryTopic::Battery => TopicDefaults::new("/battery_state", "", "", "reliable", 10, "volatile"),
            TelemetryTopic::Tf => TopicDefaults::new("/tf", "", "", "reliable", 100, "volatile"),
            TelemetryTopic::Rosout => TopicDefaults::new("/rosout", "", "", "reliable", 1000, "transient_local"),
        }
    }
}

/// The raw values of a topic's parameters, with the defaults that stand in
/// for invalid QoS values.
#[derive(Clone, Debug)]
pub struct TopicParameters {
    pub topic: String,
    pub frame_id: String,
    pub child_frame_id: String,
    pub reliability: String,
    pub depth: i64,
    pub durability: String,
    pub default_reliability: &'static str,
    pub default_depth: u32,
    pub default_durability: &'static str,
}

/// A subscription's settings before they are applied to a QoS profile.
#[derive(Clone, Debug)]
pub struct SubscriptionConfig {
    pub topic: String,
    pub reliability: String,
    pub depth: u32,
    pub durability: String,
    pub default_reliability: &'static str,
    pub default_durability: &'static str,
}

/// The name under which a topic's QoS field is reported: `{label} qos.{field}`.
pub open spec fn qos_field_name(label: Seq<char>, field: Seq<char>) -> Seq<char> {
    label + " qos."@ + field
}

/// `{label} qos.{field}`.
fn qos_field(label: &str, field: &str) -> (name: String)
    ensures
        name@ == qos_field_name(label@, field@),
{
    let mut name = label.to_owned();
    name.append(" qos.");
    name.append(field);
    name
}

impl TopicParameters {
    /// The subscription settings of the topic: its values, with the default
    /// depth when `depth` does not fit a `u32`.
    pub fn subscription_config(&self, label: &str, warnings: &mut Vec<ConfigWarning>) -> (config: SubscriptionConfig)
        ensures
            config.topic@ == self.topic@,
            config.reliability@ == self.reliability@,
            config.depth == in_range_or(self.depth, u32::MAX as int, self.default_depth as int),
            config.durability@ == self.durability@,
            config.default_reliability == self.default_reliability,
            config.default_durability == self.default_durability,
            warning_views(final(warnings)@) == warning_views(old(warnings)@) + range_warnings(
                qos_field_name(label@, "depth"@),
                self.depth,
                u32::MAX as int,
                self.default_depth as u64,
            ),
    {
        let name = qos_field(label, "depth");
        let depth = u32_parameter_or_default(name.as_str(), self.depth, self.default_depth, warnings);
        SubscriptionConfig {
            topic: self.topic.clone(),
            reliability: self.reliability.clone(),
            depth,
            durability: self.durability.clone(),
            default_reliability: self.default_reliability,
            default_durability: self.default_durability,
        }
    }
}

/// The QoS reliability policy of a subscription.
#[derive(Clone, Copy, Debug, PartialEq, Eq, Structural)]
pub enum Reliability {
    Reliable,
    BestEffort,
}

/// The QoS durability policy of a subscription.
#[derive(Clone, Copy, Debug, PartialEq, Eq, Structural)]
pub enum Durability {
    Volatile,
    TransientLocal,
}

/// The QoS policies to apply to a subscription's base profile, which keeps
/// the last `depth` messages.
#[derive(Clone, Copy, Debug, PartialEq, Eq, Structural)]
pub struct QosSettings {
    pub reliability: Reliability,
    pub durability: Durability,
    pub depth: u32,
}

/// The reliability that a configured name selects: `reliable` and
/// `best_effort` name themselves; any other name falls back to the default
/// name, which selects best effort when it is `best_effort` and reliable
/// otherwise.
pub open spec fn reliability_setting(name: Seq<char>, default_name: Seq<char>) -> Reliability {
    if name == "reliable"@ {
        Reliability::Reliable
    } else if name == "best_effort"@ {
        Reliability::BestEffort
    } else if default_name == "best_effort"@ {
        Reliability::BestEffort
    } else {
        Reliability::Reliable
    }
}

/// The durability that a configured name selects: `volatile` and
/// `transient_local` name themselves; any other name falls back to the
/// default name, which selects transient local when it is
/// `transient_local` and volatile otherwise.
pub open spec fn durability_setting(name: Seq<char>, default_name: Seq<char>) -> Durability {
    if name == "volatile"@ {
        Durability::Volatile
    } else if name == "transient_local"@ {
        Durability::TransientLocal
    } else if default_name == "transient_local"@ {
        Durability::TransientLocal
    } else {
        Durability::Volatile
    }
}

/// The warning for a policy name that is not one of the two known ones.
pub open spec fn choice_warnings(
    name: Seq<char>,
    first: Seq<char>,
    second: Seq<char>,
    field_name: Seq<char>,
    default_name: Seq<char>,
) -> Seq<ConfigWarningView> {
    if name == first || name == second {
        Seq::empty()
    } else {
        seq![ConfigWarningView::UnknownChoice { name: field_name, given: name, fallback: default_name }]
    }
}

/// The warnings that [`configure_qos`] adds: reliability first, then
/// durability.
pub open spec fn qos_warnings(label: Seq<char>, config: SubscriptionConfig) -> Seq<ConfigWarningView> {
    choice_warnings(
        config.reliability@,
        "reliable"@,
        "best_effort"@,
        qos_field_name(label, "reliability"@),
        config.default_reliability@,
    ) + choice_warnings(
        config.durability@,
        "volatile"@,
        "transient_local"@,
        qos_field_name(label, "durability"@),
        config.default_durability@,
    )
}

/// Picks the QoS policies of a subscription from its configured names,
/// falling back to the defaults (with a warning) on unknown names.
pub fn configure_qos(label: &str, config: &SubscriptionConfig, warnings: &mut Vec<ConfigWarning>) -> (qos: QosSettings)
    ensures
        qos.reliability == reliability_setting(config.reliability@, config.default_reliability@),
        qos.durability == durability_setting(config.durability@, config.default_durability@),
        qos.depth == config.depth,
        warning_views(final(warnings)@) == warning_views(old(warnings)@) + qos_warnings(label@, *config),
{
    let ghost start = warning_views(warnings@);
    let reliability = if same_text(config.reliability.as_str(), "reliable") {
        Reliability::Reliable
    } else if same_text(config.reliability.as_str(), "best_effort") {
        Reliability::BestEffort
    } else {
        warn(
            warnings,
            ConfigWarning::UnknownChoice {
                name: qos_field(label, "reliability"),
                given: config.reliability.clone(),
                fallback: config.default_reliability.to_owned(),
            },
        );
        if same_text(config.default_reliability, "best_effort") {
            Reliability::BestEffort
        } else {
            Reliability::Reliable
        }
    };
    let ghost after_reliability = warning_views(warnings@);
    let durability = if same_text(config.durability.as_str(), "volatile") {
        Durability::Volatile
    } else if same_text(config.durability.as_str(), "transient_local") {
        Durability::TransientLocal
    } else {
        warn(
            warnings,
            ConfigWarning::UnknownChoice {
                name: qos_field(label, "durability"),
                given: config.durability.clone(),
                fallback: config.default_durability.to_owned(),
            },
        );
        if same_text(config.default_durability, "transient_local") {
            Durability::TransientLocal
        } else {
            Durability::Volatile
        }
    };
    proof {
        let first = choice_warnings(
            config.reliability@,
            "reliable"@,
            "best_effort"@,
            qos_field_name(label@, "reliability"@),
            config.default_reliability@,
        );
        let second = choice_warnings(
            config.durability@,
            "volatile"@,
            "transient_local"@,
            qos_field_name(label@, "durability"@),
            config.default_durability@,
        );
        assert(after_reliability =~= start + first);
        assert(warning_views(warnings@) =~= after_reliability + second);
        assert(warning_views(warnings@) =~= start + qos_warnings(label@, *config));
    }
    QosSettings { reliability, durability, depth: config.depth }
}

/// An integer parameter falls back to its default exactly when a warning is
/// issued for it, provided the default itself lies in range.
pub proof fn fallback_iff_warned(name: Seq<char>, value: i64, max: int, default: u64)
    requires
        default <= max,
    ensures
        (range_warnings(name, value, max, default).len() == 0) <==> in_range_or(value, max, default as int) == value,
        range_warnings(name, value, max, default).len() <= 1,
        0 <= in_range_or(value, max, default as int) <= max,
{
}

/// The built-in defaults of every topic are valid settings: their QoS
/// policy names are known ones, so applying them issues no warning and
/// selects the policies they name.
pub proof fn topic_defaults_law(t: TelemetryTopic, label: Seq<char>)
    ensures
        ({
            let (topic, frame_id, child_frame_id, reliability, depth, durability) = topic_defaults_table(t);
            &&& choice_warnings(reliability, "reliable"@, "best_effort"@, qos_field_name(label, "reliability"@), reliability).len() == 0
            &&& choice_warnings(durability, "volatile"@, "transient_local"@, qos_field_name(label, "durability"@), durability).len() == 0
            &&& (reliability_setting(reliability, reliability) == Reliability::BestEffort) == (reliability == "best_effort"@)
            &&& (durability_setting(durability, durability) == Durability::TransientLocal) == (durability == "transient_local"@)
        }),
{
    reveal_strlit("reliable");
    reveal_strlit("best_effort");
    reveal_strlit("volatile");
    reveal_strlit("transient_local");
    assert("reliable"@.len() != "best_effort"@.len());
    assert("volatile"@.len() != "transient_local"@.len());
}

/// A known reliability name selects its own policy and adds no warning; an
/// unknown one adds exactly one warning, which names the field, the name
/// given and the default, and selects the policy that the default names
/// (best effort only for `best_effort`). Durability is chosen the same way,
/// with `volatile` and `transient_local`.
pub proof fn qos_choice_law(label: Seq<char>, config: SubscriptionConfig)
    ensures
        config.reliability@ == "reliable"@ ==> reliability_setting(config.reliability@, config.default_reliability@)
            == Reliability::Reliable,
        config.reliability@ == "best_effort"@ ==> reliability_setting(config.reliability@, config.default_reliability@)
            == Reliability::BestEffort,
        config.reliability@ != "reliable"@ && config.reliability@ != "best_effort"@ ==> {
            &&& reliability_setting(config.reliability@, config.default_reliability@) == if config.default_reliability@
                == "best_effort"@ {
                Reliability::BestEffort
            } else {
                Reliability::Reliable
            }
            &&& choice_warnings(
                config.reliability@,
                "reliable"@,
                "best_effort"@,
                qos_field_name(label, "reliability"@),
                config.default_reliability@,
            ) == seq![
                ConfigWarningView::UnknownChoice {
                    name: qos_field_name(label, "reliability"@),
                    given: config.reliability@,
                    fallback: config.default_reliability@,
                },
            ]
        },
        config.durability@ == "volatile"@ ==> durability_setting(config.durability@, config.default_durability@)
            == Durability::Volatile,
        config.durability@ == "transient_local"@ ==> durability_setting(config.durability@, config.default_durability@)
            == Durability::TransientLocal,
        config.durability@ != "volatile"@ && config.durability@ != "transient_local"@ ==> {
            &&& durability_setting(config.durability@, config.default_durability@) == if config.default_durability@
                == "transient_local"@ {
                Durability::TransientLocal
            } else {
                Durability::Volatile
            }
            &&& choice_warnings(
                config.durability@,
                "volatile"@,
                "transient_local"@,
                qos_field_name(label, "durability"@),
                config.default_durability@,
            ) == seq![
                ConfigWarningView::UnknownChoice {
                    name: qos_field_name(label, "durability"@),
                    given: config.durability@,
                    fallback: config.default_durability@,
                },
            ]
        },
        (qos_warnings(label, config).len() == 0) == ((config.reliability@ == "reliable"@ || config.reliability@
            == "best_effort"@) && (config.durability@ == "volatile"@ || config.durability@ == "transient_local"@)),
{
    reveal_strlit("reliable");
    reveal_strlit("best_effort");
    reveal_strlit("volatile");
    reveal_strlit("transient_local");
    assert("reliable"@.len() != "best_effort"@.len());
    assert("volatile"@.len() != "transient_local"@.len());
}

/// The database path is never empty: an empty `db.path` becomes the
/// default path, with the one `EmptyDbPath` warning, and any other path is
/// kept. There is one warning for each of the three parameters that was
/// replaced, and none when all three are kept.
pub proof fn db_config_law(params: DbParameters)
    ensures
        db_path_setting(params.path@).len() > 0,
        params.path@.len() > 0 ==> db_path_setting(params.path@) == params.path@,
        db_warnings(params).len() == (if params.path@.len() == 0 { 1int } else { 0int }) + (if 0 <= params.batch_size
            <= u32::MAX { 0int } else { 1int }) + (if 0 <= params.flush_interval_ms { 0int } else { 1int }),
        (db_warnings(params).len() > 0 && db_warnings(params)[0] == ConfigWarningView::EmptyDbPath) == (
        params.path@.len() == 0),
{
    reveal_strlit("/tmp/robot_telemetry_server.db");
    assert(DEFAULT_DB_PATH@.len() > 0);
}

} // verus!
