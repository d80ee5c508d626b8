use share_consumer::config::ParseConfigEnumError;
use share_consumer::client::ClientConfig;
use share_consumer::config::{
    AcknowledgementMode, AutoOffsetReset, IsolationLevel, ShareConsumerConfig,
};

fn make_config() -> ClientConfig {
    let mut config = ShareConsumerConfig::new();
    config
        .group_id("share-consumer-smoke")
        .acknowledgement_mode(AcknowledgementMode::Explicit)
        .auto_offset_reset(AutoOffsetReset::Earliest)
        .isolation_level(IsolationLevel::ReadCommitted)
        .set("bootstrap.servers", "localhost:9092");
    config.into_client_config().expect("group.id is set")
}

#[test]
fn defaults_match_kip() {
    let config = ShareConsumerConfig::new();
    assert_eq!(config.acknowledgement_mode, AcknowledgementMode::Implicit);
    assert_eq!(config.auto_offset_reset, AutoOffsetReset::Latest);
    assert_eq!(config.isolation_level, IsolationLevel::ReadUncommitted);
    assert_eq!(config.delivery_attempt_limit, 5);
    assert_eq!(config.record_lock_duration_ms, 30_000);
    assert!(config.heartbeat_interval_ms.is_none());
    assert!(config.session_timeout_ms.is_none());
}

#[test]
fn into_client_config_requires_group_id() {
    assert!(ShareConsumerConfig::new().into_client_config().is_none());
}

#[test]
fn into_client_config_writes_canonical_keys() {
    let mut config = ShareConsumerConfig::new();
    config
        .group_id("shares-1")
        .acknowledgement_mode(AcknowledgementMode::Explicit)
        .auto_offset_reset(AutoOffsetReset::Earliest)
        .isolation_level(IsolationLevel::ReadCommitted)
        .delivery_attempt_limit(7)
        .record_lock_duration_ms(45_000)
        .heartbeat_interval_ms(5_000)
        .session_timeout_ms(60_000)
        .set("bootstrap.servers", "localhost:9092");

    let client_config = config.into_client_config().expect("group.id set");
    let map = client_config.config_map();
    assert_eq!(map.get("group.id").copied(), Some("shares-1"));
    assert_eq!(
        map.get("share.acknowledgement.mode").copied(),
        Some("explicit")
    );
    assert_eq!(
        map.get("share.auto.offset.reset").copied(),
        Some("earliest")
    );
    assert_eq!(
        map.get("share.isolation.level").copied(),
        Some("read_committed")
    );
    assert_eq!(
        map.get("group.share.delivery.attempt.limit").copied(),
        Some("7")
    );
    assert_eq!(
        map.get("group.share.record.lock.duration.ms").copied(),
        Some("45000")
    );
    assert_eq!(
        map.get("group.share.heartbeat.interval.ms").copied(),
        Some("5000")
    );
    assert_eq!(
        map.get("group.share.session.timeout.ms").copied(),
        Some("60000")
    );
    assert_eq!(
        map.get("bootstrap.servers").copied(),
        Some("localhost:9092")
    );
}

#[test]
fn enum_parse_round_trip() {
    for mode in [AcknowledgementMode::Implicit, AcknowledgementMode::Explicit] {
        assert_eq!(mode.to_string().parse::<AcknowledgementMode>().unwrap(), mode);
    }
    for reset in [AutoOffsetReset::Earliest, AutoOffsetReset::Latest] {
        assert_eq!(reset.to_string().parse::<AutoOffsetReset>().unwrap(), reset);
    }
    for level in [IsolationLevel::ReadUncommitted, IsolationLevel::ReadCommitted] {
        assert_eq!(level.to_string().parse::<IsolationLevel>().unwrap(), level);
    }
}

#[test]
fn enum_parse_is_case_insensitive() {
    assert_eq!(
        "READ_COMMITTED".parse::<IsolationLevel>().unwrap(),
        IsolationLevel::ReadCommitted
    );
    assert_eq!(
        "Earliest".parse::<AutoOffsetReset>().unwrap(),
        AutoOffsetReset::Earliest
    );
}

#[test]
fn config_writes_canonical_keys() {
    let config = make_config();
    let map = config.config_map();
    assert_eq!(map.get("group.id").copied(), Some("share-consumer-smoke"));
    assert_eq!(
        map.get("share.acknowledgement.mode").copied(),
        Some("explicit")
    );
    assert_eq!(
        map.get("share.auto.offset.reset").copied(),
        Some("earliest")
    );
    assert_eq!(
        map.get("share.isolation.level").copied(),
        Some("read_committed")
    );
    assert_eq!(
        map.get("group.share.delivery.attempt.limit").copied(),
        Some("5")
    );
    assert_eq!(
        map.get("group.share.record.lock.duration.ms").copied(),
        Some("30000")
    );
    assert_eq!(
        map.get("bootstrap.servers").copied(),
        Some("localhost:9092")
    );
}

#[test]
fn default_constants_match_new() {
    assert_eq!(ShareConsumerConfig::DEFAULT_DELIVERY_ATTEMPT_LIMIT, 5);
    assert_eq!(ShareConsumerConfig::DEFAULT_RECORD_LOCK_DURATION_MS, 30_000);
    let config = ShareConsumerConfig::default();
    assert_eq!(config.delivery_attempt_limit, 5);
    assert!(config.group_id.is_none());
}

#[test]
fn enum_defaults() {
    assert_eq!(AcknowledgementMode::default(), AcknowledgementMode::Implicit);
    assert_eq!(AutoOffsetReset::default(), AutoOffsetReset::Latest);
    assert_eq!(IsolationLevel::default(), IsolationLevel::ReadUncommitted);
}

#[test]
fn unset_optional_settings_are_not_written() {
    let mut config = ShareConsumerConfig::new();
    config.group_id("g");
    let client_config = config.into_client_config().unwrap();
    assert_eq!(client_config.get("group.share.heartbeat.interval.ms"), None);
    assert_eq!(client_config.get("group.share.session.timeout.ms"), None);
    assert_eq!(client_config.get("share.acknowledgement.mode"), Some("implicit"));
    assert_eq!(client_config.get("share.auto.offset.reset"), Some("latest"));
    assert_eq!(client_config.get("share.isolation.level"), Some("read_uncommitted"));
}

#[test]
fn typed_settings_override_hand_set_properties() {
    let mut config = ShareConsumerConfig::new();
    config
        .set("share.isolation.level", "bogus")
        .set("group.id", "hand-set")
        .group_id("typed")
        .set("client.id", "c1");
    let client_config = config.into_client_config().unwrap();
    assert_eq!(client_config.get("share.isolation.level"), Some("read_uncommitted"));
    assert_eq!(client_config.get("group.id"), Some("typed"));
    assert_eq!(client_config.get("client.id"), Some("c1"));
}

#[test]
fn numbers_render_in_decimal() {
    let mut config = ShareConsumerConfig::new();
    config
        .group_id("g")
        .delivery_attempt_limit(0)
        .record_lock_duration_ms(u32::MAX)
        .heartbeat_interval_ms(10)
        .session_timeout_ms(9);
    let client_config = config.into_client_config().unwrap();
    assert_eq!(client_config.get("group.share.delivery.attempt.limit"), Some("0"));
    assert_eq!(
        client_config.get("group.share.record.lock.duration.ms"),
        Some("4294967295")
    );
    assert_eq!(client_config.get("group.share.heartbeat.interval.ms"), Some("10"));
    assert_eq!(client_config.get("group.share.session.timeout.ms"), Some("9"));
}

#[test]
fn later_setter_calls_win() {
    let mut config = ShareConsumerConfig::new();
    config
        .group_id("first")
        .group_id("second")
        .acknowledgement_mode(AcknowledgementMode::Explicit)
        .acknowledgement_mode(AcknowledgementMode::Implicit);
    let cloned = config.clone();
    let client_config = cloned.into_client_config().unwrap();
    assert_eq!(client_config.get("group.id"), Some("second"));
    assert_eq!(client_config.get("share.acknowledgement.mode"), Some("implicit"));
}

#[test]
fn config_enum_parse_errors() {
    let err = "sometimes".parse::<AcknowledgementMode>().unwrap_err();
    assert_eq!(
        err.to_string(),
        "unknown share config value \"sometimes\"; expected implicit or explicit"
    );
    let err = "middle".parse::<AutoOffsetReset>().unwrap_err();
    assert_eq!(
        err.to_string(),
        "unknown share config value \"middle\"; expected earliest or latest"
    );
    let err = "read-committed".parse::<IsolationLevel>().unwrap_err();
    assert_eq!(
        err.to_string(),
        "unknown share config value \"read-committed\"; expected read_uncommitted or read_committed"
    );
}

#[test]
fn enum_as_str_values() {
    assert_eq!(AcknowledgementMode::Explicit.as_str(), "explicit");
    assert_eq!(AutoOffsetReset::Latest.as_str(), "latest");
    assert_eq!(IsolationLevel::ReadUncommitted.as_str(), "read_uncommitted");
}

#[test]
fn config_message_assembly_from_quoted_text() {
    assert_eq!(
        ParseConfigEnumError::format_message("<q>", "a or b").as_str(),
        "unknown share config value <q>; expected a or b"
    );
}

#[test]
fn raw_group_id_property_does_not_count() {
    let mut config = ShareConsumerConfig::new();
    config.set("group.id", "g");
    assert!(config.into_client_config().is_none());
}
