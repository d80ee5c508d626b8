use std::time::Duration;

use share_consumer::acknowledge::AcknowledgeType;
use share_consumer::client::{ClientConfig, FromClientConfig, FromClientConfigAndContext};
use share_consumer::config::{
    AcknowledgementMode, AutoOffsetReset, IsolationLevel, ShareConsumerConfig,
};
use share_consumer::consumer::{BaseShareConsumer, ShareConsumer};
use share_consumer::context::DefaultShareConsumerContext;
use share_consumer::error::{KafkaError, KafkaResult};
use share_consumer::records::ShareRecord;

fn make_config() -> ClientConfig {
    let mut config = ShareConsumerConfig::new();
    config.group_id("share-test");
    config.into_client_config().expect("group.id set")
}

fn make_smoke_config() -> ClientConfig {
    let mut config = ShareConsumerConfig::new();
    config
        .group_id("share-consumer-smoke")
        .acknowledgement_mode(AcknowledgementMode::Explicit)
        .auto_offset_reset(AutoOffsetReset::Earliest)
        .isolation_level(IsolationLevel::ReadCommitted)
        .set("bootstrap.servers", "localhost:9092");
    config.into_client_config().expect("group.id is set")
}

fn assert_unsupported<T: std::fmt::Debug>(result: KafkaResult<T>) {
    match result {
        Err(KafkaError::Unsupported(reason)) => {
            assert!(
                reason.contains("KIP-932"),
                "expected KIP-932 marker in reason, got {reason:?}"
            );
        }
        other => panic!("expected Unsupported, got {other:?}"),
    }
}

#[test]
fn construction_requires_group_id() {
    let config = ClientConfig::new();
    let err = BaseShareConsumer::<DefaultShareConsumerContext>::from_config(&config)
        .expect_err("missing group.id should fail");
    match err {
        KafkaError::ClientCreation(msg) => assert!(msg.contains("group.id")),
        other => panic!("expected ClientCreation, got {other:?}"),
    }
}

#[test]
fn construction_succeeds_with_group_id() {
    let config = make_config();
    let consumer = BaseShareConsumer::<DefaultShareConsumerContext>::from_config(&config)
        .expect("config has group.id");
    assert_eq!(consumer.group_id(), "share-test");
}

#[test]
fn consumer_runtime_methods_return_unsupported() {
    let consumer = BaseShareConsumer::<DefaultShareConsumerContext>::from_config(&make_config())
        .expect("construction");

    assert_unsupported(consumer.subscribe(&["topic"]));
    assert_unsupported(consumer.unsubscribe());
    assert_unsupported(consumer.subscription());
    assert_unsupported(consumer.poll(std::time::Duration::from_millis(0)));
    assert_unsupported(consumer.acknowledge_offset("topic", 0, 42, AcknowledgeType::Accept));
    assert_unsupported(consumer.commit_sync(std::time::Duration::from_millis(0)));
    assert_unsupported(consumer.commit_async());

    consumer.wakeup();
    consumer.close().expect("close stub is Ok");
}

#[test]
fn construction_round_trip() {
    let config = make_smoke_config();
    let consumer = BaseShareConsumer::<DefaultShareConsumerContext>::from_config(&config).unwrap();
    assert_eq!(consumer.group_id(), "share-consumer-smoke");
}

#[test]
fn construction_with_context() {
    let config = make_smoke_config();
    let consumer =
        BaseShareConsumer::from_config_and_context(&config, DefaultShareConsumerContext).unwrap();
    assert_eq!(consumer.group_id(), "share-consumer-smoke");
}

#[test]
fn test_share_consumer_runtime_methods_return_unsupported() {
    let config = make_smoke_config();
    let consumer = BaseShareConsumer::<DefaultShareConsumerContext>::from_config(&config).unwrap();

    assert_unsupported(consumer.subscribe(&["topic-a", "topic-b"]));
    assert_unsupported(consumer.unsubscribe());
    assert_unsupported(consumer.subscription());
    assert_unsupported(consumer.poll(Duration::from_millis(10)));
    assert_unsupported(consumer.acknowledge_offset("topic-a", 0, 42, AcknowledgeType::Accept));
    assert_unsupported(consumer.commit_sync(Duration::from_millis(10)));
    assert_unsupported(consumer.commit_async());
}

#[test]
fn close_and_wakeup_are_safe_no_ops() {
    let config = make_smoke_config();
    let consumer = BaseShareConsumer::<DefaultShareConsumerContext>::from_config(&config).unwrap();
    consumer.wakeup();
    consumer.close().expect("close stub returns Ok");
}

#[test]
fn construction_error_message_is_exact() {
    let mut config = ClientConfig::new();
    config.set("bootstrap.servers", "localhost:9092");
    match BaseShareConsumer::<DefaultShareConsumerContext>::from_config(&config) {
        Err(KafkaError::ClientCreation(msg)) => {
            assert_eq!(msg, "share consumer requires group.id to be set")
        }
        other => panic!("expected ClientCreation, got {other:?}"),
    }
}

#[test]
fn construction_from_hand_written_group_id() {
    let mut config = ClientConfig::new();
    config.set("group.id", "by-hand");
    let consumer = BaseShareConsumer::<DefaultShareConsumerContext>::from_config(&config).unwrap();
    assert_eq!(consumer.group_id(), "by-hand");
}

#[test]
fn acknowledge_record_and_poll_without_timeout_are_unsupported() {
    let consumer = BaseShareConsumer::<DefaultShareConsumerContext>::from_config(&make_config())
        .unwrap();
    let record = ShareRecord::new("topic".to_string(), 0, 1, 1, None, None);
    assert_unsupported(consumer.acknowledge(&record, AcknowledgeType::Release));
    assert_unsupported(consumer.poll(None::<Duration>));
    let _context = consumer.context();
}

#[test]
fn debug_shows_group_id_only() {
    let consumer = BaseShareConsumer::<DefaultShareConsumerContext>::from_config(&make_config())
        .unwrap();
    assert_eq!(
        format!("{:?}", consumer),
        "BaseShareConsumer { group_id: \"share-test\", .. }"
    );
}
