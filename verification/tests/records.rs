use share_consumer::acknowledge::AcknowledgeType;
use share_consumer::error::KafkaError;
use share_consumer::records::{ShareConsumerRecords, ShareRecord};

#[test]
fn empty_batch_is_empty() {
    let batch = ShareConsumerRecords::empty();
    assert!(batch.is_empty());
    assert_eq!(batch.len(), 0);
    assert_eq!(batch.iter().count(), 0);
}

#[test]
fn record_getters_return_fields() {
    let key = [1u8, 2];
    let payload = [3u8];
    let record = ShareRecord::new("t".to_string(), 2, 42, 1, Some(&key), Some(&payload));
    assert_eq!(record.topic(), "t");
    assert_eq!(record.partition(), 2);
    assert_eq!(record.offset(), 42);
    assert_eq!(record.delivery_count(), 1);
    assert_eq!(record.key(), Some(&key[..]));
    assert_eq!(record.payload(), Some(&payload[..]));
}

#[test]
fn batch_keeps_order() {
    let a = ShareRecord::new("a".to_string(), 0, 1, 1, None, None);
    let b = ShareRecord::new("b".to_string(), 0, 2, 3, None, None);
    let batch = ShareConsumerRecords::new(vec![a, b]);
    assert!(!batch.is_empty());
    assert_eq!(batch.len(), 2);
    let offsets: Vec<i64> = batch.iter().map(|r| r.offset()).collect();
    assert_eq!(offsets, vec![1, 2]);
    let topics: Vec<&str> = (&batch).into_iter().map(|r| r.topic()).collect();
    assert_eq!(topics, vec!["a", "b"]);
    assert_eq!(batch.iter().next().unwrap().key(), None);
}

#[test]
fn record_acknowledge_is_unsupported() {
    let record = ShareRecord::new("t".to_string(), 0, 0, 1, None, None);
    match record.acknowledge(AcknowledgeType::Accept) {
        Err(KafkaError::Unsupported(reason)) => assert!(reason.contains("KIP-932")),
        other => panic!("expected Unsupported, got {other:?}"),
    }
}
