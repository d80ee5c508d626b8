//! Record batches returned from share consumer polls: per-record metadata
//! (topic, partition, offset, delivery count) plus borrowed key and
//! payload bytes.

use core::marker::PhantomData;

use vstd::prelude::*;
use vstd::std_specs::slice::*;

use crate::acknowledge::AcknowledgeType;
use crate::error::{unsupported, unsupported_error, KafkaError};

verus! {

/// What a [`ShareRecord`] holds.
pub struct ShareRecordView {
    /// Topic of the record.
    pub topic: Seq<char>,
    /// Partition of the record.
    pub partition: i32,
    /// Offset of the record within its partition.
    pub offset: i64,
    /// How often the record has been delivered.
    pub delivery_count: u32,
    /// Key bytes, if any.
    pub key: Option<Seq<u8>>,
    /// Payload bytes, if any.
    pub payload: Option<Seq<u8>>,
}

/// The bytes of an optional borrowed slice.
pub open spec fn bytes_view(b: Option<&[u8]>) -> Option<Seq<u8>> {
    match b {
        Some(s) => Some(s@),
        None => None,
    }
}

/// A single record returned from a share consumer poll.
#[derive(Debug)]
pub struct ShareRecord<'a> {
    topic: String,
    partition: i32,
    offset: i64,
    delivery_count: u32,
    key: Option<&'a [u8]>,
    payload: Option<&'a [u8]>,
    _phantom: PhantomData<&'a ()>,
}

impl<'a> View for ShareRecord<'a> {
    type V = ShareRecordView;

    closed spec fn view(&self) -> ShareRecordView {
        ShareRecordView {
            topic: self.topic@,
            partition: self.partition,
            offset: self.offset,
            delivery_count: self.delivery_count,
            key: bytes_view(self.key),
            payload: bytes_view(self.payload),
        }
    }
}

impl<'a> ShareRecord<'a> {
    /// Builds a record from its metadata and borrowed bytes.
    pub fn new(
        topic: String,
        partition: i32,
        offset: i64,
        delivery_count: u32,
        key: Option<&'a [u8]>,
        payload: Option<&'a [u8]>,
    ) -> (r: Self)
        ensures
            r@ == (ShareRecordView {
                topic: topic@,
                partition,
                offset,
                delivery_count,
                key: bytes_view(key),
                payload: bytes_view(payload),
            }),
    {
        ShareRecord { topic, partition, offset, delivery_count, key, payload, _phantom: PhantomData }
    }

    /// Topic of the record.
    pub fn topic(&self) -> (r: &str)
        ensures
            r@ == self@.topic,
    {
        self.topic.as_str()
    }

    /// Partition of the record.
    pub fn partition(&self) -> (r: i32)
        ensures
            r == self@.partition,
    {
        self.partition
    }

    /// Offset of the record within its partition.
    pub fn offset(&self) -> (r: i64)
        ensures
            r == self@.offset,
    {
        self.offset
    }

    /// Number of times the broker has delivered this record to a share
    /// consumer in the group; `1` on the first delivery.
    pub fn delivery_count(&self) -> (r: u32)
        ensures
            r == self@.delivery_count,
    {
        self.delivery_count
    }

    /// Borrowed key bytes, if the record carries a key.
    pub fn key(&self) -> (r: Option<&[u8]>)
        ensures
            bytes_view(r) == self@.key,
    {
        self.key
    }

    /// Borrowed payload bytes, if the record carries a payload.
    pub fn payload(&self) -> (r: Option<&[u8]>)
        ensures
            bytes_view(r) == self@.payload,
    {
        self.payload
    }

    /// Acknowledges this record with the given disposition.
    ///
    /// Always reports that share consumer support is not available.
    pub fn acknowledge(&self, ack: AcknowledgeType) -> (r: Result<(), KafkaError>)
        ensures
            r == Err::<(), KafkaError>(unsupported_error()),
    {
        unsupported()
    }
}

/// A batch of records returned from a share consumer poll.
#[derive(Debug)]
pub struct ShareConsumerRecords<'a> {
    records: Vec<ShareRecord<'a>>,
}

impl<'a> View for ShareConsumerRecords<'a> {
    type V = Seq<ShareRecord<'a>>;

    /// The records, in delivery order.
    closed spec fn view(&self) -> Seq<ShareRecord<'a>> {
        self.records@
    }
}

impl<'a> ShareConsumerRecords<'a> {
    /// Returns an empty batch.
    pub fn empty() -> (r: Self)
        ensures
            r@ == Seq::<ShareRecord<'a>>::empty(),
    {
        ShareConsumerRecords { records: Vec::new() }
    }

    /// A batch holding `records`, in that order.
    pub fn new(records: Vec<ShareRecord<'a>>) -> (r: Self)
        ensures
            r@ == records@,
    {
        ShareConsumerRecords { records }
    }

    /// Returns `true` if the batch contains no records.
    pub fn is_empty(&self) -> (r: bool)
        ensures
            r == (self@.len() == 0),
    {
        self.records.len() == 0
    }

    /// Returns the number of records in the batch.
    pub fn len(&self) -> (r: usize)
        ensures
            r == self@.len(),
    {
        self.records.len()
    }

    /// Borrows the records in iteration order.
    pub fn iter(&self) -> (r: core::slice::Iter<'_, ShareRecord<'a>>)
        ensures
            into_iter_elts(r) == self@,
    {
        let r = self.records.as_slice().iter();
        r
    }
}

impl<'a, 'b> IntoIterator for &'b ShareConsumerRecords<'a> {
    type Item = &'b ShareRecord<'a>;
    type IntoIter = core::slice::Iter<'b, ShareRecord<'a>>;

    fn into_iter(self) -> (r: Self::IntoIter)
        ensures
            into_iter_elts(r) == self@,
    {
        self.iter()
    }
}

} // verus!
