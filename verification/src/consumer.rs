//! The share consumer trait and the base share consumer, whose runtime
//! methods report that the broker protocol is not available yet.

use std::sync::Arc;

use vstd::prelude::*;

use crate::acknowledge::AcknowledgeType;
use crate::client::{ClientConfig, FromClientConfig, FromClientConfigAndContext};
use crate::context::{DefaultShareConsumerContext, ShareConsumerContext};
use crate::error::{unsupported, unsupported_error, KafkaError, KafkaResult};
use crate::records::{ShareConsumerRecords, ShareRecord};
use crate::text::string_from;
use crate::util::Timeout;

verus! {

/// Common trait for share consumers.
///
/// All methods are non-blocking apart from [`Self::poll`] and
/// [`Self::commit_sync`], which respect the supplied timeout.
pub trait ShareConsumer<C: ShareConsumerContext = DefaultShareConsumerContext> {
    /// Returns the consumer context.
    fn context(&self) -> &Arc<C>;

    /// Subscribes the consumer to a list of topics. The broker assigns
    /// partitions automatically.
    fn subscribe(&self, topics: &[&str]) -> KafkaResult<()>;

    /// Unsubscribes the consumer from all topics.
    fn unsubscribe(&self) -> KafkaResult<()>;

    /// Returns the current subscription list.
    fn subscription(&self) -> KafkaResult<Vec<String>>;

    /// Fetches the next batch of acquired records.
    fn poll<T: Into<Timeout>>(&self, timeout: T) -> KafkaResult<ShareConsumerRecords<'_>>;

    /// Acknowledges a record with the given disposition.
    fn acknowledge(&self, record: &ShareRecord<'_>, ack: AcknowledgeType) -> KafkaResult<()>;

    /// Acknowledges a record by (topic, partition, offset).
    fn acknowledge_offset(
        &self,
        topic: &str,
        partition: i32,
        offset: i64,
        ack: AcknowledgeType,
    ) -> KafkaResult<()>;

    /// Synchronously commits all pending acknowledgements.
    fn commit_sync<T: Into<Timeout>>(&self, timeout: T) -> KafkaResult<()>;

    /// Asynchronously commits all pending acknowledgements; results are
    /// reported through the context.
    fn commit_async(&self) -> KafkaResult<()>;

    /// Interrupts an in-progress [`Self::poll`] from another thread.
    fn wakeup(&self);

    /// Releases acquired records, commits pending acknowledgements, and
    /// leaves the share group.
    fn close(&self) -> KafkaResult<()>;
}

/// The message of the error returned when `group.id` is missing.
pub open spec fn missing_group_id_message() -> Seq<char> {
    "share consumer requires group.id to be set"@
}

/// What building a share consumer from properties `config` gives: the
/// group identifier, or the error for a missing one.
pub open spec fn creation_outcome(config: Map<Seq<char>, Seq<char>>) -> Result<Seq<char>, Seq<char>> {
    if config.contains_key("group.id"@) {
        Ok(config["group.id"@])
    } else {
        Err(missing_group_id_message())
    }
}

/// Low-level share consumer: construction reads the configuration and
/// keeps the context; every runtime method reports that share consumer
/// support is not available.
pub struct BaseShareConsumer<C: ShareConsumerContext = DefaultShareConsumerContext> {
    context: Arc<C>,
    group_id: String,
}

impl<C: ShareConsumerContext> BaseShareConsumer<C> {
    /// The configured share group identifier.
    pub closed spec fn group(&self) -> Seq<char> {
        self.group_id@
    }

    /// The context the consumer was built with.
    pub closed spec fn context_value(&self) -> C {
        *self.context
    }

    /// Whether `r` is what building from properties `config` with
    /// `context` gives.
    pub open spec fn built_from(
        r: KafkaResult<Self>,
        config: Map<Seq<char>, Seq<char>>,
        context: C,
    ) -> bool {
        match creation_outcome(config) {
            Ok(g) => r matches Ok(c) && c.group() == g && c.context_value() == context,
            Err(m) => r matches Err(KafkaError::ClientCreation(e)) && e@ == m,
        }
    }

    fn new(config: &ClientConfig, context: C) -> (r: KafkaResult<Self>)
        ensures
            Self::built_from(r, config@, context),
    {
        match config.get("group.id") {
            Some(g) => Ok(BaseShareConsumer { context: Arc::new(context), group_id: string_from(g) }),
            None => Err(KafkaError::ClientCreation(
                string_from("share consumer requires group.id to be set"),
            )),
        }
    }

    /// Returns the configured share group identifier.
    pub fn group_id(&self) -> (r: &str)
        ensures
            r@ == self.group(),
    {
        self.group_id.as_str()
    }
}

impl FromClientConfig for BaseShareConsumer<DefaultShareConsumerContext> {
    fn from_config(config: &ClientConfig) -> (r: KafkaResult<Self>)
        ensures
            Self::built_from(r, config@, DefaultShareConsumerContext),
    {
        BaseShareConsumer::new(config, DefaultShareConsumerContext)
    }
}

impl<C: ShareConsumerContext> FromClientConfigAndContext<C> for BaseShareConsumer<C> {
    fn from_config_and_context(config: &ClientConfig, context: C) -> (r: KafkaResult<Self>)
        ensures
            Self::built_from(r, config@, context),
    {
        BaseShareConsumer::new(config, context)
    }
}

impl<C: ShareConsumerContext> ShareConsumer<C> for BaseShareConsumer<C> {
    fn context(&self) -> (r: &Arc<C>)
        ensures
            **r == self.context_value(),
    {
        &self.context
    }

    fn subscribe(&self, topics: &[&str]) -> (r: KafkaResult<()>)
        ensures
            r == Err::<(), KafkaError>(unsupported_error()),
    {
        unsupported()
    }

    fn unsubscribe(&self) -> (r: KafkaResult<()>)
        ensures
            r == Err::<(), KafkaError>(unsupported_error()),
    {
        unsupported()
    }

    fn subscription(&self) -> (r: KafkaResult<Vec<String>>)
        ensures
            r == Err::<Vec<String>, KafkaError>(unsupported_error()),
    {
        unsupported()
    }

    fn poll<T: Into<Timeout>>(&self, timeout: T) -> (r: KafkaResult<ShareConsumerRecords<'_>>)
        ensures
            r == Err::<ShareConsumerRecords<'_>, KafkaError>(unsupported_error()),
    {
        unsupported()
    }

    fn acknowledge(&self, record: &ShareRecord<'_>, ack: AcknowledgeType) -> (r: KafkaResult<()>)
        ensures
            r == Err::<(), KafkaError>(unsupported_error()),
    {
        unsupported()
    }

    fn acknowledge_offset(
        &self,
        topic: &str,
        partition: i32,
        offset: i64,
        ack: AcknowledgeType,
    ) -> (r: KafkaResult<()>)
        ensures
            r == Err::<(), KafkaError>(unsupported_error()),
    {
        unsupported()
    }

    fn commit_sync<T: Into<Timeout>>(&self, timeout: T) -> (r: KafkaResult<()>)
        ensures
            r == Err::<(), KafkaError>(unsupported_error()),
    {
        unsupported()
    }

    fn commit_async(&self) -> (r: KafkaResult<()>)
        ensures
            r == Err::<(), KafkaError>(unsupported_error()),
    {
        unsupported()
    }

    /// A no-op until the broker protocol is available.
    fn wakeup(&self) {
    }

    /// A no-op until the broker protocol is available; always succeeds.
    fn close(&self) -> (r: KafkaResult<()>)
        ensures
            r == Ok::<(), KafkaError>(()),
    {
        Ok(())
    }
}

/// A consumer built from the client configuration that a share
/// configuration with group identifier `g` writes belongs to group `g`.
pub proof fn lemma_consumer_group_from_share_config(c: crate::config::ShareConfigState, g: Seq<char>)
    ensures
        creation_outcome(crate::config::share_properties(c, g)) == Ok::<Seq<char>, Seq<char>>(g),
{
    crate::config::lemma_share_properties_settings(c, g);
}

/// Declares `core::fmt::Formatter`, through which `Debug` writes.
#[verifier::external_type_specification]
#[verifier::external_body]
pub struct ExFormatter<'a>(core::fmt::Formatter<'a>);

/// Declares `core::fmt::Error`, the error of a formatting call.
#[verifier::external_type_specification]
#[verifier::external_body]
pub struct ExFmtError(core::fmt::Error);

impl<C: ShareConsumerContext> core::fmt::Debug for BaseShareConsumer<C> {
    /// Writes the group identifier only, marking the remaining fields as
    /// elided.
    ///
    /// Trusted: calls `Formatter::debug_struct`, then `field` and
    /// `finish_non_exhaustive` on the builder it returns; nothing is
    /// claimed of the output.
    #[verifier::external_body]
    fn fmt(&self, f: &mut core::fmt::Formatter<'_>) -> core::fmt::Result {
        f.debug_struct("BaseShareConsumer").field("group_id", &self.group_id).finish_non_exhaustive()
    }
}

} // verus!
