//! Share consumer configuration: typed enums for the share properties,
//! and a builder that writes them, with the canonical keys, into a
//! [`ClientConfig`].

use vstd::prelude::*;
use vstd::string::*;

use crate::client::ClientConfig;
use crate::text::{
    ascii_lower_seq, debug_quoted, has_no_ascii_upper, is_ascii_case_variant,
    lemma_ascii_lower_matches_case_variants, debug_str, decimal, eq_ignore_ascii_case,
    lemma_ascii_lower_idempotent, string_from, u32_to_decimal,
};

verus! {

/// Whether the share consumer auto-acknowledges records on the next
/// `poll` (`Implicit`) or requires the application to acknowledge each
/// record explicitly (`Explicit`).
#[derive(Clone, Copy, Debug, PartialEq, Eq, Hash, Structural)]
pub enum AcknowledgementMode {
    /// The next call to `poll` or `commit_sync`/`commit_async`
    /// acknowledges every record returned by the previous `poll`.
    Implicit,
    /// The application must call `acknowledge` on every record before
    /// the next `poll`, otherwise an error is raised.
    Explicit,
}

impl AcknowledgementMode {
    /// The canonical librdkafka name of this acknowledgement mode.
    pub open spec fn wire_name(self) -> Seq<char> {
        match self {
            AcknowledgementMode::Implicit => "implicit"@,
            AcknowledgementMode::Explicit => "explicit"@,
        }
    }

    /// Returns the canonical librdkafka string for this acknowledgement mode.
    pub fn as_str(&self) -> (r: &'static str)
        ensures
            r@ == self.wire_name(),
    {
        match self {
            AcknowledgementMode::Implicit => "implicit",
            AcknowledgementMode::Explicit => "explicit",
        }
    }

    /// The canonical name as an owned string (what `Display` writes).
    pub fn to_string(&self) -> (r: String)
        ensures
            r@ == self.wire_name(),
    {
        string_from(self.as_str())
    }
}

impl Default for AcknowledgementMode {
    fn default() -> (r: Self)
        ensures
            r == AcknowledgementMode::Implicit,
    {
        AcknowledgementMode::Implicit
    }
}

/// The acknowledgement mode named by `s`, ignoring ASCII case, if any.
pub open spec fn acknowledgement_mode_named(s: Seq<char>) -> Option<AcknowledgementMode> {
    let l = ascii_lower_seq(s);
    if l == AcknowledgementMode::Implicit.wire_name() {
        Some(AcknowledgementMode::Implicit)
    } else if l == AcknowledgementMode::Explicit.wire_name() {
        Some(AcknowledgementMode::Explicit)
    } else {
        None
    }
}

/// Parsing the canonical name of an acknowledgement mode gives it back.
pub proof fn lemma_acknowledgement_mode_round_trip(a: AcknowledgementMode)
    ensures
        acknowledgement_mode_named(a.wire_name()) == Some(a),
{
    reveal_strlit("implicit");
    reveal_strlit("explicit");
    assert(ascii_lower_seq("implicit"@) =~= "implicit"@);
    assert(ascii_lower_seq("explicit"@) =~= "explicit"@);
    assert("explicit"@[0] != "implicit"@[0]);
}

/// Parsing an acknowledgement mode ignores ASCII case.
pub proof fn lemma_acknowledgement_mode_case_insensitive(s: Seq<char>)
    ensures
        acknowledgement_mode_named(s) == acknowledgement_mode_named(ascii_lower_seq(s)),
{
    lemma_ascii_lower_idempotent(s);
}

/// A text names a value exactly when it is that value's canonical name
/// with any of its letters written in ASCII upper case.
pub proof fn lemma_acknowledgement_mode_case_variants(s: Seq<char>, a: AcknowledgementMode)
    ensures
        acknowledgement_mode_named(s) == Some(a) <==> is_ascii_case_variant(s, a.wire_name()),
{
    reveal_strlit("implicit");
    reveal_strlit("explicit");
    assert("explicit"@[0] != "implicit"@[0]);
    assert(has_no_ascii_upper(a.wire_name()));
    lemma_ascii_lower_matches_case_variants(s, a.wire_name());
}

impl core::str::FromStr for AcknowledgementMode {
    type Err = ParseConfigEnumError;

    /// Parses a canonical name, ignoring ASCII case.
    fn from_str(s: &str) -> (r: Result<Self, Self::Err>)
        ensures
            match acknowledgement_mode_named(s@) {
                Some(a) => r == Ok::<Self, Self::Err>(a),
                None => r matches Err(e) && e@ == (s@, "implicit or explicit"@),
            },
    {
        if eq_ignore_ascii_case(s, "implicit") {
            Ok(AcknowledgementMode::Implicit)
        } else if eq_ignore_ascii_case(s, "explicit") {
            Ok(AcknowledgementMode::Explicit)
        } else {
            Err(ParseConfigEnumError { value: string_from(s), expected: "implicit or explicit" })
        }
    }
}

/// Initial position for the share-partition start offset when a share
/// group reads a topic for the first time.
#[derive(Clone, Copy, Debug, PartialEq, Eq, Hash, Structural)]
pub enum AutoOffsetReset {
    /// Start from the earliest available offset.
    Earliest,
    /// Start from the latest (next-produced) offset.
    Latest,
}

impl AutoOffsetReset {
    /// The canonical librdkafka name of this reset policy.
    pub open spec fn wire_name(self) -> Seq<char> {
        match self {
            AutoOffsetReset::Earliest => "earliest"@,
            AutoOffsetReset::Latest => "latest"@,
        }
    }

    /// Returns the canonical librdkafka string for this reset policy.
    pub fn as_str(&self) -> (r: &'static str)
        ensures
            r@ == self.wire_name(),
    {
        match self {
            AutoOffsetReset::Earliest => "earliest",
            AutoOffsetReset::Latest => "latest",
        }
    }

    /// The canonical name as an owned string (what `Display` writes).
    pub fn to_string(&self) -> (r: String)
        ensures
            r@ == self.wire_name(),
    {
        string_from(self.as_str())
    }
}

impl Default for AutoOffsetReset {
    fn default() -> (r: Self)
        ensures
            r == AutoOffsetReset::Latest,
    {
        AutoOffsetReset::Latest
    }
}

/// The reset policy named by `s`, ignoring ASCII case, if any.
pub open spec fn auto_offset_reset_named(s: Seq<char>) -> Option<AutoOffsetReset> {
    let l = ascii_lower_seq(s);
    if l == AutoOffsetReset::Earliest.wire_name() {
        Some(AutoOffsetReset::Earliest)
    } else if l == AutoOffsetReset::Latest.wire_name() {
        Some(AutoOffsetReset::Latest)
    } else {
        None
    }
}

/// Parsing the canonical name of a reset policy gives it back.
pub proof fn lemma_auto_offset_reset_round_trip(a: AutoOffsetReset)
    ensures
        auto_offset_reset_named(a.wire_name()) == Some(a),
{
    reveal_strlit("earliest");
    reveal_strlit("latest");
    assert(ascii_lower_seq("earliest"@) =~= "earliest"@);
    assert(ascii_lower_seq("latest"@) =~= "latest"@);
    assert("latest"@[0] != "earliest"@[0]);
}

/// Parsing a reset policy ignores ASCII case.
pub proof fn lemma_auto_offset_reset_case_insensitive(s: Seq<char>)
    ensures
        auto_offset_reset_named(s) == auto_offset_reset_named(ascii_lower_seq(s)),
{
    lemma_ascii_lower_idempotent(s);
}

/// A text names a value exactly when it is that value's canonical name
/// with any of its letters written in ASCII upper case.
pub proof fn lemma_auto_offset_reset_case_variants(s: Seq<char>, a: AutoOffsetReset)
    ensures
        auto_offset_reset_named(s) == Some(a) <==> is_ascii_case_variant(s, a.wire_name()),
{
    reveal_strlit("earliest");
    reveal_strlit("latest");
    assert("latest"@[0] != "earliest"@[0]);
    assert(has_no_ascii_upper(a.wire_name()));
    lemma_ascii_lower_matches_case_variants(s, a.wire_name());
}

impl core::str::FromStr for AutoOffsetReset {
    type Err = ParseConfigEnumError;

    /// Parses a canonical name, ignoring ASCII case.
    fn from_str(s: &str) -> (r: Result<Self, Self::Err>)
        ensures
            match auto_offset_reset_named(s@) {
                Some(a) => r == Ok::<Self, Self::Err>(a),
                None => r matches Err(e) && e@ == (s@, "earliest or latest"@),
            },
    {
        if eq_ignore_ascii_case(s, "earliest") {
            Ok(AutoOffsetReset::Earliest)
        } else if eq_ignore_ascii_case(s, "latest") {
            Ok(AutoOffsetReset::Latest)
        } else {
            Err(ParseConfigEnumError { value: string_from(s), expected: "earliest or latest" })
        }
    }
}

/// Per-share-group transactional isolation. Applies to the entire share
/// group, not per consumer.
#[derive(Clone, Copy, Debug, PartialEq, Eq, Hash, Structural)]
pub enum IsolationLevel {
    /// All produced records are visible (including aborted transactions).
    ReadUncommitted,
    /// Only committed records are visible; aborted records are filtered
    /// out by the broker.
    ReadCommitted,
}

impl IsolationLevel {
    /// The canonical librdkafka name of this isolation level.
    pub open spec fn wire_name(self) -> Seq<char> {
        match self {
            IsolationLevel::ReadUncommitted => "read_uncommitted"@,
            IsolationLevel::ReadCommitted => "read_committed"@,
        }
    }

    /// Returns the canonical librdkafka string for this isolation level.
    pub fn as_str(&self) -> (r: &'static str)
        ensures
            r@ == self.wire_name(),
    {
        match self {
            IsolationLevel::ReadUncommitted => "read_uncommitted",
            IsolationLevel::ReadCommitted => "read_committed",
        }
    }

    /// The canonical name as an owned string (what `Display` writes).
    pub fn to_string(&self) -> (r: String)
        ensures
            r@ == self.wire_name(),
    {
        string_from(self.as_str())
    }
}

impl Default for IsolationLevel {
    fn default() -> (r: Self)
        ensures
            r == IsolationLevel::ReadUncommitted,
    {
        IsolationLevel::ReadUncommitted
    }
}

/// The isolation level named by `s`, ignoring ASCII case, if any.
pub open spec fn isolation_level_named(s: Seq<char>) -> Option<IsolationLevel> {
    let l = ascii_lower_seq(s);
    if l == IsolationLevel::ReadUncommitted.wire_name() {
        Some(IsolationLevel::ReadUncommitted)
    } else if l == IsolationLevel::ReadCommitted.wire_name() {
        Some(IsolationLevel::ReadCommitted)
    } else {
        None
    }
}

/// Parsing the canonical name of a isolation level gives it back.
pub proof fn lemma_isolation_level_round_trip(a: IsolationLevel)
    ensures
        isolation_level_named(a.wire_name()) == Some(a),
{
    reveal_strlit("read_uncommitted");
    reveal_strlit("read_committed");
    assert(ascii_lower_seq("read_uncommitted"@) =~= "read_uncommitted"@);
    assert(ascii_lower_seq("read_committed"@) =~= "read_committed"@);
    assert("read_committed"@[5] != "read_uncommitted"@[5]);
}

/// Parsing a isolation level ignores ASCII case.
pub proof fn lemma_isolation_level_case_insensitive(s: Seq<char>)
    ensures
        isolation_level_named(s) == isolation_level_named(ascii_lower_seq(s)),
{
    lemma_ascii_lower_idempotent(s);
}

/// A text names a value exactly when it is that value's canonical name
/// with any of its letters written in ASCII upper case.
pub proof fn lemma_isolation_level_case_variants(s: Seq<char>, a: IsolationLevel)
    ensures
        isolation_level_named(s) == Some(a) <==> is_ascii_case_variant(s, a.wire_name()),
{
    reveal_strlit("read_uncommitted");
    reveal_strlit("read_committed");
    assert("read_committed"@[5] != "read_uncommitted"@[5]);
    assert(has_no_ascii_upper(a.wire_name()));
    lemma_ascii_lower_matches_case_variants(s, a.wire_name());
}

impl core::str::FromStr for IsolationLevel {
    type Err = ParseConfigEnumError;

    /// Parses a canonical name, ignoring ASCII case.
    fn from_str(s: &str) -> (r: Result<Self, Self::Err>)
        ensures
            match isolation_level_named(s@) {
                Some(a) => r == Ok::<Self, Self::Err>(a),
                None => r matches Err(e) && e@ == (s@, "read_uncommitted or read_committed"@),
            },
    {
        if eq_ignore_ascii_case(s, "read_uncommitted") {
            Ok(IsolationLevel::ReadUncommitted)
        } else if eq_ignore_ascii_case(s, "read_committed") {
            Ok(IsolationLevel::ReadCommitted)
        } else {
            Err(ParseConfigEnumError { value: string_from(s), expected: "read_uncommitted or read_committed" })
        }
    }
}

/// Error returned by the share-config enum parsers when the input does
/// not match any known variant.
#[derive(Clone, Debug, PartialEq, Eq)]
pub struct ParseConfigEnumError {
    value: String,
    expected: &'static str,
}

impl View for ParseConfigEnumError {
    type V = (Seq<char>, Seq<char>);

    /// The rejected input, and the description of what was expected.
    closed spec fn view(&self) -> (Seq<char>, Seq<char>) {
        (self.value@, self.expected@)
    }
}

impl ParseConfigEnumError {
    /// The message that `Display` writes.
    pub open spec fn message(v: (Seq<char>, Seq<char>)) -> Seq<char> {
        Self::message_with_quoted(debug_quoted(v.0), v.1)
    }

    /// The message, given the quoted input and what was expected.
    pub open spec fn message_with_quoted(quoted: Seq<char>, expected: Seq<char>) -> Seq<char> {
        "unknown share config value "@ + quoted + "; expected "@ + expected
    }

    /// Assembles the message from the already quoted input and the
    /// description of what was expected.
    pub fn format_message(quoted: &str, expected: &str) -> (r: String)
        ensures
            r@ == Self::message_with_quoted(quoted@, expected@),
    {
        let mut out = string_from("unknown share config value ");
        out.append(quoted);
        out.append("; expected ");
        out.append(expected);
        out
    }

    /// Renders the error message, which quotes the rejected input.
    pub fn to_string(&self) -> (r: String)
        ensures
            r@ == Self::message(self@),
    {
        let quoted = debug_str(self.value.as_str());
        Self::format_message(quoted.as_str(), self.expected)
    }
}

/// The abstract state of a [`ShareConsumerConfig`]: the typed share
/// settings and the untyped properties set so far.
pub struct ShareConfigState {
    /// Arbitrary properties set through `set`.
    pub properties: Map<Seq<char>, Seq<char>>,
    /// The share group identifier, once set.
    pub group_id: Option<Seq<char>>,
    /// The acknowledgement mode.
    pub acknowledgement_mode: AcknowledgementMode,
    /// The reset policy for the share-partition start offset.
    pub auto_offset_reset: AutoOffsetReset,
    /// The isolation level.
    pub isolation_level: IsolationLevel,
    /// The delivery attempt limit.
    pub delivery_attempt_limit: u32,
    /// The record lock duration, in milliseconds.
    pub record_lock_duration_ms: u32,
    /// The heartbeat interval in milliseconds, once set.
    pub heartbeat_interval_ms: Option<u32>,
    /// The session timeout in milliseconds, once set.
    pub session_timeout_ms: Option<u32>,
}

/// Typed builder for the share consumer configuration values.
///
/// Share specific fields are typed; arbitrary properties (for example
/// `bootstrap.servers`) flow through the embedded [`ClientConfig`].
/// [`ShareConsumerConfig::into_client_config`] writes the final
/// [`ClientConfig`] with the canonical keys.
#[derive(Debug)]
pub struct ShareConsumerConfig {
    /// The untyped properties set through `set`.
    pub base: ClientConfig,
    /// `group.id`; required.
    pub group_id: Option<String>,
    /// `share.acknowledgement.mode`.
    pub acknowledgement_mode: AcknowledgementMode,
    /// `share.auto.offset.reset`.
    pub auto_offset_reset: AutoOffsetReset,
    /// `share.isolation.level`.
    pub isolation_level: IsolationLevel,
    /// `group.share.delivery.attempt.limit`.
    pub delivery_attempt_limit: u32,
    /// `group.share.record.lock.duration.ms`.
    pub record_lock_duration_ms: u32,
    /// `group.share.heartbeat.interval.ms`; the broker default when unset.
    pub heartbeat_interval_ms: Option<u32>,
    /// `group.share.session.timeout.ms`; the broker default when unset.
    pub session_timeout_ms: Option<u32>,
}

impl View for ShareConsumerConfig {
    type V = ShareConfigState;

    open spec fn view(&self) -> ShareConfigState {
        ShareConfigState {
            properties: self.base@,
            group_id: match self.group_id {
                Some(g) => Some(g@),
                None => None,
            },
            acknowledgement_mode: self.acknowledgement_mode,
            auto_offset_reset: self.auto_offset_reset,
            isolation_level: self.isolation_level,
            delivery_attempt_limit: self.delivery_attempt_limit,
            record_lock_duration_ms: self.record_lock_duration_ms,
            heartbeat_interval_ms: self.heartbeat_interval_ms,
            session_timeout_ms: self.session_timeout_ms,
        }
    }
}

/// The state of a configuration just created: the share defaults.
pub open spec fn default_share_config() -> ShareConfigState {
    ShareConfigState {
        properties: Map::empty(),
        group_id: None,
        acknowledgement_mode: AcknowledgementMode::Implicit,
        auto_offset_reset: AutoOffsetReset::Latest,
        isolation_level: IsolationLevel::ReadUncommitted,
        delivery_attempt_limit: 5,
        record_lock_duration_ms: 30000,
        heartbeat_interval_ms: None,
        session_timeout_ms: None,
    }
}

/// One call of a builder method of [`ShareConsumerConfig`], with its
/// argument.
pub enum ShareConfigCall {
    /// `group_id(g)`.
    GroupId(Seq<char>),
    /// `acknowledgement_mode(m)`.
    AcknowledgementMode(AcknowledgementMode),
    /// `auto_offset_reset(r)`.
    AutoOffsetReset(AutoOffsetReset),
    /// `isolation_level(l)`.
    IsolationLevel(IsolationLevel),
    /// `delivery_attempt_limit(n)`.
    DeliveryAttemptLimit(u32),
    /// `record_lock_duration_ms(n)`.
    RecordLockDurationMs(u32),
    /// `heartbeat_interval_ms(n)`.
    HeartbeatIntervalMs(u32),
    /// `session_timeout_ms(n)`.
    SessionTimeoutMs(u32),
    /// `set(key, value)`.
    SetProperty(Seq<char>, Seq<char>),
}

/// The state after one builder call.
pub open spec fn apply_call(c: ShareConfigState, call: ShareConfigCall) -> ShareConfigState {
    match call {
        ShareConfigCall::GroupId(g) => ShareConfigState { group_id: Some(g), ..c },
        ShareConfigCall::AcknowledgementMode(m) => ShareConfigState { acknowledgement_mode: m, ..c },
        ShareConfigCall::AutoOffsetReset(r) => ShareConfigState { auto_offset_reset: r, ..c },
        ShareConfigCall::IsolationLevel(l) => ShareConfigState { isolation_level: l, ..c },
        ShareConfigCall::DeliveryAttemptLimit(n) => ShareConfigState { delivery_attempt_limit: n, ..c },
        ShareConfigCall::RecordLockDurationMs(n) => ShareConfigState { record_lock_duration_ms: n, ..c },
        ShareConfigCall::HeartbeatIntervalMs(n) => ShareConfigState { heartbeat_interval_ms: Some(n), ..c },
        ShareConfigCall::SessionTimeoutMs(n) => ShareConfigState { session_timeout_ms: Some(n), ..c },
        ShareConfigCall::SetProperty(k, v) => ShareConfigState { properties: c.properties.insert(k, v), ..c },
    }
}

/// The state after a sequence of builder calls, in order.
pub open spec fn apply_calls(c: ShareConfigState, calls: Seq<ShareConfigCall>) -> ShareConfigState
    decreases calls.len(),
{
    if calls.len() == 0 {
        c
    } else {
        apply_call(apply_calls(c, calls.drop_last()), calls.last())
    }
}

/// A configuration has a group identifier exactly when `group_id` was
/// called on it: after any sequence of builder calls from a state without
/// one, the group identifier is unset exactly when no call was `group_id`
/// (a property `group.id` written with `set` does not count). With
/// `into_client_config`, which gives `None` exactly when the group
/// identifier is unset, this says when a configuration is refused.
pub proof fn lemma_group_id_only_from_group_id_calls(c: ShareConfigState, calls: Seq<ShareConfigCall>)
    requires
        c.group_id is None,
    ensures
        apply_calls(c, calls).group_id is None
            <==> forall|i: int| 0 <= i < calls.len() ==> !(#[trigger] calls[i] is GroupId),
    decreases calls.len(),
{
    if calls.len() > 0 {
        let t = calls.drop_last();
        lemma_group_id_only_from_group_id_calls(c, t);
        assert forall|i: int| 0 <= i < t.len() implies #[trigger] t[i] == calls[i] by {}
        if apply_calls(c, calls).group_id is None {
            assert forall|i: int| 0 <= i < calls.len() implies !(#[trigger] calls[i] is GroupId) by {
                if i < calls.len() - 1 {
                    assert(t[i] == calls[i]);
                }
            }
        } else {
            if !(calls.last() is GroupId) {
                let i = choose|i: int| 0 <= i < t.len() && #[trigger] t[i] is GroupId;
                assert(calls[i] is GroupId);
            }
        }
    }
}

/// A configuration just created holds no property and no group
/// identifier, has no optional setting, and has the documented defaults:
/// implicit acknowledgement, latest offset reset, read-uncommitted
/// isolation, a delivery attempt limit of 5 and a lock duration of 30000 ms.
pub proof fn lemma_default_share_config_is_empty()
    ensures
        default_share_config().properties == Map::<Seq<char>, Seq<char>>::empty(),
        default_share_config().properties.dom().len() == 0,
        default_share_config().group_id is None,
        default_share_config().heartbeat_interval_ms is None,
        default_share_config().session_timeout_ms is None,
        default_share_config().acknowledgement_mode == AcknowledgementMode::Implicit,
        default_share_config().auto_offset_reset == AutoOffsetReset::Latest,
        default_share_config().isolation_level == IsolationLevel::ReadUncommitted,
        default_share_config().delivery_attempt_limit == 5,
        default_share_config().record_lock_duration_ms == 30000,
{
}

/// Whether `call` is a `set` of property `k`.
pub open spec fn call_sets_key(call: ShareConfigCall, k: Seq<char>) -> bool {
    match call {
        ShareConfigCall::SetProperty(k2, _) => k2 == k,
        _ => false,
    }
}

/// After builder calls, a property is present exactly when it was present
/// before or some call was a `set` of it.
pub proof fn lemma_properties_from_set_calls(c: ShareConfigState, calls: Seq<ShareConfigCall>, k: Seq<char>)
    ensures
        apply_calls(c, calls).properties.contains_key(k) <==> (c.properties.contains_key(k)
            || exists|i: int| 0 <= i < calls.len() && #[trigger] call_sets_key(calls[i], k)),
    decreases calls.len(),
{
    if calls.len() > 0 {
        let t = calls.drop_last();
        lemma_properties_from_set_calls(c, t, k);
        let last = calls.last();
        assert(calls[calls.len() - 1] == last);
        assert(apply_calls(c, calls) == apply_call(apply_calls(c, t), last));
        if call_sets_key(last, k) {
            assert(call_sets_key(calls[calls.len() - 1], k));
        }
        match last {
            ShareConfigCall::SetProperty(k2, v) => {
                assert(call_sets_key(last, k) <==> k2 == k);
            },
            _ => {
                assert(!call_sets_key(last, k));
            },
        }
        if exists|i: int| 0 <= i < t.len() && #[trigger] call_sets_key(t[i], k) {
            let i = choose|i: int| 0 <= i < t.len() && #[trigger] call_sets_key(t[i], k);
            assert(call_sets_key(calls[i], k));
        }
        if exists|i: int| 0 <= i < calls.len() && #[trigger] call_sets_key(calls[i], k) {
            let i = choose|i: int| 0 <= i < calls.len() && #[trigger] call_sets_key(calls[i], k);
            if i < calls.len() - 1 {
                assert(call_sets_key(t[i], k));
            }
        }
    }
}

/// The client configuration written for a configuration built by `new`
/// and any builder calls holds exactly the six share keys that are always
/// written, the optional keys whose settings were made, and the properties
/// that some `set` call wrote; no other key.
pub proof fn lemma_written_keys(calls: Seq<ShareConfigCall>, g: Seq<char>, k: Seq<char>)
    ensures
        ({
            let c = apply_calls(default_share_config(), calls);
            share_properties(c, g).contains_key(k) <==> {
                ||| k == "group.id"@
                ||| k == "share.acknowledgement.mode"@
                ||| k == "share.auto.offset.reset"@
                ||| k == "share.isolation.level"@
                ||| k == "group.share.delivery.attempt.limit"@
                ||| k == "group.share.record.lock.duration.ms"@
                ||| (k == "group.share.heartbeat.interval.ms"@ && c.heartbeat_interval_ms is Some)
                ||| (k == "group.share.session.timeout.ms"@ && c.session_timeout_ms is Some)
                ||| exists|i: int| 0 <= i < calls.len() && #[trigger] call_sets_key(calls[i], k)
            }
        }),
{
    lemma_properties_from_set_calls(default_share_config(), calls, k);
}

/// Writes an optional setting: the key is set only when a value is.
pub open spec fn insert_optional(
    m: Map<Seq<char>, Seq<char>>,
    key: Seq<char>,
    value: Option<u32>,
) -> Map<Seq<char>, Seq<char>> {
    match value {
        Some(v) => m.insert(key, decimal(v as nat)),
        None => m,
    }
}

/// The properties of the client configuration that a share configuration
/// with group identifier `group_id` produces: its own properties, then the
/// share settings under their canonical keys (which take precedence).
pub open spec fn share_properties(c: ShareConfigState, group_id: Seq<char>) -> Map<Seq<char>, Seq<char>> {
    let m = c.properties
        .insert("group.id"@, group_id)
        .insert("share.acknowledgement.mode"@, c.acknowledgement_mode.wire_name())
        .insert("share.auto.offset.reset"@, c.auto_offset_reset.wire_name())
        .insert("share.isolation.level"@, c.isolation_level.wire_name())
        .insert("group.share.delivery.attempt.limit"@, decimal(c.delivery_attempt_limit as nat))
        .insert("group.share.record.lock.duration.ms"@, decimal(c.record_lock_duration_ms as nat));
    let m = insert_optional(m, "group.share.heartbeat.interval.ms"@, c.heartbeat_interval_ms);
    insert_optional(m, "group.share.session.timeout.ms"@, c.session_timeout_ms)
}

impl ShareConsumerConfig {
    /// Default for `group.share.delivery.attempt.limit`.
    pub const DEFAULT_DELIVERY_ATTEMPT_LIMIT: u32 = 5;
    /// Default for `group.share.record.lock.duration.ms`.
    pub const DEFAULT_RECORD_LOCK_DURATION_MS: u32 = 30000;

    /// Creates an empty configuration with the share defaults.
    pub fn new() -> (r: Self)
        ensures
            r@ == default_share_config(),
            r@.properties == Map::<Seq<char>, Seq<char>>::empty(),
            r@.group_id is None,
            r@.heartbeat_interval_ms is None,
            r@.session_timeout_ms is None,
    {
        ShareConsumerConfig {
            base: ClientConfig::new(),
            group_id: None,
            acknowledgement_mode: AcknowledgementMode::Implicit,
            auto_offset_reset: AutoOffsetReset::Latest,
            isolation_level: IsolationLevel::ReadUncommitted,
            delivery_attempt_limit: Self::DEFAULT_DELIVERY_ATTEMPT_LIMIT,
            record_lock_duration_ms: Self::DEFAULT_RECORD_LOCK_DURATION_MS,
            heartbeat_interval_ms: None,
            session_timeout_ms: None,
        }
    }

    /// Sets the share group identifier (`group.id`). Required.
    pub fn group_id(&mut self, group_id: &str) -> (r: &mut Self)
        ensures
            r@ == (ShareConfigState { group_id: Some(group_id@), ..old(self)@ }),
            r@ == apply_call(old(self)@, ShareConfigCall::GroupId(group_id@)),
            *final(r) == *final(self),
    {
        self.group_id = Some(string_from(group_id));
        self
    }

    /// Sets `share.acknowledgement.mode`.
    pub fn acknowledgement_mode(&mut self, mode: AcknowledgementMode) -> (r: &mut Self)
        ensures
            r@ == (ShareConfigState { acknowledgement_mode: mode, ..old(self)@ }),
            r@ == apply_call(old(self)@, ShareConfigCall::AcknowledgementMode(mode)),
            *final(r) == *final(self),
    {
        self.acknowledgement_mode = mode;
        self
    }

    /// Sets `share.auto.offset.reset`.
    pub fn auto_offset_reset(&mut self, reset: AutoOffsetReset) -> (r: &mut Self)
        ensures
            r@ == (ShareConfigState { auto_offset_reset: reset, ..old(self)@ }),
            r@ == apply_call(old(self)@, ShareConfigCall::AutoOffsetReset(reset)),
            *final(r) == *final(self),
    {
        self.auto_offset_reset = reset;
        self
    }

    /// Sets `share.isolation.level`.
    pub fn isolation_level(&mut self, level: IsolationLevel) -> (r: &mut Self)
        ensures
            r@ == (ShareConfigState { isolation_level: level, ..old(self)@ }),
            r@ == apply_call(old(self)@, ShareConfigCall::IsolationLevel(level)),
            *final(r) == *final(self),
    {
        self.isolation_level = level;
        self
    }

    /// Sets `group.share.delivery.attempt.limit` (default `5`).
    pub fn delivery_attempt_limit(&mut self, limit: u32) -> (r: &mut Self)
        ensures
            r@ == (ShareConfigState { delivery_attempt_limit: limit, ..old(self)@ }),
            r@ == apply_call(old(self)@, ShareConfigCall::DeliveryAttemptLimit(limit)),
            *final(r) == *final(self),
    {
        self.delivery_attempt_limit = limit;
        self
    }

    /// Sets `group.share.record.lock.duration.ms` (default `30000`).
    pub fn record_lock_duration_ms(&mut self, ms: u32) -> (r: &mut Self)
        ensures
            r@ == (ShareConfigState { record_lock_duration_ms: ms, ..old(self)@ }),
            r@ == apply_call(old(self)@, ShareConfigCall::RecordLockDurationMs(ms)),
            *final(r) == *final(self),
    {
        self.record_lock_duration_ms = ms;
        self
    }

    /// Sets `group.share.heartbeat.interval.ms`. Leave unset to use the
    /// broker default.
    pub fn heartbeat_interval_ms(&mut self, ms: u32) -> (r: &mut Self)
        ensures
            r@ == (ShareConfigState { heartbeat_interval_ms: Some(ms), ..old(self)@ }),
            r@ == apply_call(old(self)@, ShareConfigCall::HeartbeatIntervalMs(ms)),
            *final(r) == *final(self),
    {
        self.heartbeat_interval_ms = Some(ms);
        self
    }

    /// Sets `group.share.session.timeout.ms`. Leave unset to use the
    /// broker default.
    pub fn session_timeout_ms(&mut self, ms: u32) -> (r: &mut Self)
        ensures
            r@ == (ShareConfigState { session_timeout_ms: Some(ms), ..old(self)@ }),
            r@ == apply_call(old(self)@, ShareConfigCall::SessionTimeoutMs(ms)),
            *final(r) == *final(self),
    {
        self.session_timeout_ms = Some(ms);
        self
    }

    /// Sets an arbitrary property on the embedded [`ClientConfig`] (for
    /// example `bootstrap.servers`).
    pub fn set(&mut self, key: &str, value: &str) -> (r: &mut Self)
        ensures
            r@ == (ShareConfigState { properties: old(self)@.properties.insert(key@, value@), ..old(self)@ }),
            r@ == apply_call(old(self)@, ShareConfigCall::SetProperty(key@, value@)),
            *final(r) == *final(self),
    {
        self.base.set(key, value);
        self
    }

    /// Writes the final [`ClientConfig`].
    ///
    /// Returns `None` if no group identifier was set, since a share
    /// consumer requires one.
    pub fn into_client_config(self) -> (r: Option<ClientConfig>)
        ensures
            match self@.group_id {
                None => r is None,
                Some(g) => r matches Some(c) && c@ == share_properties(self@, g),
            },
    {
        let group_id = match self.group_id {
            Some(g) => g,
            None => return None,
        };
        let mut config = self.base;
        config.set("group.id", group_id.as_str());
        config.set("share.acknowledgement.mode", self.acknowledgement_mode.as_str());
        config.set("share.auto.offset.reset", self.auto_offset_reset.as_str());
        config.set("share.isolation.level", self.isolation_level.as_str());
        config.set("group.share.delivery.attempt.limit", u32_to_decimal(self.delivery_attempt_limit).as_str());
        config.set("group.share.record.lock.duration.ms", u32_to_decimal(self.record_lock_duration_ms).as_str());
        if let Some(ms) = self.heartbeat_interval_ms {
            config.set("group.share.heartbeat.interval.ms", u32_to_decimal(ms).as_str());
        }
        if let Some(ms) = self.session_timeout_ms {
            config.set("group.share.session.timeout.ms", u32_to_decimal(ms).as_str());
        }
        Some(config)
    }
}

impl Default for ShareConsumerConfig {
    fn default() -> (r: Self)
        ensures
            r@ == default_share_config(),
    {
        Self::new()
    }
}

impl Clone for ShareConsumerConfig {
    fn clone(&self) -> (r: Self)
        ensures
            r@ == self@,
    {
        ShareConsumerConfig {
            base: self.base.clone(),
            group_id: match &self.group_id {
                Some(g) => Some(g.clone()),
                None => None,
            },
            acknowledgement_mode: self.acknowledgement_mode,
            auto_offset_reset: self.auto_offset_reset,
            isolation_level: self.isolation_level,
            delivery_attempt_limit: self.delivery_attempt_limit,
            record_lock_duration_ms: self.record_lock_duration_ms,
            heartbeat_interval_ms: self.heartbeat_interval_ms,
            session_timeout_ms: self.session_timeout_ms,
        }
    }
}

/// Each share setting is written under its canonical key, and reading the
/// written text back gives the setting: the group identifier verbatim,
/// the enums by their canonical names (which parse back to the same
/// value), the numbers in decimal; an optional setting is present exactly
/// when it was set (or when a property of that name was set by hand).
pub proof fn lemma_share_properties_settings(c: ShareConfigState, g: Seq<char>)
    ensures
        share_properties(c, g)["group.id"@] == g,
        share_properties(c, g)["share.acknowledgement.mode"@] == c.acknowledgement_mode.wire_name(),
        acknowledgement_mode_named(share_properties(c, g)["share.acknowledgement.mode"@])
            == Some(c.acknowledgement_mode),
        share_properties(c, g)["share.auto.offset.reset"@] == c.auto_offset_reset.wire_name(),
        auto_offset_reset_named(share_properties(c, g)["share.auto.offset.reset"@])
            == Some(c.auto_offset_reset),
        share_properties(c, g)["share.isolation.level"@] == c.isolation_level.wire_name(),
        isolation_level_named(share_properties(c, g)["share.isolation.level"@])
            == Some(c.isolation_level),
        share_properties(c, g)["group.share.delivery.attempt.limit"@]
            == decimal(c.delivery_attempt_limit as nat),
        share_properties(c, g)["group.share.record.lock.duration.ms"@]
            == decimal(c.record_lock_duration_ms as nat),
        c.heartbeat_interval_ms matches Some(ms) ==>
            share_properties(c, g)["group.share.heartbeat.interval.ms"@] == decimal(ms as nat),
        c.heartbeat_interval_ms is None ==>
            (share_properties(c, g).contains_key("group.share.heartbeat.interval.ms"@)
                <==> c.properties.contains_key("group.share.heartbeat.interval.ms"@)),
        c.session_timeout_ms matches Some(ms) ==>
            share_properties(c, g)["group.share.session.timeout.ms"@] == decimal(ms as nat),
        c.session_timeout_ms is None ==>
            (share_properties(c, g).contains_key("group.share.session.timeout.ms"@)
                <==> c.properties.contains_key("group.share.session.timeout.ms"@)),
{
    reveal_strlit("group.id");
    reveal_strlit("share.acknowledgement.mode");
    reveal_strlit("share.auto.offset.reset");
    reveal_strlit("share.isolation.level");
    reveal_strlit("group.share.delivery.attempt.limit");
    reveal_strlit("group.share.record.lock.duration.ms");
    reveal_strlit("group.share.heartbeat.interval.ms");
    reveal_strlit("group.share.session.timeout.ms");
    assert("group.id"@.len() == 8);
    assert("share.acknowledgement.mode"@.len() == 26);
    assert("share.auto.offset.reset"@.len() == 23);
    assert("share.isolation.level"@.len() == 21);
    assert("group.share.delivery.attempt.limit"@.len() == 34);
    assert("group.share.record.lock.duration.ms"@.len() == 35);
    assert("group.share.heartbeat.interval.ms"@.len() == 33);
    assert("group.share.session.timeout.ms"@.len() == 30);
    lemma_acknowledgement_mode_round_trip(c.acknowledgement_mode);
    lemma_auto_offset_reset_round_trip(c.auto_offset_reset);
    lemma_isolation_level_round_trip(c.isolation_level);
}

/// Properties set by hand under any other key come through unchanged.
pub proof fn lemma_share_properties_keeps_other(c: ShareConfigState, g: Seq<char>, k: Seq<char>)
    requires
        k != "group.id"@,
        k != "share.acknowledgement.mode"@,
        k != "share.auto.offset.reset"@,
        k != "share.isolation.level"@,
        k != "group.share.delivery.attempt.limit"@,
        k != "group.share.record.lock.duration.ms"@,
        k != "group.share.heartbeat.interval.ms"@,
        k != "group.share.session.timeout.ms"@,
    ensures
        share_properties(c, g).contains_key(k) <==> c.properties.contains_key(k),
        c.properties.contains_key(k) ==> share_properties(c, g)[k] == c.properties[k],
{
}

} // verus!
