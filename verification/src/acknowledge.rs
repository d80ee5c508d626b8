//! Acknowledgement primitives: the disposition of a record delivered to a
//! share consumer, its canonical wire name, and parsing of that name.

use vstd::prelude::*;
use vstd::string::*;

use crate::error::KafkaError;
use crate::text::{ascii_lower_seq, has_no_ascii_upper, is_ascii_case_variant, lemma_ascii_lower_idempotent, lemma_ascii_lower_matches_case_variants, debug_quoted, debug_str, eq_ignore_ascii_case, string_from};

verus! {

/// The disposition of a record delivered to a share consumer.
///
/// `Accept` moves the record to the Acknowledged state, `Release` returns
/// it to Available for redelivery (subject to the delivery attempt
/// limit), and `Reject` archives it (poison message).
#[derive(Clone, Copy, Debug, PartialEq, Eq, Hash, Structural)]
pub enum AcknowledgeType {
    /// The record was processed successfully.
    Accept,
    /// The record could not be processed but may be retried.
    Release,
    /// The record cannot be processed (poison message).
    Reject,
}

impl AcknowledgeType {
    /// The canonical lowercase wire name of the disposition.
    pub open spec fn wire_name(self) -> Seq<char> {
        match self {
            AcknowledgeType::Accept => "accept"@,
            AcknowledgeType::Release => "release"@,
            AcknowledgeType::Reject => "reject"@,
        }
    }

    /// Returns the canonical lowercase wire name (`"accept"`, `"release"`,
    /// `"reject"`).
    pub fn as_str(&self) -> (r: &'static str)
        ensures
            r@ == self.wire_name(),
    {
        match self {
            AcknowledgeType::Accept => "accept",
            AcknowledgeType::Release => "release",
            AcknowledgeType::Reject => "reject",
        }
    }

    /// The wire name as an owned string (what `Display` writes).
    pub fn to_string(&self) -> (r: String)
        ensures
            r@ == self.wire_name(),
    {
        string_from(self.as_str())
    }
}

/// The disposition named by `s`, ignoring ASCII case, if any.
pub open spec fn acknowledge_type_named(s: Seq<char>) -> Option<AcknowledgeType> {
    let l = ascii_lower_seq(s);
    if l == AcknowledgeType::Accept.wire_name() {
        Some(AcknowledgeType::Accept)
    } else if l == AcknowledgeType::Release.wire_name() {
        Some(AcknowledgeType::Release)
    } else if l == AcknowledgeType::Reject.wire_name() {
        Some(AcknowledgeType::Reject)
    } else {
        None
    }
}

/// Parsing the wire name of a disposition gives that disposition back.
pub proof fn lemma_acknowledge_type_round_trip(a: AcknowledgeType)
    ensures
        acknowledge_type_named(a.wire_name()) == Some(a),
{
    reveal_strlit("accept");
    reveal_strlit("release");
    reveal_strlit("reject");
    assert(ascii_lower_seq("accept"@) =~= "accept"@);
    assert(ascii_lower_seq("release"@) =~= "release"@);
    assert(ascii_lower_seq("reject"@) =~= "reject"@);
    assert("release"@[0] != "accept"@[0]);
    assert("reject"@[0] != "accept"@[0]);
    assert("reject"@[2] != "release"@[2]);
}

/// Parsing ignores ASCII case: a string and its ASCII lower case name the
/// same disposition (or none).
pub proof fn lemma_acknowledge_type_case_insensitive(s: Seq<char>)
    ensures
        acknowledge_type_named(s) == acknowledge_type_named(ascii_lower_seq(s)),
{
    lemma_ascii_lower_idempotent(s);
}

/// A text names a disposition exactly when it is that disposition's wire
/// name with any of its letters written in ASCII upper case.
pub proof fn lemma_acknowledge_type_case_variants(s: Seq<char>, a: AcknowledgeType)
    ensures
        acknowledge_type_named(s) == Some(a) <==> is_ascii_case_variant(s, a.wire_name()),
{
    reveal_strlit("accept");
    reveal_strlit("release");
    reveal_strlit("reject");
    assert("release"@[0] != "accept"@[0]);
    assert("reject"@[0] != "accept"@[0]);
    assert("reject"@[2] != "release"@[2]);
    assert(has_no_ascii_upper(a.wire_name()));
    lemma_ascii_lower_matches_case_variants(s, a.wire_name());
}

/// Error returned when parsing an [`AcknowledgeType`] receives an
/// unrecognised string; it keeps that string.
#[derive(Clone, Debug, PartialEq, Eq)]
pub struct ParseAcknowledgeTypeError(String);

impl View for ParseAcknowledgeTypeError {
    type V = Seq<char>;

    /// The rejected input.
    closed spec fn view(&self) -> Seq<char> {
        self.0@
    }
}

impl ParseAcknowledgeTypeError {
    /// The message that `Display` writes.
    pub open spec fn message(input: Seq<char>) -> Seq<char> {
        Self::message_with_quoted(debug_quoted(input))
    }

    /// The message, given the quoted input.
    pub open spec fn message_with_quoted(quoted: Seq<char>) -> Seq<char> {
        "unknown acknowledge type "@ + quoted + "; expected accept, release, or reject"@
    }

    /// Assembles the message from the already quoted input.
    pub fn format_message(quoted: &str) -> (r: String)
        ensures
            r@ == Self::message_with_quoted(quoted@),
    {
        let mut out = string_from("unknown acknowledge type ");
        out.append(quoted);
        out.append("; expected accept, release, or reject");
        out
    }

    /// Renders the error message, which quotes the rejected input.
    pub fn to_string(&self) -> (r: String)
        ensures
            r@ == Self::message(self@),
    {
        let quoted = debug_str(self.0.as_str());
        Self::format_message(quoted.as_str())
    }
}

impl core::str::FromStr for AcknowledgeType {
    type Err = ParseAcknowledgeTypeError;

    /// Parses a wire name, ignoring ASCII case.
    fn from_str(s: &str) -> (r: Result<Self, Self::Err>)
        ensures
            match acknowledge_type_named(s@) {
                Some(a) => r == Ok::<Self, Self::Err>(a),
                None => r matches Err(e) && e@ == s@,
            },
    {
        if eq_ignore_ascii_case(s, "accept") {
            Ok(AcknowledgeType::Accept)
        } else if eq_ignore_ascii_case(s, "release") {
            Ok(AcknowledgeType::Release)
        } else if eq_ignore_ascii_case(s, "reject") {
            Ok(AcknowledgeType::Reject)
        } else {
            Err(ParseAcknowledgeTypeError(string_from(s)))
        }
    }
}

/// Result of an asynchronous acknowledgement commit, reported to
/// `ShareConsumerContext::acknowledgement_commit`.
#[derive(Debug)]
pub struct AcknowledgementCommitResult {
    /// Topic of the acknowledged record.
    pub topic: String,
    /// Partition of the acknowledged record.
    pub partition: i32,
    /// Offset of the acknowledged record.
    pub offset: i64,
    /// The acknowledgement disposition, or the error reported by the broker.
    pub result: Result<AcknowledgeType, KafkaError>,
}

impl Clone for AcknowledgementCommitResult {
    fn clone(&self) -> (r: Self)
        ensures
            r == *self,
    {
        AcknowledgementCommitResult {
            topic: self.topic.clone(),
            partition: self.partition,
            offset: self.offset,
            result: match &self.result {
                Ok(a) => Ok(*a),
                Err(e) => Err(e.clone()),
            },
        }
    }
}

} // verus!
