use share_consumer::acknowledge::ParseAcknowledgeTypeError;
use share_consumer::acknowledge::AcknowledgementCommitResult;
use share_consumer::error::KafkaError;
use share_consumer::acknowledge::AcknowledgeType;

#[test]
fn display_round_trip() {
    for ack in [
        AcknowledgeType::Accept,
        AcknowledgeType::Release,
        AcknowledgeType::Reject,
    ] {
        let s = ack.to_string();
        assert_eq!(s.parse::<AcknowledgeType>().unwrap(), ack);
    }
}

#[test]
fn parse_is_case_insensitive() {
    assert_eq!(
        "ACCEPT".parse::<AcknowledgeType>().unwrap(),
        AcknowledgeType::Accept
    );
    assert_eq!(
        "Release".parse::<AcknowledgeType>().unwrap(),
        AcknowledgeType::Release
    );
}

#[test]
fn parse_rejects_unknown() {
    let err = "discard".parse::<AcknowledgeType>().unwrap_err();
    assert!(err.to_string().contains("discard"));
}

#[test]
fn as_str_matches_display() {
    assert_eq!(AcknowledgeType::Accept.as_str(), "accept");
    assert_eq!(AcknowledgeType::Release.to_string(), "release");
    assert_eq!(AcknowledgeType::Reject.as_str(), "reject");
}

#[test]
fn acknowledge_type_string_round_trip() {
    for ack in [
        AcknowledgeType::Accept,
        AcknowledgeType::Release,
        AcknowledgeType::Reject,
    ] {
        let s = ack.to_string();
        let parsed: AcknowledgeType = s.parse().unwrap();
        assert_eq!(parsed, ack);
    }
}

#[test]
fn parse_mixed_case_reject() {
    assert_eq!(
        "rEjEcT".parse::<AcknowledgeType>().unwrap(),
        AcknowledgeType::Reject
    );
}

#[test]
fn parse_rejects_near_misses() {
    assert!("accept ".parse::<AcknowledgeType>().is_err());
    assert!("accep".parse::<AcknowledgeType>().is_err());
    assert!("".parse::<AcknowledgeType>().is_err());
    assert!("acceptt".parse::<AcknowledgeType>().is_err());
}

#[test]
fn parse_error_message_is_exact() {
    let err = "discard".parse::<AcknowledgeType>().unwrap_err();
    assert_eq!(
        err.to_string(),
        "unknown acknowledge type \"discard\"; expected accept, release, or reject"
    );
}

#[test]
fn parse_error_message_escapes_quotes() {
    let err = "a\"b".parse::<AcknowledgeType>().unwrap_err();
    assert_eq!(
        err.to_string(),
        "unknown acknowledge type \"a\\\"b\"; expected accept, release, or reject"
    );
}

#[test]
fn parse_error_keeps_input() {
    let a = "nope".parse::<AcknowledgeType>().unwrap_err();
    let b = "nope".parse::<AcknowledgeType>().unwrap_err();
    let c = "NOPE".parse::<AcknowledgeType>().unwrap_err();
    assert_eq!(a, b);
    assert_ne!(a, c);
}

#[test]
fn message_assembly_from_quoted_text() {
    assert_eq!(
        ParseAcknowledgeTypeError::format_message("'x'").as_str(),
        "unknown acknowledge type 'x'; expected accept, release, or reject"
    );
}

#[test]
fn commit_result_clone_keeps_error() {
    let r = AcknowledgementCommitResult {
        topic: "t".to_string(),
        partition: 1,
        offset: 9,
        result: Err(KafkaError::ClientCreation("boom".to_string())),
    };
    let c = r.clone();
    assert_eq!(c.topic, "t");
    assert_eq!(c.partition, 1);
    assert_eq!(c.offset, 9);
    assert_eq!(c.result, Err(KafkaError::ClientCreation("boom".to_string())));
    let ok = AcknowledgementCommitResult { result: Ok(AcknowledgeType::Reject), ..c };
    assert_eq!(ok.clone().result, Ok(AcknowledgeType::Reject));
}
