use fishnet_metrics::decode::{DecodeError, decode_document, decode_text, encode};
use fishnet_metrics::json::Json;
use fishnet_metrics::status::{MetricName, QueueClass, QueueStatus, SystemStatus};

const SAMPLE: &str = r#"
        {"analysis":{"user":{"acquired":31,"queued":0,"oldest":0},"system":{"acquired":73,"queued":0,"oldest":0}}}
        "#;

#[test]
fn des() {
    assert!(decode_text(SAMPLE).is_ok())
}

#[test]
fn decodes_sample_values() {
    let s = decode_text(SAMPLE).unwrap();
    assert_eq!(s.user, QueueStatus { acquired: 31, queued: 0, oldest: 0 });
    assert_eq!(s.system, QueueStatus { acquired: 73, queued: 0, oldest: 0 });
}

#[test]
fn decodes_distinct_fields_without_swapping() {
    let s = decode_text(
        r#"{"analysis":{"system":{"oldest":6,"queued":5,"acquired":4},"user":{"acquired":1,"queued":2,"oldest":3}}}"#,
    )
    .unwrap();
    assert_eq!(s.user, QueueStatus { acquired: 1, queued: 2, oldest: 3 });
    assert_eq!(s.system, QueueStatus { acquired: 4, queued: 5, oldest: 6 });
}

#[test]
fn decodes_largest_count() {
    let s = decode_text(
        r#"{"analysis":{"user":{"acquired":18446744073709551615,"queued":0,"oldest":0},"system":{"acquired":0,"queued":0,"oldest":0}}}"#,
    )
    .unwrap();
    assert_eq!(s.user.acquired, u64::MAX);
}

#[test]
fn ignores_other_members() {
    let s = decode_text(
        r#"{"key":"x","analysis":{"extra":[1,2],"user":{"acquired":1,"queued":2,"oldest":3,"more":null},"system":{"acquired":4,"queued":5,"oldest":6}}}"#,
    )
    .unwrap();
    assert_eq!(s.system.oldest, 6);
}

#[test]
fn rejects_text_that_is_not_json() {
    assert_eq!(decode_text("{\"analysis\":"), Err(DecodeError::Syntax));
}

#[test]
fn rejects_flat_document() {
    assert_eq!(
        decode_text(r#"{"user":{"acquired":31,"queued":0,"oldest":0},"system":{"acquired":73,"queued":0,"oldest":0}}"#),
        Err(DecodeError::MissingAnalysis)
    );
}

#[test]
fn rejects_missing_system() {
    assert_eq!(
        decode_text(r#"{"analysis":{"user":{"acquired":31,"queued":0,"oldest":0}}}"#),
        Err(DecodeError::MissingQueue(QueueClass::System))
    );
}

#[test]
fn rejects_missing_user() {
    assert_eq!(
        decode_text(r#"{"analysis":{"system":{"acquired":31,"queued":0,"oldest":0}}}"#),
        Err(DecodeError::MissingQueue(QueueClass::User))
    );
}

#[test]
fn rejects_negative_field() {
    assert_eq!(
        decode_text(r#"{"analysis":{"user":{"acquired":31,"queued":-1,"oldest":0},"system":{"acquired":73,"queued":0,"oldest":0}}}"#),
        Err(DecodeError::InvalidField(QueueClass::User, MetricName::Queued))
    );
}

#[test]
fn rejects_fractional_field() {
    assert_eq!(
        decode_text(r#"{"analysis":{"user":{"acquired":31,"queued":0,"oldest":0},"system":{"acquired":73,"queued":0,"oldest":1.5}}}"#),
        Err(DecodeError::InvalidField(QueueClass::System, MetricName::Oldest))
    );
}

#[test]
fn rejects_missing_and_textual_fields() {
    assert_eq!(
        decode_text(r#"{"analysis":{"user":{"queued":0,"oldest":0},"system":{"acquired":73,"queued":0,"oldest":0}}}"#),
        Err(DecodeError::InvalidField(QueueClass::User, MetricName::Acquired))
    );
    assert_eq!(
        decode_text(r#"{"analysis":{"user":{"acquired":1,"queued":0,"oldest":0},"system":{"acquired":"73","queued":0,"oldest":0}}}"#),
        Err(DecodeError::InvalidField(QueueClass::System, MetricName::Acquired))
    );
}

#[test]
fn rejects_queue_that_is_not_an_object() {
    assert_eq!(
        decode_text(r#"{"analysis":{"user":[31,0,0],"system":{"acquired":73,"queued":0,"oldest":0}}}"#),
        Err(DecodeError::MissingQueue(QueueClass::User))
    );
}

#[test]
fn round_trip_keeps_six_counts() {
    let s = decode_text(
        r#"{"analysis":{"user":{"acquired":1,"queued":2,"oldest":3},"system":{"acquired":4,"queued":5,"oldest":6}}}"#,
    )
    .unwrap();
    let again = encode(&s);
    assert_eq!(decode_document(&again), Ok(s));
}

#[test]
fn encoded_document_has_schema_shape() {
    let s = SystemStatus {
        user: QueueStatus { acquired: 7, queued: 8, oldest: 9 },
        system: QueueStatus { acquired: 10, queued: 11, oldest: 12 },
    };
    let doc = encode(&s);
    let analysis = doc.member(&"analysis".to_string()).unwrap();
    let system = analysis.member(&"system".to_string()).unwrap();
    match system.member(&"queued".to_string()) {
        Some(Json::Number(Some(n))) => assert_eq!(*n, 11),
        other => panic!("unexpected member: {:?}", other),
    }
    assert!(doc.member(&"user".to_string()).is_none());
}
