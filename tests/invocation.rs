use fishnet_metrics::decode::DecodeError;
use fishnet_metrics::metrics::NAMESPACE;
use fishnet_metrics::probe::{Action, Invocation, ProbeError, STATUS_URL, Stage};
use fishnet_metrics::status::QueueClass;

const BODY: &str = r#"{"analysis":{"user":{"acquired":31,"queued":0,"oldest":0},"system":{"acquired":73,"queued":0,"oldest":0}}}"#;

#[test]
fn end_to_end_success() {
    assert_eq!(STATUS_URL, "https://lichess.org/fishnet/status");
    let mut inv = Invocation::new();
    let mut sink_calls = 0;
    match inv.on_fetched(Ok(BODY.to_string())) {
        Action::Submit(batch) => {
            sink_calls += 1;
            assert_eq!(batch.points.len(), 6);
            assert_eq!(batch.namespace, NAMESPACE);
        }
        other => panic!("expected a submission, got {:?}", other),
    }
    assert!(matches!(inv.on_submitted(Ok(())), Action::Complete));
    assert_eq!(sink_calls, 1);
    assert_eq!(inv.stage, Stage::Completed);
    assert_eq!(inv.submissions, 1);
    assert_eq!(inv.delivered, 6);
}

#[test]
fn refused_submission_delivers_nothing() {
    let mut inv = Invocation::new();
    assert!(matches!(inv.on_fetched(Ok(BODY.to_string())), Action::Submit(_)));
    match inv.on_submitted(Err("throttled".to_string())) {
        Action::Fail(ProbeError::Submission(cause)) => assert_eq!(cause, "throttled"),
        other => panic!("expected a failure, got {:?}", other),
    }
    assert_eq!(inv.stage, Stage::Failed);
    assert_eq!(inv.submissions, 1);
    assert_eq!(inv.delivered, 0);
}

#[test]
fn transport_failure_fails_invocation() {
    let mut inv = Invocation::new();
    match inv.on_fetched(Err("connection refused".to_string())) {
        Action::Fail(ProbeError::Transport(cause)) => assert_eq!(cause, "connection refused"),
        other => panic!("expected a failure, got {:?}", other),
    }
    assert_eq!(inv.stage, Stage::Failed);
    assert_eq!(inv.submissions, 0);
}

#[test]
fn decode_failure_submits_nothing() {
    let mut inv = Invocation::new();
    match inv.on_fetched(Ok(r#"{"analysis":{"user":{"acquired":1,"queued":0,"oldest":0}}}"#.to_string())) {
        Action::Fail(ProbeError::Decode(e)) => {
            assert_eq!(e, DecodeError::MissingQueue(QueueClass::System))
        }
        other => panic!("expected a failure, got {:?}", other),
    }
    assert_eq!(inv.submissions, 0);
    assert_eq!(inv.delivered, 0);
}

#[test]
fn decoded_status_goes_to_submission() {
    let mut inv = Invocation::new();
    match inv.on_status(Err(DecodeError::Syntax)) {
        Action::Fail(ProbeError::Decode(DecodeError::Syntax)) => {}
        other => panic!("expected a failure, got {:?}", other),
    }
    assert_eq!(inv.stage, Stage::Failed);
}
