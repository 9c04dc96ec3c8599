use graphql_sse::adapter::{Directive, Phase, Signal, StreamAdapter};
use graphql_sse::interval::{IntervalTicker, DEFAULT_STEP};

fn payload(d: Directive) -> String {
    match d {
        Directive::Emit(f) => {
            assert_eq!(f.event, "message");
            f.data
        }
        _ => panic!("a frame was expected"),
    }
}

#[test]
fn each_result_is_one_frame_in_order() {
    let mut a = StreamAdapter::new();
    let mut out = Vec::new();
    for v in ["10", "20", "30", "40"] {
        out.push(payload(a.step(Signal::Pulled(v.to_string()))));
    }
    assert_eq!(out, vec!["10", "20", "30", "40"]);
    assert!(matches!(a.step(Signal::Exhausted), Directive::Close));
    assert_eq!(a.phase, Phase::Draining);
    assert!(a.phase.releases_waiter());
    assert!(!a.phase.stops_sequence());
    assert!(matches!(a.step(Signal::Pulled("50".to_string())), Directive::Ignore));
}

#[test]
fn shutdown_cuts_the_stream() {
    let mut a = StreamAdapter::new();
    payload(a.step(Signal::Pulled("1".to_string())));
    assert!(matches!(a.step(Signal::ShutdownFired), Directive::Close));
    assert_eq!(a.phase, Phase::Aborted);
    assert!(a.is_closed());
    assert!(a.phase.stops_sequence());
    assert!(!a.phase.releases_waiter());
    assert!(matches!(a.step(Signal::Pulled("2".to_string())), Directive::Ignore));
    assert!(matches!(a.step(Signal::Exhausted), Directive::Ignore));
    assert_eq!(a.phase, Phase::Aborted);
}

#[test]
fn encode_failure_closes_with_failure() {
    let mut a = StreamAdapter::new();
    assert!(matches!(a.step(Signal::EncodeFailed), Directive::Close));
    assert_eq!(a.phase, Phase::Failed);
    assert!(a.phase.reports_failure());
    assert!(a.phase.releases_waiter());
    assert!(matches!(a.step(Signal::ShutdownFired), Directive::Ignore));
}

#[test]
fn response_is_encoded_as_json() {
    let mut a = StreamAdapter::new();
    let r = async_graphql::Response::new(async_graphql::Value::from(7));
    assert_eq!(payload(a.on_response(&r)), "{\"data\":7}");
    assert!(!a.is_closed());
}

#[test]
fn query_result_holds_only_first_name() {
    let json: serde_json::Value = serde_json::from_str("{\"firstName\":\"Matvei\"}").unwrap();
    let data = async_graphql::Value::from_json(json).unwrap();
    let mut a = StreamAdapter::new();
    let text = payload(a.on_response(&async_graphql::Response::new(data)));
    assert_eq!(text, "{\"data\":{\"firstName\":\"Matvei\"}}");
}

#[test]
fn interval_yields_one_two_three() {
    let mut t = IntervalTicker::new(DEFAULT_STEP);
    let mut a = StreamAdapter::new();
    let mut frames = Vec::new();
    for _ in 0..3 {
        let v = t.tick().unwrap();
        let r = async_graphql::Response::new(async_graphql::Value::from(v));
        frames.push(payload(a.on_response(&r)));
    }
    assert_eq!(frames, vec!["{\"data\":1}", "{\"data\":2}", "{\"data\":3}"]);
    assert_eq!(DEFAULT_STEP, 1);
}

#[test]
fn interval_with_step() {
    let mut t = IntervalTicker::new(5);
    assert_eq!(t.tick(), Some(5));
    assert_eq!(t.tick(), Some(10));
    assert_eq!(t.value, 10);
}

#[test]
fn interval_ends_before_overflow() {
    let mut t = IntervalTicker::new(i32::MAX);
    assert_eq!(t.tick(), Some(i32::MAX));
    assert_eq!(t.tick(), None);
    assert_eq!(t.value, i32::MAX);
    let mut d = IntervalTicker::new(i32::MIN);
    assert_eq!(d.tick(), Some(i32::MIN));
    assert_eq!(d.tick(), None);
}
