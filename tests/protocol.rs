use crowser::cdp::{event_wait_timed_out, send_timed_out, Cdp};
use crowser::codec::{classify, decimal, decode_event, encode_command, Inbound};
use crowser::commands::{
    CDPCommand, PageAddScriptToEvaluateOnNewDocument, PageDisable, PageEnable, PageReload,
    RuntimeEvaluate, TargetAttachToTarget, TargetGetTargets, TargetSetDiscoverTargets,
};
use crowser::error::CrowserError;
use crowser::json::{as_str, is_null, member, quote, read, JsonNode};

fn cmd(method: &str, params: &str, session: Option<&str>) -> CDPCommand {
    CDPCommand::new(method, params.to_string(), session.map(|s| s.to_string()))
}

#[test]
fn json_reads_one_level() {
    match read("{\"a\": [1, 2], \"b\": {\"c\": \"x\"}}") {
        Some(JsonNode::Object(ms)) => {
            assert_eq!(ms.len(), 2);
            assert_eq!(ms[0], ("a".to_string(), "[1,2]".to_string()));
            assert_eq!(ms[1], ("b".to_string(), "{\"c\":\"x\"}".to_string()));
        }
        other => panic!("not an object: {:?}", other),
    }
    assert!(read("not json").is_none());
    assert!(matches!(read("true"), Some(JsonNode::Bool(true))));
    match read("2") {
        Some(JsonNode::Number(n)) => assert_eq!(n, "2"),
        other => panic!("not a number: {:?}", other),
    }
}

#[test]
fn json_member_and_string() {
    let text = "{\"id\": 7, \"method\": \"Page.enable\", \"nested\": {\"k\": null}}";
    assert_eq!(member(text, "id"), Some("7".to_string()));
    assert_eq!(member(text, "missing"), None);
    assert_eq!(member("[1]", "id"), None);
    assert_eq!(as_str("\"a\\nb\""), Some("a\nb".to_string()));
    assert_eq!(as_str("3"), None);
    assert!(is_null("null"));
    assert!(!is_null("{}"));
    assert_eq!(member(&member(text, "nested").unwrap(), "k"), Some("null".to_string()));
}

#[test]
fn json_quote_escapes() {
    assert_eq!(quote("a\"b\\c\n"), "\"a\\\"b\\\\c\\n\"");
    assert_eq!(quote(""), "\"\"");
}

#[test]
fn decimal_digits() {
    assert_eq!(decimal(0), "0");
    assert_eq!(decimal(7), "7");
    assert_eq!(decimal(1234567890), "1234567890");
    assert_eq!(decimal(u64::MAX), "18446744073709551615");
}

#[test]
fn envelope_omits_null_params_and_absent_session() {
    let c = cmd("Page.enable", "null", None);
    assert_eq!(encode_command(1, &c), "{\"id\":1,\"method\":\"Page.enable\"}");
    let c = cmd("Runtime.enable", "null", Some("S1"));
    assert_eq!(
        encode_command(42, &c),
        "{\"id\":42,\"method\":\"Runtime.enable\",\"sessionId\":\"S1\"}"
    );
    let c = cmd("Target.getTargets", "{}", None);
    assert_eq!(
        encode_command(3, &c),
        "{\"id\":3,\"method\":\"Target.getTargets\",\"params\":{}}"
    );
}

#[test]
fn params_json() {
    assert_eq!(PageEnable {}.to_json(), "{}");
    assert_eq!(PageDisable {}.to_json(), "{}");
    assert_eq!(TargetGetTargets {}.to_json(), "{}");
    let e = RuntimeEvaluate {
        expression: "1+1".to_string(),
        await_promise: Some(true),
        return_by_value: Some(false),
    };
    assert_eq!(
        e.to_json(),
        "{\"expression\":\"1+1\",\"awaitPromise\":true,\"returnByValue\":false}"
    );
    let e = RuntimeEvaluate { expression: "x".to_string(), await_promise: None, return_by_value: None };
    assert_eq!(e.to_json(), "{\"expression\":\"x\"}");
    assert_eq!(TargetSetDiscoverTargets { discover: true }.to_json(), "{\"discover\":true}");
    let a = TargetAttachToTarget { target_id: "T1".to_string(), flatten: true };
    assert_eq!(a.to_json(), "{\"targetId\":\"T1\",\"flatten\":true}");
    let s = PageAddScriptToEvaluateOnNewDocument { source: "go()".to_string() };
    assert_eq!(s.to_json(), "{\"source\":\"go()\"}");
    let r = PageReload { ignore_cache: None, script_to_evaluate_on_load: None };
    assert_eq!(r.to_json(), "{\"ignoreCache\":null,\"scriptToEvaluateOnLoad\":null}");
    let r = PageReload { ignore_cache: Some(true), script_to_evaluate_on_load: Some("s".to_string()) };
    assert_eq!(r.to_json(), "{\"ignoreCache\":true,\"scriptToEvaluateOnLoad\":\"s\"}");
}

#[test]
fn decode_event_fields() {
    let e = decode_event("{\"method\":\"Page.loadEventFired\",\"params\":{\"timestamp\":1},\"sessionId\":\"S\",\"extra\":1}").unwrap();
    assert_eq!(e.method, "Page.loadEventFired");
    assert_eq!(e.params, "{\"timestamp\":1}");
    assert_eq!(e.session_id, Some("S".to_string()));
    assert_eq!(e.seen, None);
    let e = decode_event("{\"method\":\"X\"}").unwrap();
    assert_eq!(e.params, "null");
    assert_eq!(e.session_id, None);
    assert!(decode_event("{\"params\":{}}").is_none());
    assert!(decode_event("{\"method\":\"X\",\"sessionId\":5}").is_none());
    assert!(decode_event("garbage").is_none());
}

#[test]
fn classify_by_id() {
    match classify("{\"id\":5,\"result\":{}}") {
        Some(Inbound::Response(key, frame)) => {
            assert_eq!(key, "5");
            assert_eq!(frame, "{\"id\":5,\"result\":{}}");
        }
        _ => panic!("expected a response"),
    }
    assert!(matches!(classify("{\"method\":\"A\",\"params\":{}}"), Some(Inbound::Event(_))));
    assert!(matches!(classify("{\"id\":null,\"method\":\"A\"}"), Some(Inbound::Event(_))));
    assert!(classify("not json").is_none());
}

#[test]
fn send_assigns_increasing_ids() {
    let mut cdp = Cdp::new();
    let (id1, f1) = cdp.send(cmd("Page.enable", "null", None)).unwrap();
    let (id2, f2) = cdp.send(cmd("Runtime.enable", "null", Some("S"))).unwrap();
    assert_eq!(id1, 1);
    assert_eq!(id2, 2);
    assert_eq!(f1, "{\"id\":1,\"method\":\"Page.enable\"}");
    assert_eq!(f2, "{\"id\":2,\"method\":\"Runtime.enable\",\"sessionId\":\"S\"}");
}

#[test]
fn frame_without_id_goes_to_event_log_only() {
    let mut cdp = Cdp::new();
    assert!(cdp.ingest("{\"method\":\"Target.targetCreated\",\"params\":{\"id\":3}}"));
    assert_eq!(cdp.events().len(), 1);
    assert_eq!(cdp.events()[0].method, "Target.targetCreated");
    assert_eq!(cdp.take_response(3), None);
}

#[test]
fn frame_with_id_never_reaches_event_log() {
    let mut cdp = Cdp::new();
    assert!(cdp.ingest("{\"id\":1,\"method\":\"Looks.likeAnEvent\",\"result\":{}}"));
    assert_eq!(cdp.events().len(), 0);
    assert_eq!(cdp.take_response(1), Some("{\"id\":1,\"method\":\"Looks.likeAnEvent\",\"result\":{}}".to_string()));
}

#[test]
fn malformed_frame_is_dropped() {
    let mut cdp = Cdp::new();
    assert!(!cdp.ingest("{not json"));
    assert!(!cdp.ingest("[1,2,3]"));
    assert_eq!(cdp.events().len(), 0);
}

#[test]
fn responses_match_ids_in_any_order() {
    let mut cdp = Cdp::new();
    let (a, _) = cdp.send(cmd("A.one", "{\"n\":1}", None)).unwrap();
    let (b, _) = cdp.send(cmd("A.two", "{\"n\":2}", None)).unwrap();
    let (c, _) = cdp.send(cmd("A.three", "{\"n\":3}", None)).unwrap();
    // Completion order differs from send order.
    cdp.ingest("{\"id\":3,\"result\":{\"v\":\"three\"}}");
    cdp.ingest("{\"id\":1,\"result\":{\"v\":\"one\"}}");
    assert_eq!(cdp.take_response(b), None);
    cdp.ingest("{\"id\":2,\"result\":{\"v\":\"two\"}}");
    assert_eq!(cdp.take_response(b), Some("{\"id\":2,\"result\":{\"v\":\"two\"}}".to_string()));
    assert_eq!(cdp.take_response(a), Some("{\"id\":1,\"result\":{\"v\":\"one\"}}".to_string()));
    assert_eq!(cdp.take_response(c), Some("{\"id\":3,\"result\":{\"v\":\"three\"}}".to_string()));
    assert_eq!(cdp.take_response(a), None);
}

#[test]
fn last_event_by_name_scans_from_the_end() {
    let mut cdp = Cdp::new();
    cdp.ingest("{\"method\":\"E\",\"params\":{\"n\":1}}");
    cdp.ingest("{\"method\":\"F\",\"params\":{\"n\":2}}");
    cdp.ingest("{\"method\":\"E\",\"params\":{\"n\":3}}");
    assert_eq!(cdp.last_event_by_name("E").unwrap().params, "{\"n\":3}");
    assert_eq!(cdp.last_event_by_name("F").unwrap().params, "{\"n\":2}");
    assert!(cdp.last_event_by_name("G").is_none());
}

#[test]
fn event_delivered_once_per_waiter() {
    let mut cdp = Cdp::new();
    cdp.ingest("{\"method\":\"Target.attachedToTarget\",\"params\":{\"sessionId\":\"A\"}}");
    let first = cdp.wait_for_event("Target.attachedToTarget").unwrap();
    assert_eq!(first.params, "{\"sessionId\":\"A\"}");
    assert_eq!(first.seen, Some(true));
    assert!(cdp.wait_for_event("Target.attachedToTarget").is_none());
    cdp.ingest("{\"method\":\"Target.attachedToTarget\",\"params\":{\"sessionId\":\"B\"}}");
    let second = cdp.wait_for_event("Target.attachedToTarget").unwrap();
    assert_eq!(second.params, "{\"sessionId\":\"B\"}");
    assert_eq!(cdp.events().len(), 2);
    assert_eq!(cdp.events()[0].seen, Some(true));
}

#[test]
fn timeouts() {
    assert!(!send_timed_out(1000, None));
    assert!(send_timed_out(1001, None));
    assert!(send_timed_out(51, Some(50)));
    assert!(!event_wait_timed_out(1_000_000, Some(0)));
    assert!(event_wait_timed_out(1001, None));
    assert!(!event_wait_timed_out(200, Some(500)));
}

#[test]
fn error_messages() {
    assert_eq!(CrowserError::CDPError("x".to_string()).message(), "CDP error: x");
    assert_eq!(CrowserError::IpcError("y".to_string()).message(), "IPC error: y");
    assert_eq!(CrowserError::Unknown.message(), "Unknown error");
}

#[test]
fn response_members() {
    let r = crowser::commands::CDPResponse::from_frame("{\"id\":12,\"result\":{\"ok\":true}}");
    assert_eq!(r.id, Some("12".to_string()));
    assert_eq!(r.result, Some("{\"ok\":true}".to_string()));
    let r = crowser::commands::CDPResponse::from_frame("{\"method\":\"E\"}");
    assert_eq!(r.id, None);
    assert_eq!(r.result, None);
}

#[test]
fn closed_connection_fails_waiters_and_senders() {
    let mut cdp = Cdp::new();
    cdp.ingest("{\"method\":\"E\"}");
    assert!(cdp.connection_error().is_none());
    cdp.close("socket reset");
    let expected = CrowserError::CDPError("Connection closed: socket reset".to_string());
    assert_eq!(cdp.connection_error(), Some(expected.clone()));
    assert_eq!(cdp.send(cmd("Page.enable", "null", None)), Err(expected));
    assert_eq!(cdp.events().len(), 1);
}

#[test]
fn identifiers_never_reused() {
    let mut cdp = Cdp::new();
    let mut last = 0;
    for _ in 0..100 {
        let (id, _) = cdp.send(cmd("A.b", "null", None)).unwrap();
        assert!(id > last);
        last = id;
    }
    assert_eq!(last, 100);
}

#[test]
fn later_response_with_same_id_replaces_earlier() {
    let mut cdp = Cdp::new();
    cdp.ingest("{\"id\":4,\"result\":{\"v\":1}}");
    cdp.ingest("{\"id\":4,\"result\":{\"v\":2}}");
    assert_eq!(cdp.take_response(4), Some("{\"id\":4,\"result\":{\"v\":2}}".to_string()));
    assert_eq!(cdp.take_response(4), None);
}

#[test]
fn json_quote_control_characters() {
    assert_eq!(quote("\u{1}\u{8}\t\u{c}\r\u{1f}"), "\"\\u0001\\b\\t\\f\\r\\u001f\"");
    assert_eq!(quote("é/\u{7f}"), "\"é/\u{7f}\"");
}
