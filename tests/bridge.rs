use crowser::browser::{get_best_browser, get_supported_browsers, generate_windows_paths, Browser, BrowserKind, BrowserWindowsConfig, WindowsFolders};
use crowser::cdp::Cdp;
use crowser::commands::CDPCommand;
use crowser::discovery::{attempt_get_ws_url, Discovery, DiscoveryStep};
use crowser::error::CrowserError;
use crowser::attach::{Attach, AttachAction, AttachPhase};
use crowser::ipc::{read_eval_result, read_pending_call, BrowserIpc, IPC_JS};
use crowser::port::get_available_port;

const VERSION_BODY: &str = "{\n   \"Browser\": \"Chrome/120.0\",\n   \"Protocol-Version\": \"1.3\",\n   \"webSocketDebuggerUrl\": \"ws://127.0.0.1:9222/devtools/browser/abc-123\"\n}\n";

fn expect_send(a: AttachAction) -> CDPCommand {
    match a {
        AttachAction::Send(c) => c,
        _ => panic!("expected a command to send"),
    }
}

fn attached() -> Attach {
    let (mut a, first) = Attach::start();
    assert_eq!(first.method, "Target.getTargets");
    let c = expect_send(a.on_response("{\"id\":1,\"result\":{\"targetInfos\":[{\"type\":\"page\",\"targetId\":\"P1\"}]}}"));
    assert_eq!(c.method, "Target.attachToTarget");
    assert!(matches!(a.on_response("{\"id\":2,\"result\":{}}"), AttachAction::WaitEvent(_)));
    let ev = CDPCommand::new("Target.attachedToTarget", "{\"sessionId\":\"S1\"}".to_string(), None);
    expect_send(a.on_event(&ev));
    expect_send(a.on_response("{\"id\":3,\"result\":{}}"));
    expect_send(a.on_response("{\"id\":4,\"result\":{}}"));
    expect_send(a.on_response("{\"id\":5,\"result\":{}}"));
    assert!(matches!(a.on_response("{\"id\":6,\"result\":{}}"), AttachAction::Done));
    a
}

#[test]
fn ws_url_from_version_body() {
    assert_eq!(
        attempt_get_ws_url(VERSION_BODY).unwrap(),
        "ws://127.0.0.1:9222/devtools/browser/abc-123"
    );
    assert_eq!(
        attempt_get_ws_url("{\"webSocketDebuggerUrl\":\"ws://h/x\"}").unwrap(),
        "ws://h/x"
    );
}

#[test]
fn ws_url_missing_is_an_error() {
    assert_eq!(
        attempt_get_ws_url("{\"Browser\":\"x\"}"),
        Err(CrowserError::CDPError("Could not get websocket URL".to_string()))
    );
}

#[test]
fn discovery_succeeds_after_failures_within_budget() {
    let mut d = Discovery::new(5);
    for _ in 0..3 {
        assert!(matches!(d.next(None), DiscoveryStep::Retry));
    }
    assert!(matches!(d.next(Some("{}")), DiscoveryStep::Retry));
    match d.next(Some(VERSION_BODY)) {
        DiscoveryStep::Connect(u) => assert_eq!(u, "ws://127.0.0.1:9222/devtools/browser/abc-123"),
        _ => panic!("expected to connect"),
    }
}

#[test]
fn discovery_gives_up_after_budget() {
    let mut d = Discovery::new(3);
    assert!(matches!(d.next(None), DiscoveryStep::Retry));
    assert!(matches!(d.next(None), DiscoveryStep::Retry));
    match d.next(None) {
        DiscoveryStep::Fail(e) => assert_eq!(e, CrowserError::CDPError("No browser instance to connect to".to_string())),
        _ => panic!("expected to give up"),
    }
}

#[test]
fn attach_fails_on_empty_target_list() {
    let (mut a, _) = Attach::start();
    match a.on_response("{\"id\":1,\"result\":{\"targetInfos\":[]}}") {
        AttachAction::Fail(e) => assert_eq!(e, CrowserError::CDPError("No targets found".to_string())),
        _ => panic!("expected a failure"),
    }
    assert_eq!(a.phase, AttachPhase::Failed);
}

#[test]
fn attach_fails_without_result_or_list() {
    let (mut a, _) = Attach::start();
    match a.on_response("{\"id\":1}") {
        AttachAction::Fail(e) => assert_eq!(e, CrowserError::CDPError("Attach: No result found".to_string())),
        _ => panic!("expected a failure"),
    }
    let (mut a, _) = Attach::start();
    match a.on_response("{\"id\":1,\"result\":{}}") {
        AttachAction::Fail(e) => assert_eq!(e, CrowserError::CDPError("No targets found".to_string())),
        _ => panic!("expected a failure"),
    }
}

#[test]
fn attach_walks_the_sequence() {
    let (mut a, _) = Attach::start();
    let c = expect_send(a.on_response("{\"id\":1,\"result\":{\"targetInfos\":[{\"type\":\"service_worker\",\"targetId\":\"W\"},{\"type\":\"page\",\"targetId\":\"P1\"},{\"type\":\"page\",\"targetId\":\"P2\"}]}}"));
    assert_eq!(a.pages, vec!["P1".to_string(), "P2".to_string()]);
    assert_eq!(c.params, "{\"targetId\":\"P1\",\"flatten\":true}");
    match a.on_response("{\"id\":2,\"result\":{}}") {
        AttachAction::WaitEvent(n) => assert_eq!(n, "Target.attachedToTarget"),
        _ => panic!("expected a wait"),
    }
    // No session id: the next page target is tried.
    let ev = CDPCommand::new("Target.attachedToTarget", "{}".to_string(), None);
    let c = expect_send(a.on_event(&ev));
    assert_eq!(c.params, "{\"targetId\":\"P2\",\"flatten\":true}");
    a.on_response("{\"id\":3,\"result\":{}}");
    let ev = CDPCommand::new("Target.attachedToTarget", "{\"sessionId\":\"S2\"}".to_string(), None);
    let c = expect_send(a.on_event(&ev));
    assert_eq!(c.method, "Target.setDiscoverTargets");
    assert_eq!(c.params, "{\"discover\":true}");
    assert_eq!(a.session_id, "S2");
    let c = expect_send(a.on_response("{\"id\":4,\"result\":{}}"));
    assert_eq!(c.method, "Target.attachToBrowserTarget");
    let c = expect_send(a.on_response("{\"id\":5,\"result\":{\"params\":{\"sessionId\":\"B\"}}}"));
    assert_eq!(a.browser_session_id, "B");
    assert_eq!(c.method, "Page.enable");
    assert_eq!(c.session_id, Some("S2".to_string()));
    let c = expect_send(a.on_response("{\"id\":6,\"result\":{}}"));
    assert_eq!(c.method, "Runtime.enable");
    assert!(matches!(a.on_response("{\"id\":7,\"result\":{}}"), AttachAction::Done));
    assert_eq!(a.phase, AttachPhase::Attached);
}

#[test]
fn attach_fails_when_no_page_gives_a_session() {
    let (mut a, _) = Attach::start();
    expect_send(a.on_response("{\"id\":1,\"result\":{\"targetInfos\":[{\"type\":\"page\",\"targetId\":\"P1\"}]}}"));
    a.on_response("{\"id\":2,\"result\":{}}");
    let ev = CDPCommand::new("Target.attachedToTarget", "{}".to_string(), None);
    match a.on_event(&ev) {
        AttachAction::Fail(e) => assert_eq!(e, CrowserError::CDPError("No session id found".to_string())),
        _ => panic!("expected a failure"),
    }
}

#[test]
fn eval_one_plus_one_returns_two() {
    let ipc: BrowserIpc<fn(String) -> String> = BrowserIpc::new(attached());
    let c = ipc.eval("1+1");
    assert_eq!(c.method, "Runtime.evaluate");
    assert_eq!(c.params, "{\"expression\":\"1+1\",\"awaitPromise\":true,\"returnByValue\":true}");
    assert_eq!(c.session_id, Some("S1".to_string()));
    let response = "{\"id\":9,\"result\":{\"result\":{\"type\":\"number\",\"value\":2,\"description\":\"2\"}}}";
    assert_eq!(read_eval_result(response).unwrap(), "2");
}

#[test]
fn eval_result_kinds() {
    assert_eq!(read_eval_result("{\"id\":1,\"result\":{\"result\":{\"type\":\"string\",\"value\":\"hi\"}}}").unwrap(), "\"hi\"");
    assert_eq!(read_eval_result("{\"id\":1,\"result\":{\"result\":{\"type\":\"object\",\"className\":\"Object\"}}}").unwrap(), "null");
    assert_eq!(read_eval_result("{\"id\":1,\"result\":{\"result\":{\"type\":\"undefined\"}}}").unwrap(), "null");
    let frame = "{\"id\":1,\"result\":{\"result\":{\"type\":\"boolean\"}}}";
    assert_eq!(
        read_eval_result(frame),
        Err(CrowserError::CDPError(format!("Eval: No result found in object: {}", frame)))
    );
}

#[test]
fn register_command_twice_keeps_first_handler() {
    fn first(_: String) -> String {
        "first".to_string()
    }
    fn second(_: String) -> String {
        "second".to_string()
    }
    let mut ipc: BrowserIpc<fn(String) -> String> = BrowserIpc::new(attached());
    assert!(ipc.register_command("greet", first).is_ok());
    assert_eq!(
        ipc.register_command("greet", second),
        Err(CrowserError::IpcError("Command already exists".to_string()))
    );
    let handlers = ipc.handle_command("greet").unwrap();
    assert_eq!(handlers.len(), 1);
    assert_eq!((handlers[0])(String::new()), "first");
    assert!(ipc.handle_command("other").is_none());
}

#[test]
fn listen_twice_is_rejected() {
    let mut ipc: BrowserIpc<u32> = BrowserIpc::new(attached());
    assert!(ipc.listen("ready", 1).is_ok());
    assert_eq!(ipc.listen("ready", 2), Err(CrowserError::IpcError("Listener already exists".to_string())));
    assert_eq!(ipc.listeners_for("ready").unwrap(), &vec![1]);
    assert!(ipc.register_command("ready", 3).is_ok());
}

#[test]
fn target_destroyed_requests_termination() {
    let mut ipc: BrowserIpc<u32> = BrowserIpc::new(attached());
    let mut cdp = Cdp::new();
    cdp.ingest("{\"method\":\"Page.loadEventFired\",\"params\":{}}");
    assert!(!ipc.tick(&cdp).terminate);
    cdp.ingest("{\"method\":\"Target.targetDestroyed\",\"params\":{\"targetId\":\"P1\"}}");
    assert!(ipc.tick(&cdp).terminate);
}

#[test]
fn shim_reinjected_once_per_new_context() {
    let mut ipc: BrowserIpc<u32> = BrowserIpc::new(attached());
    let mut cdp = Cdp::new();
    let mut injections = 0;
    assert!(!ipc.tick(&cdp).reinject);
    cdp.ingest("{\"method\":\"Runtime.executionContextCreated\",\"params\":{\"context\":{\"id\":1,\"uniqueId\":\"ctx-1\"}}}");
    if ipc.tick(&cdp).reinject {
        injections += 1;
    }
    if ipc.tick(&cdp).reinject {
        injections += 1;
    }
    cdp.ingest("{\"method\":\"Runtime.executionContextCreated\",\"params\":{\"context\":{\"id\":2,\"uniqueId\":\"ctx-2\"}}}");
    if ipc.tick(&cdp).reinject {
        injections += 1;
    }
    assert_eq!(injections, 2);
    cdp.ingest("{\"method\":\"Runtime.executionContextCreated\",\"params\":{\"context\":{\"id\":2,\"uniqueId\":\"ctx-2\"}}}");
    if ipc.tick(&cdp).reinject {
        injections += 1;
    }
    assert_eq!(injections, 2);
    let shim = ipc.inject();
    assert!(shim.params.contains("__CROWSER"));
    assert!(IPC_JS.contains("_backend_consume"));
}

#[test]
fn drain_and_respond() {
    let ipc: BrowserIpc<u32> = BrowserIpc::new(attached());
    let c = ipc.consume_command();
    assert_eq!(
        c.params,
        "{\"expression\":\"window.__CROWSER.ipc._backend_consume()\",\"awaitPromise\":true,\"returnByValue\":true}"
    );
    let frame = "{\"id\":4,\"result\":{\"result\":{\"type\":\"object\",\"value\":{\"cmd\":\"greet\",\"args\":{\"name\":\"a\"},\"uuid\":\"u-1\"}}}}";
    let call = read_pending_call(frame).unwrap();
    assert_eq!(call.cmd, "greet");
    assert_eq!(call.args, "{\"name\":\"a\"}");
    assert_eq!(call.uuid, "u-1");
    let r = ipc.respond_command(&call.uuid, &call.args);
    assert_eq!(
        r.params,
        "{\"expression\":\"window.__CROWSER.ipc._backend_respond('u-1', {\\\"name\\\":\\\"a\\\"})\",\"awaitPromise\":true,\"returnByValue\":true}"
    );
    assert!(read_pending_call("{\"id\":4,\"result\":{\"result\":{\"type\":\"object\",\"value\":null}}}").is_none());
    assert!(read_pending_call("{\"id\":4,\"result\":{\"result\":{\"type\":\"object\",\"value\":{\"cmd\":\"x\"}}}}").is_none());
}

fn folders() -> WindowsFolders {
    WindowsFolders {
        program_files: "PF".to_string(),
        program_files_x86: "PF86".to_string(),
        local_app_data: "LAD".to_string(),
        user_profile: "UP".to_string(),
    }
}

#[test]
fn supported_browsers_in_order() {
    let all = get_supported_browsers(&folders());
    assert_eq!(all.len(), 18);
    assert_eq!(all[0].name, "chrome");
    assert_eq!(all[0].kind, BrowserKind::Chromium);
    assert_eq!(all[0].win.paths.len(), 4);
    assert_eq!(all[0].win.paths[3], "UP\\scoop\\apps\\googlechrome\\current\\chrome.exe");
    assert_eq!(all[12].name, "firefox");
    assert_eq!(all[12].kind, BrowserKind::Gecko);
    assert_eq!(all[13].unix.len(), 0);
    assert_eq!(all[17].name, "waterfox");
}

#[test]
fn windows_paths_join_folders() {
    let p = generate_windows_paths(&folders(), "Vivaldi");
    assert_eq!(p.len(), 3);
    let expected: String = std::path::PathBuf::from("PF").join("Vivaldi").to_string_lossy().into_owned();
    assert_eq!(p[0], expected);
    assert_ne!(p[0], "Vivaldi");
}

fn browser(name: &str, kind: BrowserKind) -> Browser {
    Browser {
        name: name.to_string(),
        kind,
        win: BrowserWindowsConfig { paths: vec![], registry_keys: vec![] },
        unix: vec![],
        mac: vec![],
    }
}

#[test]
fn best_browser_by_kind() {
    let found = vec![
        (browser("chrome", BrowserKind::Chromium), "chrome".to_string()),
        (browser("firefox", BrowserKind::Gecko), "firefox".to_string()),
    ];
    let (b, path) = get_best_browser(Some(BrowserKind::Gecko), found.clone()).unwrap();
    assert_eq!(b.name, "firefox");
    assert_eq!(path, "firefox");
    let (b, _) = get_best_browser(None, found.clone()).unwrap();
    assert_eq!(b.name, "chrome");
    assert!(get_best_browser(Some(BrowserKind::WebKit), found).is_none());
    assert!(get_best_browser(None, vec![]).is_none());
}

#[test]
fn available_port_search() {
    assert_eq!(get_available_port(Some(9000), |p| p >= 9003), Some(9003));
    assert_eq!(get_available_port(None, |_| true), Some(8000));
    assert_eq!(get_available_port(Some(65534), |_| false), None);
    assert_eq!(get_available_port(Some(65535), |p| p == 65535), Some(65535));
}

#[test]
fn attach_expectations_follow_the_phase() {
    let (mut a, _) = Attach::start();
    assert!(a.expects_response());
    assert!(!a.expects_event());
    expect_send(a.on_response("{\"id\":1,\"result\":{\"targetInfos\":[{\"type\":\"page\",\"targetId\":\"P1\"}]}}"));
    assert!(a.expects_response());
    a.on_response("{\"id\":2,\"result\":{}}");
    assert!(!a.expects_response());
    assert!(a.expects_event());
    let done = attached();
    assert!(!done.expects_response());
    assert!(!done.expects_event());
}

#[test]
fn ws_url_is_the_member_value_only() {
    assert_eq!(
        attempt_get_ws_url("{\"webSocketDebuggerUrl\":\"ws://x\", \"Browser\":\"y\"}").unwrap(),
        "ws://x"
    );
    assert_eq!(
        attempt_get_ws_url("{\"webSocketDebuggerUrl\": 5}"),
        Err(CrowserError::CDPError("Could not get websocket URL".to_string()))
    );
    assert!(attempt_get_ws_url("\"webSocketDebuggerUrl\": \"ws://x\"").is_err());
}

#[test]
fn attach_starts_without_sessions() {
    let (a, _) = Attach::start();
    assert_eq!(a.session_id, "");
    assert_eq!(a.browser_session_id, "");
    let (mut a, _) = Attach::start();
    a.on_response("{\"id\":1,\"result\":{\"targetInfos\":[]}}");
    assert_eq!(a.session_id, "");
}

#[test]
fn dispatch_calls_each_handler_once_in_order() {
    type H = Box<dyn Fn(String) -> Result<String, CrowserError>>;
    let mut ipc: BrowserIpc<H> = BrowserIpc::new(attached());
    let h: H = Box::new(|a: String| Ok(format!("got {}", a)));
    ipc.register_command("echo", h).unwrap();
    let failing: H = Box::new(|_| Err(CrowserError::IpcError("boom".to_string())));
    ipc.register_command("fail", failing).unwrap();
    let out = ipc.dispatch("echo", &"{\"x\":1}".to_string());
    assert_eq!(out.len(), 1);
    assert_eq!(out[0], Ok("got {\"x\":1}".to_string()));
    let out = ipc.dispatch("fail", &"null".to_string());
    assert_eq!(out, vec![Err(CrowserError::IpcError("boom".to_string()))]);
    assert!(ipc.dispatch("missing", &"null".to_string()).is_empty());
}

#[test]
fn reload_command_for_the_session() {
    let ipc: BrowserIpc<u32> = BrowserIpc::new(attached());
    let c = ipc.reload_command();
    assert_eq!(c.method, "Page.reload");
    assert_eq!(c.params, "{\"ignoreCache\":null,\"scriptToEvaluateOnLoad\":null}");
    assert_eq!(c.session_id, Some("S1".to_string()));
}

#[test]
fn discovery_trims_unicode_white_space() {
    let mut d = Discovery::new(2);
    match d.next(Some("{\"webSocketDebuggerUrl\":\"\\u00a0 ws://h/x\\n\"}")) {
        DiscoveryStep::Connect(u) => assert_eq!(u, "ws://h/x"),
        _ => panic!("expected to connect"),
    }
    let mut d = Discovery::new(2);
    match d.next(Some("{\"webSocketDebuggerUrl\":\"  \"}")) {
        DiscoveryStep::Fail(e) => assert_eq!(e, CrowserError::CDPError("No browser instance to connect to".to_string())),
        _ => panic!("expected to give up"),
    }
}
