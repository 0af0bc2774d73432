use miss_demeanor::bridge::CRequest;
use miss_demeanor::config::{Checker, Endpoint, Handler, Server, ServerType, Trigger};
use miss_demeanor::pipeline::{after_handler, Step};
use miss_demeanor::registry::PluginRegistry;

fn trigger(name: &str, next: &str, use_checker: bool) -> Trigger {
    Trigger {
        name: name.to_string(),
        plugin_path: format!("/plugins/lib{}.so", name),
        next_plugin: next.to_string(),
        use_checker,
    }
}

fn checker(name: &str, next: &str) -> Checker {
    Checker {
        name: name.to_string(),
        plugin_path: format!("/plugins/lib{}.so", name),
        next_plugin: next.to_string(),
    }
}

fn handler(name: &str) -> Handler {
    Handler {
        name: name.to_string(),
        plugin_path: format!("/plugins/lib{}.so", name),
    }
}

fn hook_server() -> Server {
    Server {
        server_type: ServerType::Webhook,
        listen_addr: "127.0.0.1:8080".to_string(),
        use_tls: false,
        endpoints: vec![Endpoint {
            path: "/hook".to_string(),
            trigger_name: "t1".to_string(),
        }],
    }
}

fn post(uri: &str, body: &str) -> CRequest {
    CRequest::from_parts(
        b"POST".to_vec(),
        uri.as_bytes().to_vec(),
        vec![(b"content-type".to_vec(), b"text/plain".to_vec())],
        body.as_bytes().to_vec(),
    )
    .ok()
    .unwrap()
}

/// Runs the pipeline with stages given as closures; returns the response and
/// the compliance flag the handler saw, if it ran.
fn run(
    reg: &PluginRegistry,
    server: &Server,
    uri: &str,
    body: &str,
    trg: impl Fn(usize, &CRequest) -> Option<u32>,
    chk: impl Fn(usize, u32) -> Option<(u32, bool)>,
    hnd: impl Fn(usize, u32, bool) -> bool,
) -> (u16, String, Option<bool>, usize) {
    let mut calls = 0usize;
    let t = match reg.route(server, &uri.to_string()) {
        Ok(t) => t,
        Err(e) => {
            let r = e.into_response();
            return (r.status(), r.into_body(), None, calls);
        }
    };
    let req = post(uri, body);
    calls += 1;
    let mut step = reg.after_trigger(t, trg(t, &req));
    loop {
        match step {
            Step::Respond(r) => return (r.status(), r.into_body(), None, calls),
            Step::RunChecker { checker, state } => {
                calls += 1;
                step = reg.after_checker(checker, chk(checker, state));
            }
            Step::RunHandler { handler, state, compliant } => {
                calls += 1;
                let r = after_handler(hnd(handler, state, compliant));
                return (r.status(), r.into_body(), Some(compliant), calls);
            }
        }
    }
}

fn hook_registry() -> PluginRegistry {
    PluginRegistry::build(vec![trigger("t1", "h1", false)], vec![], vec![handler("h1")])
        .ok()
        .unwrap()
}

#[test]
fn post_hook_succeeds_with_compliant_true() {
    let reg = hook_registry();
    let server = hook_server();
    assert!(reg.validate_links().is_ok());
    assert!(reg.validate_server(&server).is_ok());
    let (status, body, compliant, calls) = run(
        &reg,
        &server,
        "/hook",
        "hi",
        |_, req| if req.body() == &b"hi".to_vec() { Some(7) } else { None },
        |_, _| None,
        |h, s, _| h == 0 && s == 7,
    );
    assert_eq!(status, 200);
    assert_eq!(body, "Success!");
    assert_eq!(compliant, Some(true));
    assert_eq!(calls, 2);
}

#[test]
fn missing_path_is_404() {
    let reg = hook_registry();
    let server = hook_server();
    let (status, body, compliant, calls) =
        run(&reg, &server, "/missing", "hi", |_, _| Some(1), |_, s| Some((s, true)), |_, _, _| true);
    assert_eq!(status, 404);
    assert_eq!(body, "Endpoint not found");
    assert_eq!(compliant, None);
    assert_eq!(calls, 0);
}

#[test]
fn dangling_checker_is_500_and_refused_at_startup() {
    let reg = PluginRegistry::build(
        vec![trigger("t1", "c9", true)],
        vec![checker("c1", "h1")],
        vec![handler("h1")],
    )
    .ok()
    .unwrap();
    let err = reg.validate_links().err().unwrap();
    assert_eq!(err.message(), "Unresolved next_plugin of t1");
    let server = hook_server();
    let (status, _, compliant, calls) =
        run(&reg, &server, "/hook", "hi", |_, _| Some(1), |_, s| Some((s, true)), |_, _, _| true);
    assert_eq!(status, 500);
    assert_eq!(compliant, None);
    assert_eq!(calls, 1);
}

#[test]
fn null_trigger_state_is_500_then_next_request_succeeds() {
    let reg = hook_registry();
    let server = hook_server();
    let (status, body, _, _) = run(&reg, &server, "/hook", "bad", |_, _| None, |_, _| None, |_, _, _| true);
    assert_eq!(status, 500);
    assert_eq!(body, "Trigger phase failed");
    let (status, body, _, _) = run(&reg, &server, "/hook", "good", |_, _| Some(3), |_, _| None, |_, _, _| true);
    assert_eq!(status, 200);
    assert_eq!(body, "Success!");
}

#[test]
fn endpoint_resolves_to_its_own_trigger() {
    let reg = PluginRegistry::build(
        vec![trigger("t0", "h1", false), trigger("t1", "h1", false), trigger("t2", "h1", false)],
        vec![],
        vec![handler("h1")],
    )
    .ok()
    .unwrap();
    let server = Server {
        server_type: ServerType::Webhook,
        listen_addr: "127.0.0.1:8080".to_string(),
        use_tls: false,
        endpoints: vec![
            Endpoint { path: "/a".to_string(), trigger_name: "t2".to_string() },
            Endpoint { path: "/b".to_string(), trigger_name: "t0".to_string() },
        ],
    };
    assert_eq!(reg.route(&server, &"/a".to_string()).ok(), Some(2));
    assert_eq!(reg.route(&server, &"/b".to_string()).ok(), Some(0));
}

#[test]
fn endpoint_naming_unknown_trigger_is_500() {
    let reg = hook_registry();
    let server = Server {
        server_type: ServerType::Webhook,
        listen_addr: "127.0.0.1:8080".to_string(),
        use_tls: false,
        endpoints: vec![Endpoint { path: "/x".to_string(), trigger_name: "nope".to_string() }],
    };
    let err = reg.route(&server, &"/x".to_string()).err().unwrap();
    let r = err.into_response();
    assert_eq!(r.status(), 500);
    assert_eq!(r.body(), "Plugin not found");
    assert!(reg.validate_server(&server).is_err());
}

#[test]
fn checker_verdict_reaches_handler() {
    let reg = PluginRegistry::build(
        vec![trigger("t1", "c1", true)],
        vec![checker("c1", "h1")],
        vec![handler("h1")],
    )
    .ok()
    .unwrap();
    let server = hook_server();
    assert!(reg.validate_links().is_ok());
    let (status, _, compliant, calls) =
        run(&reg, &server, "/hook", "hi", |_, _| Some(5), |_, s| Some((s + 1, false)), |_, s, c| s == 6 && !c);
    assert_eq!(status, 200);
    assert_eq!(compliant, Some(false));
    assert_eq!(calls, 3);
}

#[test]
fn failing_checker_is_500() {
    let reg = PluginRegistry::build(
        vec![trigger("t1", "c1", true)],
        vec![checker("c1", "h1")],
        vec![handler("h1")],
    )
    .ok()
    .unwrap();
    let (status, body, compliant, _) =
        run(&reg, &hook_server(), "/hook", "hi", |_, _| Some(5), |_, _| None, |_, _, _| true);
    assert_eq!(status, 500);
    assert_eq!(body, "Checker phase failed");
    assert_eq!(compliant, None);
}

#[test]
fn checker_linking_to_missing_handler() {
    let reg = PluginRegistry::build(
        vec![trigger("t1", "c1", true)],
        vec![checker("c1", "h9")],
        vec![handler("h1")],
    )
    .ok()
    .unwrap();
    assert_eq!(reg.validate_links().err().unwrap().message(), "Unresolved next_plugin of c1");
    let (status, body, _, _) =
        run(&reg, &hook_server(), "/hook", "hi", |_, _| Some(5), |_, s| Some((s, true)), |_, _, _| true);
    assert_eq!(status, 500);
    assert_eq!(body, "Plugin not found");
}

#[test]
fn failing_handler_is_500() {
    let r = after_handler(false);
    assert_eq!(r.status(), 500);
    assert_eq!(r.body(), "Handler phase failed");
}

#[test]
fn same_request_twice_same_response() {
    let reg = hook_registry();
    let server = hook_server();
    let first = run(&reg, &server, "/hook", "hi", |_, r| Some(r.body().len() as u32), |_, _| None, |_, s, _| s == 2);
    let second = run(&reg, &server, "/hook", "hi", |_, r| Some(r.body().len() as u32), |_, _| None, |_, s, _| s == 2);
    assert_eq!(first, second);
    assert_eq!(first.0, 200);
}

#[test]
fn trigger_state_passes_unchanged_to_handler() {
    let reg = hook_registry();
    match reg.after_trigger(0, Some(vec![1u8, 2, 3])) {
        Step::RunHandler { handler, state, compliant } => {
            assert_eq!(handler, 0);
            assert_eq!(state, vec![1u8, 2, 3]);
            assert!(compliant);
        }
        _ => panic!("expected the handler stage"),
    }
}
