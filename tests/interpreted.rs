use miss_demeanor::bridge::CRequest;
use miss_demeanor::config::Trigger;
use miss_demeanor::interpreted::{exit_outcome, parse_checker_output, InterpretedPlugin};

fn plugin() -> InterpretedPlugin {
    InterpretedPlugin::new(Trigger {
        name: "t".into(),
        plugin_path: "/usr/bin/trigger.rb".into(),
        next_plugin: "h".into(),
        use_checker: false,
    })
}

fn req(method: &[u8], headers: Vec<(Vec<u8>, Vec<u8>)>, body: &[u8]) -> CRequest {
    CRequest::from_parts(method.to_vec(), b"/hook".to_vec(), headers, body.to_vec()).ok().unwrap()
}

#[test]
fn command_is_plugin_path() {
    let p = plugin();
    assert_eq!(p.command(), "/usr/bin/trigger.rb");
    assert_eq!(p.config.name, "t");
}

#[test]
fn trigger_args_in_order_with_json_headers() {
    let r = req(b"POST", vec![(b"b".to_vec(), b"2".to_vec()), (b"a".to_vec(), b"say \"hi\"".to_vec())], b"hi");
    let args = plugin().trigger_args(&r).ok().unwrap();
    assert_eq!(args, vec!["POST", "/hook", "{\"a\":\"say \\\"hi\\\"\",\"b\":\"2\"}", "hi"]);
}

#[test]
fn trigger_args_no_headers() {
    let args = plugin().trigger_args(&req(b"GET", vec![], b"")).ok().unwrap();
    assert_eq!(args, vec!["GET", "/hook", "{}", ""]);
}

#[test]
fn non_utf8_body_is_bad_body() {
    let e = plugin().trigger_args(&req(b"POST", vec![], &[0xff, 0xfe])).err().unwrap();
    let r = e.into_response();
    assert_eq!((r.status(), r.body().as_str()), (400, "Bad body"));
}

#[test]
fn non_utf8_method_is_bad_method() {
    let e = plugin().trigger_args(&req(&[0xc3], vec![], b"")).err().unwrap();
    assert_eq!(e.into_response().into_body(), "Bad method");
}

#[test]
fn non_utf8_header_name_is_bad_headers() {
    let e = plugin().trigger_args(&req(b"GET", vec![(vec![0xc3, 0x28], b"v".to_vec())], b"")).err().unwrap();
    assert_eq!(e.into_response().into_body(), "Bad headers");
}

#[test]
fn exit_status_decides() {
    assert!(exit_outcome(Some(0)).is_ok());
    let e = exit_outcome(Some(1)).err().unwrap().into_response();
    assert_eq!((e.status(), e.body().as_str()), (500, "Internal server error"));
    assert!(exit_outcome(None).is_err());
}

#[test]
fn checker_output_parsed() {
    assert_eq!(parse_checker_output(&b"true\nstate".to_vec()), Some((b"state".to_vec(), true)));
    assert_eq!(parse_checker_output(&b"false\n".to_vec()), Some((vec![], false)));
    assert_eq!(parse_checker_output(&b"false".to_vec()), Some((vec![], false)));
    assert_eq!(parse_checker_output(&b"yes\nx".to_vec()), None);
    assert_eq!(parse_checker_output(&b"".to_vec()), None);
    assert_eq!(parse_checker_output(&b"true\na\nb".to_vec()), Some((b"a\nb".to_vec(), true)));
}

#[test]
fn trigger_input_is_json_request() {
    let r = req(b"POST", vec![(b"x-n".to_vec(), b"a\"b".to_vec())], b"line1\nline2");
    let input = plugin().trigger_input(&r).ok().unwrap();
    assert_eq!(
        input,
        "{\"method\":\"POST\",\"uri\":\"/hook\",\"headers\":{\"x-n\":\"a\\\"b\"},\"body\":\"line1\\nline2\"}"
    );
}

#[test]
fn trigger_input_refuses_non_utf8_uri() {
    let r = CRequest::from_parts(b"GET".to_vec(), vec![0xff], vec![], vec![]).ok().unwrap();
    let e = plugin().trigger_input(&r).err().unwrap().into_response();
    assert_eq!((e.status(), e.body().as_str()), (400, "Bad URI"));
}
