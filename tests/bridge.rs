use miss_demeanor::bridge::{bytes_equal, contains_nul, header_value_is_text, CRequest};

fn build(method: &[u8], uri: &[u8], headers: Vec<(Vec<u8>, Vec<u8>)>, body: &[u8]) -> Result<CRequest, (u16, String)> {
    CRequest::from_parts(method.to_vec(), uri.to_vec(), headers, body.to_vec()).map_err(|e| {
        let r = e.into_response();
        (r.status(), r.into_body())
    })
}

#[test]
fn headers_carried_over_unchanged() {
    let headers = vec![
        (b"x-a".to_vec(), b"1".to_vec()),
        (b"x-b".to_vec(), b"two\tvalues".to_vec()),
        (b"x-a".to_vec(), b"3".to_vec()),
    ];
    let req = build(b"GET", b"/hook?x=1", headers.clone(), b"").ok().unwrap();
    assert_eq!(req.headers(), &headers);
    assert_eq!(req.method(), &b"GET".to_vec());
    assert_eq!(req.uri(), &b"/hook?x=1".to_vec());
    assert_eq!(req.get_header(&b"x-b".to_vec()), Some(&b"two\tvalues".to_vec()));
    assert_eq!(req.get_header(&b"x-a".to_vec()), Some(&b"3".to_vec()));
    assert_eq!(req.get_header(&b"x-c".to_vec()), None);
}

#[test]
fn nul_in_method_is_400() {
    assert_eq!(build(b"PO\0ST", b"/", vec![], b"").err().unwrap(), (400, "Invalid method".to_string()));
}

#[test]
fn nul_in_path_is_400() {
    assert_eq!(build(b"POST", b"/a\0b", vec![], b"").err().unwrap(), (400, "Invalid path".to_string()));
}

#[test]
fn nul_in_header_name_is_400() {
    let h = vec![(b"x\0".to_vec(), b"v".to_vec())];
    assert_eq!(build(b"POST", b"/", h, b"").err().unwrap(), (400, "Invalid header".to_string()));
}

#[test]
fn non_text_header_value_is_400() {
    let h = vec![(b"ok".to_vec(), b"v".to_vec()), (b"x".to_vec(), vec![0xc3, 0xa9])];
    assert_eq!(build(b"POST", b"/", h, b"").err().unwrap(), (400, "Invalid header value".to_string()));
}

#[test]
fn nul_in_body_is_400() {
    assert_eq!(build(b"POST", b"/", vec![], b"a\0").err().unwrap(), (400, "Invalid body".to_string()));
}

#[test]
fn first_failing_part_is_reported() {
    assert_eq!(build(b"POST", b"/\0", vec![], b"\0").err().unwrap(), (400, "Invalid path".to_string()));
}

#[test]
fn empty_request_is_accepted() {
    let req = build(b"", b"", vec![], b"").ok().unwrap();
    assert!(req.body().is_empty());
}

#[test]
fn byte_helpers() {
    assert!(contains_nul(&vec![1, 0, 2]));
    assert!(!contains_nul(&vec![]));
    assert!(header_value_is_text(&b"a b\t~".to_vec()));
    assert!(!header_value_is_text(&vec![127]));
    assert!(!header_value_is_text(&vec![31]));
    assert!(bytes_equal(&vec![1, 2], &vec![1, 2]));
    assert!(!bytes_equal(&vec![1, 2], &vec![1]));
}
