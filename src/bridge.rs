//! The bridge request: an owned snapshot of an inbound HTTP request in the
//! NUL-terminated form that plugins receive.
use vstd::prelude::*;

use crate::err::PluginError;

verus! {

/// A header as it crosses the boundary: name bytes and value bytes.
pub type HeaderPair = (Vec<u8>, Vec<u8>);

pub open spec fn has_nul(b: Seq<u8>) -> bool {
    exists|i: int| 0 <= i < b.len() && b[i] == 0
}

/// A byte that an HTTP header value may hold to be read as text: visible
/// ASCII or a tab.
pub open spec fn is_header_text_byte(b: u8) -> bool {
    (32 <= b && b < 127) || b == 9
}

pub open spec fn is_header_text(b: Seq<u8>) -> bool {
    forall|i: int| 0 <= i < b.len() ==> is_header_text_byte(#[trigger] b[i])
}

pub open spec fn header_view(h: HeaderPair) -> (Seq<u8>, Seq<u8>) {
    (h.0@, h.1@)
}

pub open spec fn headers_view(hs: Seq<HeaderPair>) -> Seq<(Seq<u8>, Seq<u8>)> {
    hs.map_values(|h: HeaderPair| header_view(h))
}

/// The error for one header, if it cannot cross the boundary.
pub open spec fn header_error(h: (Seq<u8>, Seq<u8>)) -> Option<(u16, Seq<char>)> {
    if has_nul(h.0) {
        Some((400u16, "Invalid header"@))
    } else if !is_header_text(h.1) {
        Some((400u16, "Invalid header value"@))
    } else {
        None
    }
}

/// The error of the first header at or after `k` that cannot cross.
pub open spec fn headers_error_from(hs: Seq<(Seq<u8>, Seq<u8>)>, k: int) -> Option<(u16, Seq<char>)>
    decreases hs.len() - k,
{
    if k < 0 || k >= hs.len() {
        None
    } else if header_error(hs[k]) is Some {
        header_error(hs[k])
    } else {
        headers_error_from(hs, k + 1)
    }
}

/// Why a request cannot be represented as a bridge request, checked in this
/// order: method, path, headers, body. `None` when it can.
pub open spec fn bridge_error(
    method: Seq<u8>,
    uri: Seq<u8>,
    headers: Seq<(Seq<u8>, Seq<u8>)>,
    body: Seq<u8>,
) -> Option<(u16, Seq<char>)> {
    if has_nul(method) {
        Some((400u16, "Invalid method"@))
    } else if has_nul(uri) {
        Some((400u16, "Invalid path"@))
    } else if headers_error_from(headers, 0) is Some {
        headers_error_from(headers, 0)
    } else if has_nul(body) {
        Some((400u16, "Invalid body"@))
    } else {
        None
    }
}

pub fn contains_nul(b: &Vec<u8>) -> (r: bool)
    ensures
        r == has_nul(b@),
{
    let mut i: usize = 0;
    while i < b.len()
        invariant
            i <= b@.len(),
            forall|k: int| 0 <= k < i ==> b@[k] != 0,
        decreases b@.len() - i,
    {
        if b[i] == 0 {
            return true;
        }
        i = i + 1;
    }
    false
}

/// Whether a header value reads as text (what `HeaderValue::to_str` accepts).
pub fn header_value_is_text(b: &Vec<u8>) -> (r: bool)
    ensures
        r == is_header_text(b@),
{
    let mut i: usize = 0;
    while i < b.len()
        invariant
            i <= b@.len(),
            forall|k: int| 0 <= k < i ==> is_header_text_byte(#[trigger] b@[k]),
        decreases b@.len() - i,
    {
        let c = b[i];
        if !((32 <= c && c < 127) || c == 9) {
            return false;
        }
        i = i + 1;
    }
    true
}

pub fn bytes_equal(a: &Vec<u8>, b: &Vec<u8>) -> (r: bool)
    ensures
        r == (a@ == b@),
{
    if a.len() != b.len() {
        return false;
    }
    let mut i: usize = 0;
    while i < a.len()
        invariant
            a@.len() == b@.len(),
            i <= a@.len(),
            forall|k: int| 0 <= k < i ==> a@[k] == b@[k],
        decreases a@.len() - i,
    {
        if a[i] != b[i] {
            return false;
        }
        i = i + 1;
    }
    assert(a@ =~= b@);
    true
}

/// The bridge request: method, URI, headers and fully buffered body, none of
/// which holds a NUL byte.
pub struct CRequest {
    method: Vec<u8>,
    uri: Vec<u8>,
    headers: Vec<HeaderPair>,
    body: Vec<u8>,
}

/// The mathematical content of a bridge request.
pub struct CRequestView {
    pub method: Seq<u8>,
    pub uri: Seq<u8>,
    pub headers: Seq<(Seq<u8>, Seq<u8>)>,
    pub body: Seq<u8>,
}

impl View for CRequest {
    type V = CRequestView;

    closed spec fn view(&self) -> CRequestView {
        CRequestView {
            method: self.method@,
            uri: self.uri@,
            headers: headers_view(self.headers@),
            body: self.body@,
        }
    }
}

/// The last value given for the header `key`, if any.
pub open spec fn last_value_from(hs: Seq<(Seq<u8>, Seq<u8>)>, key: Seq<u8>, n: int) -> Option<Seq<u8>>
    decreases n,
{
    if n <= 0 || n > hs.len() {
        None
    } else if hs[n - 1].0 == key {
        Some(hs[n - 1].1)
    } else {
        last_value_from(hs, key, n - 1)
    }
}

impl CRequest {
    #[verifier::type_invariant]
    closed spec fn inv(&self) -> bool {
        &&& !has_nul(self.method@)
        &&& !has_nul(self.uri@)
        &&& headers_error_from(headers_view(self.headers@), 0) is None
        &&& !has_nul(self.body@)
    }

    /// Builds the bridge request. A part that cannot be represented (a NUL
    /// byte, or a header value that is not text) is a 400 error naming the
    /// first such part; otherwise every part, each header among them, is
    /// carried over unchanged and in order.
    pub fn from_parts(method: Vec<u8>, uri: Vec<u8>, headers: Vec<HeaderPair>, body: Vec<u8>) -> (r: Result<CRequest, PluginError>)
        ensures
            bridge_error(method@, uri@, headers_view(headers@), body@) matches Some(e) ==> (r matches Err(
                err,
            ) && err@ == e),
            bridge_error(method@, uri@, headers_view(headers@), body@) is None ==> (r matches Ok(req)
                && req@ == CRequestView {
                method: method@,
                uri: uri@,
                headers: headers_view(headers@),
                body: body@,
            }),
    {
        if contains_nul(&method) {
            return Err(PluginError::new(400, "Invalid method"));
        }
        if contains_nul(&uri) {
            return Err(PluginError::new(400, "Invalid path"));
        }
        let ghost hv = headers_view(headers@);
        let mut i: usize = 0;
        while i < headers.len()
            invariant
                i <= headers@.len(),
                !has_nul(method@),
                !has_nul(uri@),
                hv == headers_view(headers@),
                headers_error_from(hv, 0) == headers_error_from(hv, i as int),
            decreases headers@.len() - i,
        {
            let h = &headers[i];
            assert(hv.len() == headers@.len());
            assert(hv[i as int] == header_view(headers@[i as int]));
            if contains_nul(&h.0) {
                return Err(PluginError::new(400, "Invalid header"));
            }
            if !header_value_is_text(&h.1) {
                return Err(PluginError::new(400, "Invalid header value"));
            }
            i = i + 1;
        }
        if contains_nul(&body) {
            return Err(PluginError::new(400, "Invalid body"));
        }
        Ok(CRequest { method, uri, headers, body })
    }

    pub fn method(&self) -> (r: &Vec<u8>)
        ensures
            r@ == self@.method,
    {
        &self.method
    }

    pub fn uri(&self) -> (r: &Vec<u8>)
        ensures
            r@ == self@.uri,
    {
        &self.uri
    }

    pub fn headers(&self) -> (r: &Vec<HeaderPair>)
        ensures
            headers_view(r@) == self@.headers,
    {
        &self.headers
    }

    pub fn body(&self) -> (r: &Vec<u8>)
        ensures
            r@ == self@.body,
    {
        &self.body
    }

    /// No part of a bridge request holds a NUL byte.
    pub fn lemma_no_nul(&self)
        ensures
            !has_nul(self@.method),
            !has_nul(self@.uri),
            forall|i: int|
                0 <= i < self@.headers.len() ==> !has_nul((#[trigger] self@.headers[i]).0) && is_header_text(
                    self@.headers[i].1,
                ),
            !has_nul(self@.body),
    {
        proof {
            use_type_invariant(self);
            let hv = headers_view(self.headers@);
            lemma_headers_error_free(hv, 0);
            assert forall|i: int| 0 <= i < hv.len() implies !has_nul((#[trigger] hv[i]).0)
                && is_header_text(hv[i].1) by {
                assert(header_error(hv[i]) is None);
            }
        }
    }

    /// The value of header `key`; where the header was sent more than once,
    /// the last value given.
    pub fn get_header(&self, key: &Vec<u8>) -> (r: Option<&Vec<u8>>)
        ensures
            r matches Some(v) ==> last_value_from(self@.headers, key@, self@.headers.len() as int) == Some(v@),
            r is None ==> last_value_from(self@.headers, key@, self@.headers.len() as int) is None,
    {
        let ghost hv = headers_view(self.headers@);
        let mut n: usize = self.headers.len();
        while n > 0
            invariant
                n <= self.headers@.len(),
                hv == headers_view(self.headers@),
                hv == self@.headers,
                last_value_from(hv, key@, hv.len() as int) == last_value_from(hv, key@, n as int),
            decreases n,
        {
            let h = &self.headers[n - 1];
            assert(hv[n - 1] == header_view(self.headers@[n - 1]));
            if bytes_equal(&h.0, key) {
                return Some(&h.1);
            }
            n = n - 1;
        }
        None
    }
}

/// Where no header at or after `k` has an error, each of them is free of NUL
/// bytes in its name and reads as text in its value.
pub proof fn lemma_headers_error_free(hs: Seq<(Seq<u8>, Seq<u8>)>, k: int)
    requires
        0 <= k,
        headers_error_from(hs, k) is None,
    ensures
        forall|i: int| k <= i < hs.len() ==> #[trigger] header_error(hs[i]) is None,
    decreases hs.len() - k,
{
    if k < hs.len() {
        lemma_headers_error_free(hs, k + 1);
    }
}

/// Every error that the bridge can give is a 400.
pub proof fn lemma_bridge_error_is_bad_request(
    method: Seq<u8>,
    uri: Seq<u8>,
    headers: Seq<(Seq<u8>, Seq<u8>)>,
    body: Seq<u8>,
)
    ensures
        bridge_error(method, uri, headers, body) matches Some(e) ==> e.0 == 400,
{
    lemma_headers_error_code(headers, 0);
}

proof fn lemma_headers_error_code(hs: Seq<(Seq<u8>, Seq<u8>)>, k: int)
    ensures
        headers_error_from(hs, k) matches Some(e) ==> e.0 == 400,
    decreases hs.len() - k,
{
    if 0 <= k < hs.len() && header_error(hs[k]) is None {
        lemma_headers_error_code(hs, k + 1);
    }
}

} // verus!
