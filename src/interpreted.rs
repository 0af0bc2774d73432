//! The subprocess plugin binding: a stage is an executable. The trigger reads
//! the request serialized as a JSON object on its standard input, and gets
//! its method, URI, headers (as a JSON object) and body as arguments too; a
//! stage succeeds when it exits with status 0, and what it prints becomes the
//! stage state. A checker prints its verdict, `true` or `false`, on a first
//! line before the new state.
use vstd::prelude::*;
use vstd::utf8::{decode_utf8, valid_utf8};

use crate::bridge::{CRequest, CRequestView};
use crate::config::Trigger;
use crate::err::PluginError;

verus! {

/// The JSON text of an object with the given members, in the form that
/// `serde_json` writes it.
pub uninterp spec fn json_object_text(members: Seq<(Seq<char>, Seq<char>)>) -> Seq<char>;

/// Relies on `String::from_utf8`: it accepts exactly the valid UTF-8 byte
/// strings and holds the characters they encode.
#[verifier::external_body]
fn text_of(b: &Vec<u8>) -> (r: Option<String>)
    ensures
        r is Some <==> valid_utf8(b@),
        r matches Some(s) ==> s@ == decode_utf8(b@),
{
    String::from_utf8(b.clone()).ok()
}

/// The JSON text of a string value, in the form that `serde_json` writes it.
pub uninterp spec fn json_string_text(s: Seq<char>) -> Seq<char>;

/// Relies on `serde_json::to_string` of a `serde_json::Map` of string
/// values built from the members in order. Writing such a map into memory
/// has no error path, so the result is always present.
#[verifier::external_body]
fn json_object(members: &Vec<(String, String)>) -> (r: Option<String>)
    ensures
        r is Some,
        r matches Some(s) ==> s@ == json_object_text(members@.map_values(|m: (String, String)| (m.0@, m.1@))),
{
    let map: serde_json::Map<String, serde_json::Value> = members.iter().map(
        |m| (m.0.clone(), serde_json::Value::String(m.1.clone())),
    ).collect();
    serde_json::to_string(&map).ok()
}

/// Relies on `serde_json::to_string` of a string: it writes the quoted,
/// escaped string into memory, which has no error path.
#[verifier::external_body]
fn json_string(text: &str) -> (r: Option<String>)
    ensures
        r is Some,
        r matches Some(s) ==> s@ == json_string_text(text@),
{
    serde_json::to_string(text).ok()
}

pub open spec fn headers_are_text(hs: Seq<(Seq<u8>, Seq<u8>)>) -> bool {
    forall|i: int| 0 <= i < hs.len() ==> valid_utf8((#[trigger] hs[i]).0) && valid_utf8(hs[i].1)
}

pub open spec fn decoded_headers(hs: Seq<(Seq<u8>, Seq<u8>)>) -> Seq<(Seq<char>, Seq<char>)> {
    hs.map_values(|h: (Seq<u8>, Seq<u8>)| (decode_utf8(h.0), decode_utf8(h.1)))
}

/// Why the trigger's arguments cannot be formed from a request, checked in
/// argument order; `None` when every part is UTF-8 text.
pub open spec fn args_error(req: CRequestView) -> Option<(u16, Seq<char>)> {
    if !valid_utf8(req.method) {
        Some((400u16, "Bad method"@))
    } else if !valid_utf8(req.uri) {
        Some((400u16, "Bad URI"@))
    } else if !headers_are_text(req.headers) {
        Some((400u16, "Bad headers"@))
    } else if !valid_utf8(req.body) {
        Some((400u16, "Bad body"@))
    } else {
        None
    }
}

/// The trigger's arguments for a request whose parts are all text.
pub open spec fn trigger_args_spec(req: CRequestView) -> Seq<Seq<char>> {
    seq![
        decode_utf8(req.method),
        decode_utf8(req.uri),
        json_object_text(decoded_headers(req.headers)),
        decode_utf8(req.body),
    ]
}

/// What the trigger reads on its standard input for a request whose parts
/// are all text: a JSON object with members `method`, `uri`, `headers` (an
/// object of the header values by name) and `body`.
pub open spec fn trigger_input_spec(req: CRequestView) -> Seq<char> {
    "{\"method\":"@ + json_string_text(decode_utf8(req.method)) + ",\"uri\":"@ + json_string_text(
        decode_utf8(req.uri),
    ) + ",\"headers\":"@ + json_object_text(decoded_headers(req.headers)) + ",\"body\":"@
        + json_string_text(decode_utf8(req.body)) + "}"@
}

/// The parts of a request decoded as text.
struct TextParts {
    method: String,
    uri: String,
    headers: Vec<(String, String)>,
    body: String,
}

/// Decodes the parts of a request, in argument order; a part that is not
/// UTF-8 text is a 400 error naming it.
fn decode_parts(req: &CRequest) -> (r: Result<TextParts, PluginError>)
    ensures
        args_error(req@) matches Some(e) ==> (r matches Err(err) && err@ == e),
        args_error(req@) is None ==> (r matches Ok(p) && p.method@ == decode_utf8(req@.method) && p.uri@
            == decode_utf8(req@.uri) && p.headers@.map_values(|m: (String, String)| (m.0@, m.1@))
            == decoded_headers(req@.headers) && p.body@ == decode_utf8(req@.body)),
{
    let method = match text_of(req.method()) {
        Some(m) => m,
        None => {
            return Err(PluginError::new(400, "Bad method"));
        },
    };
    let uri = match text_of(req.uri()) {
        Some(u) => u,
        None => {
            return Err(PluginError::new(400, "Bad URI"));
        },
    };
    let headers = req.headers();
    let ghost hv = req@.headers;
    let mut members: Vec<(String, String)> = Vec::new();
    let mut i: usize = 0;
    while i < headers.len()
        invariant
            i <= headers@.len(),
            valid_utf8(req@.method),
            valid_utf8(req@.uri),
            hv == req@.headers,
            hv == crate::bridge::headers_view(headers@),
            hv.len() == headers@.len(),
            members@.len() == i,
            forall|k: int| 0 <= k < i ==> valid_utf8((#[trigger] hv[k]).0) && valid_utf8(hv[k].1),
            forall|k: int|
                0 <= k < i ==> (#[trigger] members@[k]).0@ == decode_utf8(hv[k].0) && members@[k].1@
                    == decode_utf8(hv[k].1),
        decreases headers@.len() - i,
    {
        assert(hv[i as int] == crate::bridge::header_view(headers@[i as int]));
        let name = match text_of(&headers[i].0) {
            Some(n) => n,
            None => {
                return Err(PluginError::new(400, "Bad headers"));
            },
        };
        let value = match text_of(&headers[i].1) {
            Some(v) => v,
            None => {
                return Err(PluginError::new(400, "Bad headers"));
            },
        };
        members.push((name, value));
        i = i + 1;
    }
    let body = match text_of(req.body()) {
        Some(b) => b,
        None => {
            return Err(PluginError::new(400, "Bad body"));
        },
    };
    assert(members@.map_values(|m: (String, String)| (m.0@, m.1@)) =~= decoded_headers(hv));
    Ok(TextParts { method, uri, headers: members, body })
}

/// The JSON text of a string; always present.
fn quoted(text: &str) -> (r: String)
    ensures
        r@ == json_string_text(text@),
{
    match json_string(text) {
        Some(s) => s,
        None => String::new(),
    }
}

pub open spec fn internal_error() -> (u16, Seq<char>) {
    (500u16, "Internal server error"@)
}

/// A trigger run as a child process.
pub struct InterpretedPlugin {
    cmd: String,
    pub config: Trigger,
}

impl InterpretedPlugin {
    pub fn new(config: Trigger) -> (r: InterpretedPlugin)
        ensures
            r.command_view() == config.plugin_path@,
            r.config_view() == config,
    {
        InterpretedPlugin { cmd: config.plugin_path.clone(), config }
    }

    pub closed spec fn command_view(&self) -> Seq<char> {
        self.cmd@
    }

    pub closed spec fn config_view(&self) -> Trigger {
        self.config
    }

    /// The executable to run.
    pub fn command(&self) -> (r: &str)
        ensures
            r@ == self.command_view(),
    {
        self.cmd.as_str()
    }

    /// The command-line arguments for a request: method, URI, headers as a
    /// JSON object, and body. A part that is not UTF-8 text is a 400 error
    /// naming the first such part.
    pub fn trigger_args(&self, req: &CRequest) -> (r: Result<Vec<String>, PluginError>)
        ensures
            args_error(req@) matches Some(e) ==> (r matches Err(err) && err@ == e),
            args_error(req@) is None ==> (r matches Ok(args) && args@.map_values(|a: String| a@)
                == trigger_args_spec(req@)),
    {
        let parts = decode_parts(req)?;
        let json = match json_object(&parts.headers) {
            Some(j) => j,
            None => String::new(),
        };
        let mut args: Vec<String> = Vec::new();
        args.push(parts.method);
        args.push(parts.uri);
        args.push(json);
        args.push(parts.body);
        assert(args@.map_values(|a: String| a@) =~= trigger_args_spec(req@));
        Ok(args)
    }

    /// The request serialized for the trigger's standard input: a JSON object
    /// with its method, URI, headers and body. A part that is not UTF-8 text
    /// is a 400 error naming the first such part.
    pub fn trigger_input(&self, req: &CRequest) -> (r: Result<String, PluginError>)
        ensures
            args_error(req@) matches Some(e) ==> (r matches Err(err) && err@ == e),
            args_error(req@) is None ==> (r matches Ok(s) && s@ == trigger_input_spec(req@)),
    {
        let parts = decode_parts(req)?;
        let headers = match json_object(&parts.headers) {
            Some(j) => j,
            None => String::new(),
        };
        let out = "{\"method\":".to_owned().concat(quoted(parts.method.as_str()).as_str());
        let out = out.concat(",\"uri\":").concat(quoted(parts.uri.as_str()).as_str());
        let out = out.concat(",\"headers\":").concat(headers.as_str());
        let out = out.concat(",\"body\":").concat(quoted(parts.body.as_str()).as_str());
        let out = out.concat("}");
        Ok(out)
    }
}

/// The outcome of a stage from its exit status; `None` when the process was
/// ended by a signal.
pub fn exit_outcome(code: Option<i32>) -> (r: Result<(), PluginError>)
    ensures
        code == Some(0i32) <==> r is Ok,
        r matches Err(e) ==> e@ == internal_error(),
{
    match code {
        Some(0) => Ok(()),
        _ => Err(PluginError::new(500, "Internal server error")),
    }
}

/// The index of the first newline at or after `k`, or the length where there
/// is none.
pub open spec fn line_end_from(out: Seq<u8>, k: int) -> int
    decreases out.len() - k,
{
    if k < 0 || k >= out.len() {
        out.len() as int
    } else if out[k] == 10 {
        k
    } else {
        line_end_from(out, k + 1)
    }
}

pub open spec fn true_line() -> Seq<u8> {
    seq![116u8, 114u8, 117u8, 101u8]
}

pub open spec fn false_line() -> Seq<u8> {
    seq![102u8, 97u8, 108u8, 115u8, 101u8]
}

/// What a checker printed: a first line `true` or `false`, its verdict, and
/// after the newline the new state. `None` where the first line is neither.
pub open spec fn checker_output_spec(out: Seq<u8>) -> Option<(Seq<u8>, bool)> {
    let n = line_end_from(out, 0);
    let rest = if n < out.len() {
        out.subrange(n + 1, out.len() as int)
    } else {
        Seq::<u8>::empty()
    };
    if out.subrange(0, n) == true_line() {
        Some((rest, true))
    } else if out.subrange(0, n) == false_line() {
        Some((rest, false))
    } else {
        None
    }
}

proof fn lemma_line_end_from(out: Seq<u8>, k: int)
    requires
        0 <= k <= out.len(),
    ensures
        k <= line_end_from(out, k) <= out.len(),
    decreases out.len() - k,
{
    if k < out.len() && out[k] != 10 {
        lemma_line_end_from(out, k + 1);
    }
}

/// Reads the output of a checker process into its new state and verdict;
/// `None` where the output does not have that form.
pub fn parse_checker_output(out: &Vec<u8>) -> (r: Option<(Vec<u8>, bool)>)
    ensures
        checker_output_spec(out@) matches Some(p) ==> (r matches Some(q) && q.0@ == p.0 && q.1 == p.1),
        checker_output_spec(out@) is None ==> r is None,
{
    let mut n: usize = 0;
    while n < out.len() && out[n] != 10
        invariant
            n <= out@.len(),
            line_end_from(out@, 0) == line_end_from(out@, n as int),
        decreases out@.len() - n,
    {
        n = n + 1;
    }
    assert(line_end_from(out@, 0) == n as int);
    let ghost line = out@.subrange(0, n as int);
    let verdict = if n == 4 && out[0] == 116 && out[1] == 114 && out[2] == 117 && out[3] == 101 {
        assert(line =~= true_line());
        true
    } else if n == 5 && out[0] == 102 && out[1] == 97 && out[2] == 108 && out[3] == 115 && out[4] == 101 {
        assert(line =~= false_line());
        false
    } else {
        proof {
            if line == true_line() {
                assert(line.len() == 4);
                assert(out@[0] == line[0] && out@[1] == line[1] && out@[2] == line[2] && out@[3] == line[3]);
            }
            if line == false_line() {
                assert(line.len() == 5);
                assert(out@[0] == line[0] && out@[1] == line[1] && out@[2] == line[2] && out@[3] == line[3]
                    && out@[4] == line[4]);
            }
        }
        return None;
    };
    let mut state: Vec<u8> = Vec::new();
    if n < out.len() {
        let mut k: usize = n + 1;
        while k < out.len()
            invariant
                n < out@.len(),
                n + 1 <= k <= out@.len(),
                state@ =~= out@.subrange(n + 1, k as int),
            decreases out@.len() - k,
        {
            state.push(out[k]);
            k = k + 1;
        }
    }
    Some((state, verdict))
}

} // verus!
