//! Errors of the gateway and the HTTP responses they become.
use vstd::prelude::*;

verus! {

/// Fatal error raised while starting the gateway.
#[derive(Debug)]
pub struct DemeanorError(pub String);

impl DemeanorError {
    pub fn new(msg: &str) -> (r: DemeanorError)
        ensures
            r.0@ == msg@,
    {
        DemeanorError(msg.to_owned())
    }

    /// The message carried by the error.
    pub fn message(&self) -> (r: &String)
        ensures
            r@ == self.0@,
    {
        &self.0
    }
}

/// A per-request failure: an HTTP status code and a response body.
#[derive(Debug)]
pub struct PluginError(pub u16, pub String);

impl View for PluginError {
    type V = (u16, Seq<char>);

    open spec fn view(&self) -> (u16, Seq<char>) {
        (self.0, self.1@)
    }
}

/// An HTTP response produced by the pipeline: a valid status code and body
/// text.
#[derive(Debug)]
pub struct PipelineResponse {
    status: u16,
    body: String,
}

impl View for PipelineResponse {
    type V = (u16, Seq<char>);

    closed spec fn view(&self) -> (u16, Seq<char>) {
        (self.status, self.body@)
    }
}

/// The status codes that an HTTP response line can carry: three digits.
pub open spec fn is_valid_status(code: u16) -> bool {
    100 <= code <= 999
}

/// The status a response gets for an error code: the code itself where it is
/// a valid status, 500 otherwise.
pub open spec fn status_for(code: u16) -> u16 {
    if is_valid_status(code) {
        code
    } else {
        500
    }
}

impl PipelineResponse {
    #[verifier::type_invariant]
    closed spec fn inv(&self) -> bool {
        is_valid_status(self.status)
    }

    /// A response; `status` must be a valid HTTP status.
    pub fn new(status: u16, body: String) -> (r: PipelineResponse)
        requires
            is_valid_status(status),
        ensures
            r@ == (status, body@),
    {
        PipelineResponse { status, body }
    }

    /// The status code, always a valid HTTP status.
    pub fn status(&self) -> (r: u16)
        ensures
            r == self@.0,
            is_valid_status(r),
    {
        proof {
            use_type_invariant(self);
        }
        self.status
    }

    pub fn body(&self) -> (r: &String)
        ensures
            r@ == self@.1,
    {
        &self.body
    }

    /// The body, taking the response apart.
    pub fn into_body(self) -> (r: String)
        ensures
            r@ == self@.1,
    {
        self.body
    }
}

impl PluginError {
    pub fn new(code: u16, body: &str) -> (r: PluginError)
        ensures
            r@ == (code, body@),
    {
        PluginError(code, body.to_owned())
    }

    pub fn code(&self) -> (r: u16)
        ensures
            r == self.0,
    {
        self.0
    }

    /// The response sent back for this error: its body, under its code where
    /// the code is a valid HTTP status and under 500 otherwise.
    pub fn into_response(self) -> (r: PipelineResponse)
        ensures
            r@ == (status_for(self.0), self.1@),
    {
        let status = if 100 <= self.0 && self.0 <= 999 {
            self.0
        } else {
            500
        };
        PipelineResponse::new(status, self.1)
    }
}

} // verus!
