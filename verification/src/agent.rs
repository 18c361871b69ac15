//! The HTTP client's side of the key-broker protocol, without the transport:
//! which requests to send, and what to remember of the responses.
//!
//! The broker names the session in a `session_id` attribute of a response
//! header. The client keeps the identifier and sends it back as a cookie with
//! every later POST.

use crate::cookie::{extract_session_id, session_id_of};
use crate::text::join;
use vstd::prelude::*;

verus! {

#[derive(Clone, Copy, Debug, PartialEq, Eq, Structural)]
pub enum Method {
    Get,
    Post,
}

/// A request for the transport to send.
#[derive(Debug)]
pub struct HttpRequest {
    pub method: Method,
    pub url: String,
    /// Header lines, each `Name: value`.
    pub headers: Vec<String>,
    pub body: Vec<u8>,
}

/// What the transport received: the status of the answer, the header lines
/// as they came, and the body.
#[derive(Debug)]
pub struct HttpResponse {
    pub status: u32,
    pub headers: Vec<Vec<u8>>,
    pub body: Vec<u8>,
}

/// The result code by which the transport names an answer with an error
/// status.
pub const HTTP_RETURNED_ERROR: u32 = 22;

impl HttpResponse {
    /// The answer says that the request failed: its status is 400 or more.
    pub open spec fn spec_refused(&self) -> bool {
        self.status >= 400
    }

    /// The answer says that the request failed.
    #[verifier::when_used_as_spec(spec_refused)]
    pub fn refused(&self) -> (r: bool)
        ensures
            r == self.spec_refused(),
    {
        self.status >= 400
    }
}

/// The session identifier after a run of response header lines: that of the
/// last line that carries one, else the one held before.
pub open spec fn observe(current: Option<Seq<char>>, headers: Seq<Vec<u8>>) -> Option<Seq<char>>
    decreases headers.len(),
{
    if headers.len() == 0 {
        current
    } else {
        match session_id_of(headers.last()@) {
            Some(id) => Some(id),
            None => observe(current, headers.drop_last()),
        }
    }
}

/// The header lines of a POST, given the session identifier held.
pub open spec fn post_headers(session: Option<Seq<char>>) -> Seq<Seq<char>> {
    let fixed = seq![
        "Accept: application/json"@,
        "Content-Type: application/json; charset=utf-8"@,
    ];
    match session {
        Some(id) => fixed.push("Cookie: session_id="@ + id),
        None => fixed,
    }
}

/// The client's state: the session identifier, once a response has named one.
#[derive(Debug)]
pub struct CurlAgent {
    session_id: Option<String>,
}

impl CurlAgent {
    /// The session identifier held.
    pub closed spec fn session(&self) -> Option<Seq<char>> {
        match self.session_id {
            Some(id) => Some(id@),
            None => None,
        }
    }

    /// A client that holds no session identifier.
    pub fn new() -> (r: Self)
        ensures
            r.session() is None,
    {
        CurlAgent { session_id: None }
    }

    /// A client that holds what this one holds.
    pub fn duplicate(&self) -> (r: Self)
        ensures
            r.session() == self.session(),
    {
        CurlAgent { session_id: self.session_id() }
    }

    /// The session identifier held, if any.
    pub fn session_id(&self) -> (r: Option<String>)
        ensures
            r is Some <==> self.session() is Some,
            r matches Some(id) ==> self.session() == Some(id@),
    {
        match &self.session_id {
            Some(id) => Some(id.clone()),
            None => None,
        }
    }

    /// A plain retrieval of `url`: no header, no body, no cookie.
    pub fn get(&self, url: &str) -> (r: HttpRequest)
        ensures
            r.method == Method::Get,
            r.url@ == url@,
            r.headers@.len() == 0,
            r.body@.len() == 0,
    {
        HttpRequest {
            method: Method::Get,
            url: url.to_owned(),
            headers: Vec::new(),
            body: Vec::new(),
        }
    }

    /// A POST of `body` to `url` as JSON, with the session cookie if a session
    /// identifier is held.
    pub fn post(&self, url: &str, body: &[u8]) -> (r: HttpRequest)
        ensures
            r.method == Method::Post,
            r.url@ == url@,
            r.body@ == body@,
            r.headers@.len() == post_headers(self.session()).len(),
            forall|i: int|
                0 <= i < r.headers@.len() ==> (#[trigger] r.headers@[i])@ == post_headers(
                    self.session(),
                )[i],
    {
        let mut headers: Vec<String> = Vec::new();
        headers.push("Accept: application/json".to_owned());
        headers.push("Content-Type: application/json; charset=utf-8".to_owned());
        match &self.session_id {
            Some(id) => {
                headers.push(join("Cookie: session_id=", id.as_str()));
            },
            None => {},
        }
        HttpRequest {
            method: Method::Post,
            url: url.to_owned(),
            headers,
            body: vstd::slice::slice_to_vec(body),
        }
    }

    /// Takes note of the header lines of a response to a POST.
    pub fn receive(&mut self, headers: &Vec<Vec<u8>>)
        ensures
            final(self).session() == observe(old(self).session(), headers@),
    {
        let n = headers.len();
        let mut i: usize = 0;
        while i < n
            invariant
                i <= n == headers@.len(),
                self.session() == observe(old(self).session(), headers@.take(i as int)),
            decreases n - i,
        {
            proof {
                let upto = headers@.take(i + 1);
                assert(upto.last() == headers@[i as int]);
                assert(upto.drop_last() =~= headers@.take(i as int));
            }
            match extract_session_id(headers[i].as_slice()) {
                Some(id) => {
                    self.session_id = Some(id);
                },
                None => {},
            }
            i += 1;
        }
        assert(headers@.take(n as int) =~= headers@);
    }
}

} // verus!
