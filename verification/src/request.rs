//! Requests, responses and the events that carry a finished outcome.
//!
//! A request is a plain record: method, URL, headers (order kept, duplicate
//! keys allowed) and body bytes. A response is what one finished HTTP attempt
//! returned; an outcome is `Result<Response, String>`, where the error string
//! describes a transport-level failure. An HTTP error status is not an error
//! here: it is a normal response with `ok == false`.

use vstd::prelude::*;
use vstd::utf8::decode_utf8;
use vstd::utf8::valid_utf8;

verus! {

/// A simple HTTP request: method, URL, headers and body bytes.
#[derive(Debug)]
pub struct Request {
    /// "GET", "POST", ...
    pub method: String,
    /// Where the request goes.
    pub url: String,
    /// The data sent with e.g. "POST".
    pub body: Vec<u8>,
    /// Name-value pairs, insertion order kept; the same key may appear twice.
    pub headers: Vec<(String, String)>,
}

impl Request {
    /// Create a `GET` request with the given url.
    pub fn get(url: String) -> (r: Request)
        ensures
            r.method@ == "GET"@,
            r.url == url,
            r.body@ == Seq::<u8>::empty(),
            r.headers@.len() == 1,
            r.headers@[0].0@ == "Accept"@,
            r.headers@[0].1@ == "*/*"@,
    {
        let mut headers: Vec<(String, String)> = Vec::new();
        headers.push(("Accept".to_owned(), "*/*".to_owned()));
        Request { method: "GET".to_owned(), url, body: Vec::new(), headers }
    }

    /// Create a `POST` request with the given url and body.
    pub fn post(url: String, body: Vec<u8>) -> (r: Request)
        ensures
            r.method@ == "POST"@,
            r.url == url,
            r.body == body,
            r.headers@.len() == 2,
            r.headers@[0].0@ == "Accept"@,
            r.headers@[0].1@ == "*/*"@,
            r.headers@[1].0@ == "Content-Type"@,
            r.headers@[1].1@ == "text/plain; charset=utf-8"@,
    {
        let mut headers: Vec<(String, String)> = Vec::new();
        headers.push(("Accept".to_owned(), "*/*".to_owned()));
        headers.push(("Content-Type".to_owned(), "text/plain; charset=utf-8".to_owned()));
        Request { method: "POST".to_owned(), url, body, headers }
    }

    /// Add a header. An existing entry with the same key is kept, so the same
    /// key can appear twice.
    pub fn insert_header(&mut self, key: String, value: String)
        ensures
            final(self).headers@ == old(self).headers@.push((key, value)),
            final(self).method == old(self).method,
            final(self).url == old(self).url,
            final(self).body == old(self).body,
    {
        self.headers.push((key, value));
    }
}

/// Response from a completed HTTP attempt.
#[derive(Debug)]
pub struct Response {
    /// The URL we ended up at. This can differ from the request url when we
    /// have followed redirects.
    pub url: String,
    /// Did we get a 2xx response code?
    pub ok: bool,
    /// Status code (e.g. `404` for "File not found").
    pub status: u16,
    /// Status text (e.g. "File not found" for status code `404`).
    pub status_text: String,
    /// The returned headers.
    pub headers: Vec<(String, String)>,
    /// The raw bytes of the response body.
    pub bytes: Vec<u8>,
}

/// Relies on `String::from_utf8`: returns the string exactly when the bytes
/// are a valid UTF-8 encoding, decoded as UTF-8.
#[verifier::external_body]
fn utf8_text(bytes: Vec<u8>) -> (r: Option<String>)
    ensures
        r is Some <==> valid_utf8(bytes@),
        r matches Some(s) ==> s@ == decode_utf8(bytes@),
{
    String::from_utf8(bytes).ok()
}

impl Response {
    /// The body as text, when it is valid UTF-8.
    pub fn text(&self) -> (r: Option<String>)
        ensures
            r is Some <==> valid_utf8(self.bytes@),
            r matches Some(s) ==> s@ == decode_utf8(self.bytes@),
    {
        let bytes = self.bytes.clone();
        assert(bytes@ =~= self.bytes@);
        utf8_text(bytes)
    }
}

/// Common view of every event that carries a finished outcome.
pub trait RequestResponseExt {
    /// The outcome this event carries.
    spec fn outcome(&self) -> Result<Response, String>;

    fn response(&self) -> (r: &Result<Response, String>)
        ensures
            *r == self.outcome(),
    ;

    /// Did we get a 2xx response code?
    fn success(&self) -> (r: bool)
        ensures
            r == (self.outcome() matches Ok(resp) && resp.ok),
    {
        match self.response() {
            Ok(resp) => resp.ok,
            Err(_) => false,
        }
    }

    /// The URL we ended up at, or the transport error description.
    fn url(&self) -> (r: Result<&String, &String>)
        ensures
            match r {
                Ok(u) => self.outcome() matches Ok(resp) && *u == resp.url,
                Err(e) => self.outcome() matches Err(err) && *e == err,
            },
    {
        match self.response() {
            Ok(resp) => Ok(&resp.url),
            Err(err) => Err(err),
        }
    }
}

/// wrap for a http request
#[derive(Debug)]
pub struct HttpRequest(pub Request);

impl HttpRequest {
    /// create a new http request
    pub fn new(request: Request) -> (r: Self)
        ensures
            r.0 == request,
    {
        Self(request)
    }

    /// create a new http get request
    pub fn get(url: String) -> (r: Self)
        ensures
            r.0.method@ == "GET"@,
            r.0.url == url,
            r.0.body@ == Seq::<u8>::empty(),
            r.0.headers@.len() == 1,
            r.0.headers@[0].0@ == "Accept"@,
            r.0.headers@[0].1@ == "*/*"@,
    {
        Self(Request::get(url))
    }

    /// create a new http post request
    pub fn post(url: String, body: Vec<u8>) -> (r: Self)
        ensures
            r.0.method@ == "POST"@,
            r.0.url == url,
            r.0.body == body,
            r.0.headers@.len() == 2,
    {
        Self(Request::post(url, body))
    }
}

/// wrap for a finished outcome, kept with the identifier's record
#[derive(Debug)]
pub struct RequestResponse(pub Result<Response, String>);

impl RequestResponseExt for RequestResponse {
    open spec fn outcome(&self) -> Result<Response, String> {
        self.0
    }

    fn response(&self) -> (r: &Result<Response, String>) {
        &self.0
    }
}

/// The generic completion event: a finished outcome without parsing, together
/// with the identifier whose request finished.
#[derive(Debug)]
pub struct ResponseString {
    pub response: Result<Response, String>,
    pub entity: u64,
}

impl RequestResponseExt for ResponseString {
    open spec fn outcome(&self) -> Result<Response, String> {
        self.response
    }

    fn response(&self) -> (r: &Result<Response, String>) {
        &self.response
    }
}

} // verus!
