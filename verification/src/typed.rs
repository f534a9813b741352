//! The typed-response decorator.
//!
//! A caller may tag a submitted request with a target type. When the
//! completion poller publishes the generic outcome for a tagged identifier,
//! the decorator attempts — through a caller-supplied parser, typically a JSON
//! deserializer — to turn the response body into a value of that type, and
//! publishes a second, typed event. Parsing never fails outward: a body that
//! does not parse degrades to `None`, with the original outcome kept beside
//! it. `None` means "could not parse", never "empty successful body".

use vstd::prelude::*;
use vstd::utf8::decode_utf8;
use vstd::utf8::valid_utf8;

use crate::request::HttpRequest;
use crate::request::Request;
use crate::request::RequestResponseExt;
use crate::request::Response;
use crate::request::ResponseString;
use core::marker::PhantomData;

verus! {

/// Marker pairing a request with the type its response should be parsed into.
#[derive(Debug)]
pub struct RequestType<T>(pub PhantomData<T>);

/// RequestBundle pairs a request with a target type, so that its completion
/// is also published as a typed event carrying a `T` parsed from the body.
#[derive(Debug)]
pub struct RequestBundle<T> {
    /// request that will be wrapped up
    pub request: HttpRequest,
    pub request_type: RequestType<T>,
}

impl<T> RequestBundle<T> {
    /// Recommended way to create a new RequestBundle of a given type.
    pub fn new(request: Request) -> (r: Self)
        ensures
            r.request.0 == request,
    {
        Self { request: HttpRequest(request), request_type: RequestType(PhantomData) }
    }

    /// Creates a new RequestBundle that will send a GET request to the given
    /// URL.
    pub fn get(url: String) -> (r: Self)
        ensures
            r.request.0.method@ == "GET"@,
            r.request.0.url == url,
            r.request.0.body@ == Seq::<u8>::empty(),
            r.request.0.headers@.len() == 1,
    {
        let req = Request::get(url);
        Self::new(req)
    }

    /// Adds a header to the request.
    pub fn with_header(self, key: String, value: String) -> (r: Self)
        ensures
            r.request.0.headers@ == self.request.0.headers@.push((key, value)),
            r.request.0.method == self.request.0.method,
            r.request.0.url == self.request.0.url,
            r.request.0.body == self.request.0.body,
    {
        let mut bundle = self;
        bundle.request.0.insert_header(key, value);
        bundle
    }
}

/// What the decorator owes for `data`, given the outcome and the parser: on a
/// transport failure, or a body that is not UTF-8 text, `data` is `None`; on a
/// textual body — whatever the HTTP status — `data` is what the parser
/// returned for exactly that text.
pub open spec fn typed_data_ok<T, F: FnOnce(String) -> Option<T>>(
    parse: F,
    outcome: Result<Response, String>,
    data: Option<T>,
) -> bool {
    match outcome {
        Ok(resp) => {
            if valid_utf8(resp.bytes@) {
                exists|s: String|
                    s@ == decode_utf8(resp.bytes@) && #[trigger] call_ensures(parse, (s,), data)
            } else {
                data is None
            }
        },
        Err(_) => data is None,
    }
}

/// The typed completion event: the generic outcome, plus the body parsed into
/// `T` when that was possible.
#[derive(Debug)]
pub struct OnResponseTyped<T> {
    pub request: Result<Response, String>,
    pub data: Option<T>,
    pub entity: u64,
}

impl<T> OnResponseTyped<T> {
    fn new<F: FnOnce(String) -> Option<T>>(response: ResponseString, parse: F) -> (r: Self)
        requires
            forall|s: String| #[trigger] call_requires(parse, (s,)),
        ensures
            r.entity == response.entity,
            r.request == response.response,
            typed_data_ok(parse, response.response, r.data),
    {
        let data = Self::try_parse(&response, parse);
        OnResponseTyped { request: response.response, data, entity: response.entity }
    }

    /// Parse the response body, best-effort: `None` on a transport failure, a
    /// non-textual body, or a text the parser rejects.
    pub fn try_parse<F: FnOnce(String) -> Option<T>>(response: &ResponseString, parse: F) -> (r:
        Option<T>)
        requires
            forall|s: String| #[trigger] call_requires(parse, (s,)),
        ensures
            typed_data_ok(parse, response.response, r),
    {
        if let Ok(resp) = &response.response {
            match resp.text() {
                Some(s) => parse(s),
                None => None,
            }
        } else {
            None
        }
    }
}

impl<T> RequestResponseExt for OnResponseTyped<T> {
    open spec fn outcome(&self) -> Result<Response, String> {
        self.request
    }

    fn response(&self) -> (r: &Result<Response, String>) {
        &self.request
    }
}

/// Decorate one generic completion event: when its identifier is registered
/// for the target type, parse the body with the given parser and build the
/// typed event; otherwise nothing is published.
pub fn on_typed_response<T, F: FnOnce(String) -> Option<T>>(
    response: ResponseString,
    registered: bool,
    parse: F,
) -> (r: Option<OnResponseTyped<T>>)
    requires
        forall|s: String| #[trigger] call_requires(parse, (s,)),
    ensures
        r is Some <==> registered,
        r matches Some(ev) ==> ev.entity == response.entity && ev.request == response.response
            && typed_data_ok(parse, response.response, ev.data),
{
    if registered {
        Some(OnResponseTyped::new(response, parse))
    } else {
        None
    }
}

} // verus!
