//! A bounded-concurrency pipeline for asynchronous HTTP requests.
//!
//! Callers submit requests as plain records; an admission controller gates how
//! many may run at once; each admitted request is handed out as a fetch job
//! whose outcome comes back through a single-slot channel; a completion poller
//! drains finished channels on every scheduling tick and republishes the
//! outcomes, optionally decorated with a parsed, typed view of the body.

use vstd::prelude::*;

mod client;
mod pipeline;
pub mod prelude;
mod request;
mod typed;

pub use client::HttpClientSetting;
pub use pipeline::FetchJob;
pub use pipeline::PendingRequest;
pub use pipeline::RequestPipeline;
pub use pipeline::RequestTask;
pub use pipeline::entities_distinct;
pub use pipeline::lemma_in_flight_bounded;
pub use pipeline::lemma_request_states_exclusive;
pub use pipeline::pending_entities;
pub use pipeline::response_entities;
pub use pipeline::tag_lookup;
pub use pipeline::task_entities;
pub use request::HttpRequest;
pub use request::Request;
pub use request::RequestResponse;
pub use request::RequestResponseExt;
pub use request::Response;
pub use request::ResponseString;
pub use typed::OnResponseTyped;
pub use typed::RequestBundle;
pub use typed::RequestType;
pub use typed::on_typed_response;
pub use typed::typed_data_ok;

verus! {

/// Marker for the whole request/response pipeline, for a host scheduler to
/// register the tick functions under. The pipeline itself lives in
/// [`RequestPipeline`]; a host adapter owns one and drives
/// [`RequestPipeline::handle_request`] and [`RequestPipeline::handle_response`]
/// once per tick.
pub struct HttpPlugin;

impl Default for HttpPlugin {
    fn default() -> (r: Self) {
        HttpPlugin
    }
}

} // verus!
