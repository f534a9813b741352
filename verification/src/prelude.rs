//! One import for the items most callers need.

pub use crate::HttpClientSetting;
pub use crate::HttpPlugin;
pub use crate::HttpRequest;
pub use crate::OnResponseTyped;
pub use crate::Request;
pub use crate::RequestBundle;
pub use crate::RequestPipeline;
pub use crate::RequestResponse;
pub use crate::RequestResponseExt;
pub use crate::RequestTask;
pub use crate::Response;
pub use crate::ResponseString;
