use vstd::prelude::*;

verus! {

/// The errors this library reports.
///
/// Transport failures carry the HTTP status when the server answered with a
/// non-2xx code, and no status when the connection itself failed.  The
/// runtime layer maps its HTTP client's error values onto `HttpError` before
/// they enter the library.
#[derive(Debug, Clone, PartialEq, Eq)]
pub enum PosthogError {
    /// The client was built without a base URL.
    BaseUrlRequired,
    /// The client was built without an API key.
    ApiKeyRequired,
    /// A person was built without a distinct id.
    DistinctIdRequired,
    /// An event was built without a name.
    EventNameRequired,
    /// The HTTP call failed: either no response (`status` is `None`) or a
    /// non-2xx response carrying its status code.
    HttpError { status: Option<u16> },
    /// A response body did not decode as the expected shape.
    JsonError,
    /// The server reported that it could not compute feature flags.
    FeatureFlagError,
    /// The queue worker is no longer reachable.
    QueueError,
}

} // verus!
