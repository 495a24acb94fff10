use vstd::prelude::*;

verus! {

/// Error body shape of a route that the remote API does not know.
pub struct UnknownRoute {
    pub error: String,
}

/// Error body shape of a request that the remote API refused.
pub struct GitlabError {
    pub message: String,
}

/// What a request can fail with.
pub enum Error {
    /// The remote API answered with an error status.
    Fault { code: u16, error: String },
    /// A body could not be read or written as JSON.
    Codec(String),
    /// The HTTP call itself failed.
    Http(String),
    /// A local read failed.
    IO(String),
}

/// The statuses that the remote API uses to report a failed request.
pub open spec fn is_fault_status(code: u16) -> bool {
    code == 400 || code == 401 || code == 403 || code == 404 || code == 405 || code == 409
        || code == 422 || code == 500
}

/// Whether `code` is one of the statuses that report a failed request.
pub fn fault_status(code: u16) -> (r: bool)
    ensures
        r == is_fault_status(code),
{
    code == 400 || code == 401 || code == 403 || code == 404 || code == 405 || code == 409
        || code == 422 || code == 500
}

} // verus!
