//! Request identifiers for structured logging.
use vstd::prelude::*;

verus! {

/// Header name for the request ID.
pub const REQUEST_ID_HEADER: &'static str = "x-request-id";

/// The request ID stored in a request's extensions.
#[derive(Clone, Debug)]
pub struct RequestId(pub String);

/// The request ID of the request being served: the ID that the request-ID
/// middleware generated for it and stored in its extensions (the same value it
/// writes into the `x-request-id` header), handed over from there; `None`
/// outside a request. (A tracing span does not give its recorded values back,
/// so the ID is read where the middleware stored it.)
pub fn current_request_id(recorded: Option<&RequestId>) -> (r: Option<String>)
    ensures
        match recorded {
            Some(id) => r matches Some(s) && s@ == id.0@,
            None => r is None,
        },
{
    match recorded {
        Some(id) => Some(id.0.clone()),
        None => None,
    }
}

} // verus!
