use crate::api::controllers::RouteHandler;
use crate::api::transport::{reports, RequestError, ResponseBody};
use vstd::prelude::*;

verus! {

/// Lets a request reach its handler only when no error was recorded for it
/// while its session was set up.
pub struct AuthWrapper;

/// What becomes of a request that must pass the authentication check.
#[derive(Debug, Clone)]
pub enum AuthDecision {
    /// The handler serves the request.
    Proceed,
    /// The request is answered with this error response instead.
    Reject(ResponseBody),
}

impl AuthWrapper {
    /// `handler`, behind the authentication check.
    pub fn wrap(handler: RouteHandler) -> (wrapped: RouteHandler)
        ensures
            wrapped == (RouteHandler { auth_required: true, ..handler }),
    {
        RouteHandler { auth_required: true, ..handler }
    }

    /// Decides a request that must pass the check, given the error recorded
    /// for it, if any: such an error is answered with its error response,
    /// otherwise the handler runs.
    pub fn screen(recorded: Option<RequestError>) -> (decision: AuthDecision)
        ensures
            match recorded {
                Some(err) => decision matches AuthDecision::Reject(body) && reports(body, err.kind),
                None => decision is Proceed,
            },
    {
        match recorded {
            Some(e) => AuthDecision::Reject(ResponseBody::with_error(e)),
            None => AuthDecision::Proceed,
        }
    }
}

} // verus!
