pub mod auth;

use crate::api::controllers::RouteHandler;
use vstd::prelude::*;

verus! {

/// Something that puts a check in front of a handler.
pub trait Wrapper {
    fn wrap(handler: RouteHandler) -> RouteHandler;
}

} // verus!
