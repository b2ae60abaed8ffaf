use crate::api::controllers::{lemma_user_route_keys, with_user_routes, Endpoint, RouteHandler};
use crate::api::middlewares::wrappers::auth::AuthWrapper;
use crate::api::transport::users::PostUser;
use crate::api::transport::STATUS_OK;
use crate::api::Router;
use vstd::prelude::*;

verus! {

/// Adds the routes of the user controller to `router`.
pub fn engage(router: &mut Router<RouteHandler>)
    ensures
        final(router)@ == with_user_routes(old(router)@),
        final(router)@.dom() == old(router)@.dom().insert("POST-users/new"@).insert("GET-users"@),
        final(router)@["POST-users/new"@] == (RouteHandler { endpoint: Endpoint::PostUser, auth_required: false }),
        final(router)@["GET-users"@] == (RouteHandler { endpoint: Endpoint::GetUsers, auth_required: true }),
        forall|key: Seq<char>|
            key != "POST-users/new"@ && key != "GET-users"@ && #[trigger] old(router)@.contains_key(key)
                ==> final(router)@[key] == old(router)@[key],
{
    proof {
        lemma_user_route_keys();
    }
    router.post("users/new", RouteHandler::open(Endpoint::PostUser));
    router.get("users", AuthWrapper::wrap(RouteHandler::open(Endpoint::GetUsers)));
}

/// The answer to a request that created the user `body`: 200 with the
/// user's e-mail as the response text.
pub fn created_user_reply(body: PostUser) -> (reply: (u16, String))
    ensures
        reply.0 == STATUS_OK,
        reply.1@ == body.email@,
{
    (STATUS_OK, body.email)
}

} // verus!
