pub mod users;

use crate::api::{full_path, Router};
use vstd::prelude::*;

verus! {

/// The request handlers of the service.
#[derive(Debug, Clone, Copy, PartialEq, Eq, Structural)]
pub enum Endpoint {
    /// Creates a user from the request body.
    PostUser,
    /// Lists the users.
    GetUsers,
}

/// What a route leads to: a handler, and whether the request must first pass
/// the authentication check (see `AuthWrapper`).
#[derive(Debug, Clone, Copy, PartialEq, Eq, Structural)]
pub struct RouteHandler {
    pub endpoint: Endpoint,
    pub auth_required: bool,
}

impl RouteHandler {
    /// A handler that serves any request it is given.
    pub fn open(endpoint: Endpoint) -> (handler: RouteHandler)
        ensures
            handler == (RouteHandler { endpoint, auth_required: false }),
    {
        RouteHandler { endpoint, auth_required: false }
    }
}

/// The routes of the user controller on top of `routes`.
pub open spec fn with_user_routes(routes: Map<Seq<char>, RouteHandler>) -> Map<Seq<char>, RouteHandler> {
    routes.insert(
        full_path("users/new"@, "POST"@),
        RouteHandler { endpoint: Endpoint::PostUser, auth_required: false },
    ).insert(
        full_path("users"@, "GET"@),
        RouteHandler { endpoint: Endpoint::GetUsers, auth_required: true },
    )
}

/// The keys of the two user routes, spelled out.
pub proof fn lemma_user_route_keys()
    ensures
        full_path("users/new"@, "POST"@) == "POST-users/new"@,
        full_path("users"@, "GET"@) == "GET-users"@,
        "POST-users/new"@ != "GET-users"@,
{
    reveal_strlit("users/new");
    reveal_strlit("POST");
    reveal_strlit("users");
    reveal_strlit("GET");
    reveal_strlit("-");
    reveal_strlit("POST-users/new");
    reveal_strlit("GET-users");
    assert(full_path("users/new"@, "POST"@) =~= "POST-users/new"@);
    assert(full_path("users"@, "GET"@) =~= "GET-users"@);
    assert("POST-users/new"@.len() != "GET-users"@.len());
}

/// Registers the routes of the controllers.
pub trait Engage {
    fn engage(self) -> Self;
}

impl Engage for Router<RouteHandler> {
    /// Adds the user routes: POST "users/new" creates a user, and GET "users",
    /// behind the authentication check, lists them.
    fn engage(self) -> (router: Self)
        ensures
            router@ == with_user_routes(self@),
            router@.dom() == self@.dom().insert("POST-users/new"@).insert("GET-users"@),
            router@["POST-users/new"@] == (RouteHandler { endpoint: Endpoint::PostUser, auth_required: false }),
            router@["GET-users"@] == (RouteHandler { endpoint: Endpoint::GetUsers, auth_required: true }),
            forall|key: Seq<char>|
                key != "POST-users/new"@ && key != "GET-users"@ && #[trigger] self@.contains_key(key)
                    ==> router@[key] == self@[key],
    {
        proof {
            lemma_user_route_keys();
        }
        let mut router = self;
        users::engage(&mut router);
        router
    }
}

} // verus!
