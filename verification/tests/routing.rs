use web_api::api::controllers::{Endpoint, Engage, RouteHandler};
use web_api::api::middlewares::wrappers::auth::{AuthDecision, AuthWrapper};
use web_api::api::transport::{RequestError, RequestErrorKind, STATUS_UNAUTHORIZED};
use web_api::api::{join_path, Router};

fn segments(parts: &[&str]) -> Vec<String> {
    parts.iter().map(|p| p.to_string()).collect()
}

#[test]
fn full_path_puts_method_before_path() {
    assert_eq!(Router::<u8>::get_full_path("users", "GET"), "GET-users");
    assert_eq!(Router::<u8>::get_full_path("users/new", "POST"), "POST-users/new");
    assert_eq!(Router::<u8>::get_full_path("", "GET"), "GET-");
}

#[test]
fn join_path_uses_slashes() {
    assert_eq!(join_path(&segments(&[])), "");
    assert_eq!(join_path(&segments(&["users"])), "users");
    assert_eq!(join_path(&segments(&["users", "new"])), "users/new");
    assert_eq!(join_path(&segments(&["a", "", "b"])), "a//b");
}

#[test]
fn new_router_serves_nothing() {
    let router: Router<u8> = Router::new();
    assert!(router.handle(&segments(&["users"]), "GET").is_none());
    assert!(router.handle(&segments(&[]), "GET").is_none());
}

#[test]
fn registered_route_is_served() {
    let mut router: Router<u8> = Router::new();
    router.get("users", 1);
    router.post("users", 2);
    router.post("users/new", 3);
    assert_eq!(router.handle(&segments(&["users"]), "GET"), Some(&1));
    assert_eq!(router.handle(&segments(&["users"]), "POST"), Some(&2));
    assert_eq!(router.handle(&segments(&["users", "new"]), "POST"), Some(&3));
    assert_eq!(router.handle(&segments(&["users", "new"]), "GET"), None);
    assert_eq!(router.handle(&segments(&["users"]), "DELETE"), None);
}

#[test]
fn later_registration_replaces_earlier() {
    let mut router: Router<u8> = Router::new();
    router.get("users", 1);
    router.get("users", 4);
    assert_eq!(router.handle(&segments(&["users"]), "GET"), Some(&4));
}

#[test]
fn engage_adds_user_routes() {
    let router: Router<RouteHandler> = Router::new().engage();
    assert_eq!(
        router.handle(&segments(&["users", "new"]), "POST"),
        Some(&RouteHandler { endpoint: Endpoint::PostUser, auth_required: false })
    );
    assert_eq!(
        router.handle(&segments(&["users"]), "GET"),
        Some(&RouteHandler { endpoint: Endpoint::GetUsers, auth_required: true })
    );
    assert_eq!(router.handle(&segments(&["users"]), "POST"), None);
    assert_eq!(router.handle(&segments(&["tasks", "create"]), "POST"), None);
}

#[test]
fn auth_wrapper_marks_handler() {
    let wrapped = AuthWrapper::wrap(RouteHandler::open(Endpoint::GetUsers));
    assert_eq!(wrapped, RouteHandler { endpoint: Endpoint::GetUsers, auth_required: true });
}

#[test]
fn auth_screen_lets_clean_requests_through() {
    assert!(matches!(AuthWrapper::screen(None), AuthDecision::Proceed));
}

#[test]
fn auth_screen_answers_recorded_error() {
    let err = RequestError::new(RequestErrorKind::Unauthorized);
    match AuthWrapper::screen(Some(err)) {
        AuthDecision::Reject(body) => {
            assert_eq!(body.resp_status, STATUS_UNAUTHORIZED);
            assert_eq!(body.error, Some("Unauthorized"));
            assert!(body.data.is_none());
        }
        AuthDecision::Proceed => panic!("the request should have been rejected"),
    }
}

#[test]
fn created_user_reply_is_ok_with_email() {
    let body = web_api::api::transport::users::PostUser {
        email: "someone@example.com".to_string(),
        password: "1234567".to_string(),
    };
    let (code, text) = web_api::api::controllers::users::created_user_reply(body);
    assert_eq!(code, 200);
    assert_eq!(text, "someone@example.com");
}
