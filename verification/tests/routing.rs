use microroute::error::Error;
use microroute::pipeline::benchmark_router;
use microroute::router::{Handler, Method, Router};

#[test]
fn dispatch_returns_registered_handler() {
    let r = benchmark_router();
    assert_eq!(r.dispatch(Method::Get, &"/plaintext".to_string()), Ok(Handler::Plaintext));
    assert_eq!(r.dispatch(Method::Get, &"/json".to_string()), Ok(Handler::Json));
    assert_eq!(r.dispatch(Method::Get, &"/db".to_string()), Ok(Handler::Db));
    assert_eq!(r.dispatch(Method::Get, &"/fortunes".to_string()), Ok(Handler::Fortunes));
    assert_eq!(r.dispatch(Method::Get, &"/queries".to_string()), Ok(Handler::Queries));
    assert_eq!(r.dispatch(Method::Get, &"/updates".to_string()), Ok(Handler::Updates));
}

#[test]
fn dispatch_is_idempotent() {
    let r = benchmark_router();
    let first = r.dispatch(Method::Get, &"/db".to_string());
    for _ in 0..10 {
        assert_eq!(r.dispatch(Method::Get, &"/db".to_string()), first);
    }
}

#[test]
fn dispatch_unknown_path_is_not_found() {
    let r = benchmark_router();
    assert_eq!(r.dispatch(Method::Get, &"/nope".to_string()), Err(Error::RouteNotFound));
    assert_eq!(r.dispatch(Method::Get, &"".to_string()), Err(Error::RouteNotFound));
    assert_eq!(r.dispatch(Method::Post, &"/plaintext/".to_string()), Err(Error::RouteNotFound));
}

#[test]
fn dispatch_wrong_method_is_not_allowed() {
    let r = benchmark_router();
    assert_eq!(r.dispatch(Method::Post, &"/json".to_string()), Err(Error::MethodNotAllowed));
    assert_eq!(r.dispatch(Method::Delete, &"/db".to_string()), Err(Error::MethodNotAllowed));
}

#[test]
fn register_and_contains() {
    let mut r = Router::new();
    assert!(!r.contains(Method::Get, &"/a".to_string()));
    r.register(Method::Get, "/a".to_string(), Handler::Plaintext);
    assert!(r.contains(Method::Get, &"/a".to_string()));
    assert!(!r.contains(Method::Post, &"/a".to_string()));
    r.register(Method::Post, "/a".to_string(), Handler::Json);
    assert_eq!(r.dispatch(Method::Get, &"/a".to_string()), Ok(Handler::Plaintext));
    assert_eq!(r.dispatch(Method::Post, &"/a".to_string()), Ok(Handler::Json));
}

#[test]
fn error_statuses_follow_the_table() {
    assert_eq!(Error::RouteNotFound.status(), 404);
    assert_eq!(Error::MethodNotAllowed.status(), 405);
    assert_eq!(Error::BackendError.status(), 500);
    assert_eq!(Error::RenderError.status(), 500);
}
