use microroute::error::Error;
use microroute::handlers::{BackendCall, BackendReply, Request, plan};
use microroute::pipeline::{benchmark_router, complete, respond};
use microroute::response::Response;
use microroute::router::{Handler, Method};
use microroute::ser::Record;

fn get(path: &str, query: Option<&str>) -> Request {
    Request {
        method: Method::Get,
        path: path.to_string(),
        query: query.map(|q| q.to_string()),
        body: Vec::new(),
    }
}

fn header_of(r: &Response, name: &str) -> Option<String> {
    r.headers.iter().find(|(n, _)| n == name).map(|(_, v)| v.clone())
}

#[test]
fn plaintext_scenario() {
    let router = benchmark_router();
    let r = respond(&router, &get("/plaintext", None), Some(BackendReply::Nothing));
    assert_eq!(r.status, 200);
    assert_eq!(r.body, "Hello, World!");
    assert_eq!(header_of(&r, "content-type"), Some("text/plain".to_string()));
    assert_eq!(header_of(&r, "server"), Some("microroute".to_string()));
}

#[test]
fn json_scenario() {
    let router = benchmark_router();
    let r = respond(&router, &get("/json", None), Some(BackendReply::Nothing));
    assert_eq!(r.status, 200);
    assert_eq!(r.body, "{\"message\":\"Hello, World!\"}");
    assert_eq!(header_of(&r, "content-type"), Some("application/json".to_string()));
    assert_eq!(header_of(&r, "server"), Some("microroute".to_string()));
    let v: serde_json::Value = serde_json::from_str(&r.body).unwrap();
    assert_eq!(v.get("message").and_then(|m| m.as_str()), Some("Hello, World!"));
}

#[test]
fn db_scenario() {
    let router = benchmark_router();
    let world = Record { id: 4174, value: 331 };
    let r = respond(&router, &get("/db", None), Some(BackendReply::One(world)));
    assert_eq!(r.status, 200);
    assert_eq!(r.body, "{\"id\":4174,\"randomNumber\":331}");
    let v: serde_json::Value = serde_json::from_str(&r.body).unwrap();
    assert_eq!(v.get("id").and_then(|x| x.as_u64()), Some(4174));
    assert_eq!(v.get("randomNumber").and_then(|x| x.as_u64()), Some(331));
}

#[test]
fn db_backend_failure_maps_to_500() {
    let router = benchmark_router();
    let r = respond(&router, &get("/db", None), None);
    assert_eq!(r.status, 500);
    assert_eq!(header_of(&r, "server"), Some("microroute".to_string()));
    assert_eq!(r.body, "");
}

#[test]
fn queries_scenario_lists_every_record() {
    let router = benchmark_router();
    let worlds = vec![
        Record { id: 1, value: 10 },
        Record { id: 2, value: 20 },
        Record { id: 3, value: 30 },
    ];
    let r = respond(&router, &get("/queries", Some("count=3")), Some(BackendReply::Many(worlds)));
    assert_eq!(r.status, 200);
    assert_eq!(
        r.body,
        "[{\"id\":1,\"randomNumber\":10},{\"id\":2,\"randomNumber\":20},{\"id\":3,\"randomNumber\":30}]"
    );
    let v: serde_json::Value = serde_json::from_str(&r.body).unwrap();
    assert_eq!(v.as_array().map(|a| a.len()), Some(3));
}

#[test]
fn updates_scenario() {
    let router = benchmark_router();
    let worlds = vec![Record { id: 9, value: 99 }];
    let r = respond(&router, &get("/updates", Some("count=1")), Some(BackendReply::Many(worlds)));
    assert_eq!(r.status, 200);
    assert_eq!(r.body, "[{\"id\":9,\"randomNumber\":99}]");
}

#[test]
fn empty_record_list_is_an_empty_array() {
    let router = benchmark_router();
    let r = respond(&router, &get("/queries", None), Some(BackendReply::Many(Vec::new())));
    assert_eq!(r.body, "[]");
    let v: serde_json::Value = serde_json::from_str(&r.body).unwrap();
    assert_eq!(v.as_array().map(|a| a.len()), Some(0));
}

#[test]
fn routing_errors_carry_the_server_header() {
    let router = benchmark_router();
    let missing = respond(&router, &get("/missing", None), Some(BackendReply::Nothing));
    assert_eq!(missing.status, 404);
    assert_eq!(header_of(&missing, "server"), Some("microroute".to_string()));
    let mut req = get("/json", None);
    req.method = Method::Post;
    let not_allowed = respond(&router, &req, Some(BackendReply::Nothing));
    assert_eq!(not_allowed.status, 405);
    assert_eq!(header_of(&not_allowed, "server"), Some("microroute".to_string()));
}

#[test]
fn complete_stamps_every_error_kind() {
    for (e, status) in [
        (Error::RouteNotFound, 404),
        (Error::MethodNotAllowed, 405),
        (Error::BackendError, 500),
        (Error::RenderError, 500),
    ] {
        let r = complete(Err(e));
        assert_eq!(r.status, status);
        assert_eq!(r.body, "");
        assert_eq!(header_of(&r, "server"), Some("microroute".to_string()));
    }
}

#[test]
fn complete_replaces_an_existing_server_header() {
    let res = Response {
        status: 200,
        headers: vec![("server".to_string(), "other".to_string())],
        body: "x".to_string(),
    };
    let r = complete(Ok(res));
    assert_eq!(header_of(&r, "server"), Some("microroute".to_string()));
    assert_eq!(r.headers.iter().filter(|(n, _)| n == "server").count(), 1);
    assert_eq!(r.body, "x");
}

#[test]
fn plan_chooses_the_backend_call() {
    assert_eq!(plan(Handler::Plaintext, &get("/plaintext", None)), BackendCall::Nothing);
    assert_eq!(plan(Handler::Json, &get("/json", None)), BackendCall::Nothing);
    assert_eq!(plan(Handler::Db, &get("/db", None)), BackendCall::GetOne);
    assert_eq!(plan(Handler::Fortunes, &get("/fortunes", None)), BackendCall::TellFortune);
    assert_eq!(plan(Handler::Queries, &get("/queries", Some("count=17"))), BackendCall::GetMany(17));
    assert_eq!(plan(Handler::Updates, &get("/updates", Some("count=600"))), BackendCall::UpdateMany(500));
}
