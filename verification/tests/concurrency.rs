use std::sync::Arc;

use microroute::handlers::{BackendCall, BackendReply, Request, handle, plan};
use microroute::pipeline::{benchmark_router, complete, respond};
use microroute::router::Method;
use microroute::ser::Record;

fn get_request(path: &str, query: Option<String>) -> Request {
    Request { method: Method::Get, path: path.to_string(), query, body: Vec::new() }
}

/// Many concurrent requests against the single-row and bulk handlers all
/// complete, and each response only depends on that request's own inputs.
#[test]
fn concurrent_requests_are_independent() {
    let rt = tokio::runtime::Builder::new_multi_thread()
        .worker_threads(4)
        .enable_all()
        .build()
        .unwrap();
    let router = Arc::new(benchmark_router());
    rt.block_on(async {
        let mut tasks = Vec::new();
        for i in 0u32..150 {
            let router = Arc::clone(&router);
            tasks.push(tokio::spawn(async move {
                if i % 2 == 0 {
                    let req = get_request("/db", None);
                    let world = Record { id: i, value: i + 1 };
                    let r = respond(&router, &req, Some(BackendReply::One(world)));
                    assert_eq!(r.status, 200);
                    assert_eq!(r.body, format!("{{\"id\":{},\"randomNumber\":{}}}", i, i + 1));
                } else {
                    let req = get_request("/queries", Some(format!("count={}", i)));
                    let h = router.dispatch(Method::Get, &req.path).unwrap();
                    let call = plan(h, &req);
                    let n = match call {
                        BackendCall::GetMany(n) => n,
                        other => panic!("unexpected backend call {:?}", other),
                    };
                    assert_eq!(n as u32, i.clamp(1, 500));
                    let worlds: Vec<Record> =
                        (0..n).map(|k| Record { id: k as u32, value: i }).collect();
                    let r = complete(handle(h, Some(BackendReply::Many(worlds))));
                    assert_eq!(r.status, 200);
                    let v: serde_json::Value = serde_json::from_str(&r.body).unwrap();
                    assert_eq!(v.as_array().map(|a| a.len()), Some(n as usize));
                }
            }));
        }
        for t in tasks {
            t.await.unwrap();
        }
    });
}
