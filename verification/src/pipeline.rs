use vstd::prelude::*;
use vstd::string::StringExecFns;
use crate::error::Error;
use crate::fortunes::fortunes_page_spec;
use crate::handlers::{BackendReply, Request, handle, handler_response, reply_fits};
use crate::response::Response;
use crate::router::{Handler, Method, Router};
use crate::ser::{hello_json, json_record_spec, json_records_spec};

verus! {

/// The fixed Server header value stamped on every outgoing response.
pub open spec fn server_value() -> Seq<char> {
    "microroute"@
}

/// The response for an error kind: the status the deterministic table
/// gives, no headers yet, and an empty body.
pub fn error_response(e: Error) -> (r: Response)
    ensures
        r.wf(),
        r.status == e.status_spec(),
        r.body@.len() == 0,
        r.headers@.len() == 0,
        forall|n: Seq<char>| r.header(n) is None,
{
    Response::bare(e.status(), String::new())
}

/// The outermost middleware step: catch any error surfacing from the
/// layers beneath, map it to its status code with an empty body, and
/// stamp the Server header on the response either way. Stamping is the
/// one guaranteed side effect of this layer; everything else about a
/// successful response passes through unchanged.
pub fn complete(res: Result<Response, Error>) -> (r: Response)
    requires
        res matches Ok(x) ==> x.wf(),
    ensures
        r.wf(),
        r.header("server"@) == Some(server_value()),
        match res {
            Ok(x) => r.status == x.status && r.body@ == x.body@ && (forall|n: Seq<char>|
                n != "server"@ ==> r.header(n) == x.header(n)),
            Err(e) => r.status == e.status_spec() && r.body@.len() == 0 && (forall|n: Seq<char>|
                n != "server"@ ==> r.header(n) is None),
        },
{
    let mut out = match res {
        Result::Ok(x) => x,
        Result::Err(e) => error_response(e),
    };
    out.set_header("server", "microroute");
    out
}

/// Handle one decoded request end to end: dispatch, run the handler on
/// the backend outcome the caller fetched (None where the backend call
/// failed; the caller of a handler that needs no backend passes
/// `Nothing`), map any error, stamp the Server header. Every response,
/// success or mapped error, carries the Server header.
pub fn respond(router: &Router, req: &Request, rep: Option<BackendReply>) -> (r: Response)
    requires
        match router.dispatch_spec(req.method, req.path@) {
            Ok(h) => rep matches Some(x) ==> reply_fits(h, x),
            Err(_) => true,
        },
    ensures
        r.wf(),
        r.header("server"@) == Some(server_value()),
        match router.dispatch_spec(req.method, req.path@) {
            Err(e) => r.status == e.status_spec() && r.body@.len() == 0,
            Ok(h) => match rep {
                Option::None => r.status == 500 && r.body@.len() == 0,
                Option::Some(x) => r.status == 200 && match h {
                    Handler::Plaintext => r.header("content-type"@) == Some("text/plain"@)
                        && r.body@ == "Hello, World!"@,
                    Handler::Json => r.header("content-type"@) == Some("application/json"@)
                        && r.body@ == hello_json(),
                    Handler::Db => x matches BackendReply::One(w) && r.header("content-type"@)
                        == Some("application/json"@) && r.body@ == json_record_spec(w),
                    Handler::Fortunes => x matches BackendReply::Fortunes(fs) && r.header(
                        "content-type"@,
                    ) == Some("text/html; charset=utf-8"@) && r.body@ == fortunes_page_spec(fs@),
                    Handler::Queries => x matches BackendReply::Many(ws) && r.header(
                        "content-type"@,
                    ) == Some("application/json"@) && r.body@ == json_records_spec(ws@),
                    Handler::Updates => x matches BackendReply::Many(ws) && r.header(
                        "content-type"@,
                    ) == Some("application/json"@) && r.body@ == json_records_spec(ws@),
                },
            },
        },
{
    proof {
        reveal_strlit("server");
        reveal_strlit("content-type");
        assert("content-type"@.len() == 12);
        assert("server"@.len() == 6);
        assert("content-type"@ != "server"@);
    }
    match router.dispatch(req.method, &req.path) {
        Result::Err(e) => complete(Err(e)),
        Result::Ok(h) => {
            let inner = handle(h, rep);
            let out = complete(inner);
            proof {
                if rep is Some {
                    let x = rep->Some_0;
                    let res = inner->Ok_0;
                    assert(handler_response(h, x, res));
                    assert(out.header("content-type"@) == res.header("content-type"@));
                }
            }
            out
        },
    }
}

/// The route table of the benchmarked service: the six handlers, each
/// registered once under GET and its fixed path.
pub fn benchmark_router() -> (r: Router)
    ensures
        r.wf(),
        r.registered(Method::Get, "/plaintext"@, Handler::Plaintext),
        r.registered(Method::Get, "/json"@, Handler::Json),
        r.registered(Method::Get, "/db"@, Handler::Db),
        r.registered(Method::Get, "/fortunes"@, Handler::Fortunes),
        r.registered(Method::Get, "/queries"@, Handler::Queries),
        r.registered(Method::Get, "/updates"@, Handler::Updates),
        r.routes_seq().len() == 6,
        forall|i: int| 0 <= i < 6 ==> r.routes_seq()[i].0 == Method::Get,
        r.routes_seq()[0].1@ == "/plaintext"@ && r.routes_seq()[0].2 == Handler::Plaintext,
        r.routes_seq()[1].1@ == "/json"@ && r.routes_seq()[1].2 == Handler::Json,
        r.routes_seq()[2].1@ == "/db"@ && r.routes_seq()[2].2 == Handler::Db,
        r.routes_seq()[3].1@ == "/fortunes"@ && r.routes_seq()[3].2 == Handler::Fortunes,
        r.routes_seq()[4].1@ == "/queries"@ && r.routes_seq()[4].2 == Handler::Queries,
        r.routes_seq()[5].1@ == "/updates"@ && r.routes_seq()[5].2 == Handler::Updates,
{
    proof {
        reveal_strlit("/plaintext");
        reveal_strlit("/json");
        reveal_strlit("/db");
        reveal_strlit("/fortunes");
        reveal_strlit("/queries");
        reveal_strlit("/updates");
        assert("/plaintext"@.len() == 10);
        assert("/json"@.len() == 5);
        assert("/db"@.len() == 3);
        assert("/fortunes"@.len() == 9);
        assert("/queries"@.len() == 8);
        assert("/updates"@.len() == 8);
        assert("/queries"@[1] == 'q');
        assert("/updates"@[1] == 'u');
    }
    let mut r = Router::new();
    r.register(Method::Get, String::from_str("/plaintext"), Handler::Plaintext);
    proof {
        assert(r.routes_seq()[0].1@ == "/plaintext"@);
    }
    r.register(Method::Get, String::from_str("/json"), Handler::Json);
    proof {
        assert(r.routes_seq()[0].1@ == "/plaintext"@);
        assert(r.routes_seq()[1].1@ == "/json"@);
    }
    r.register(Method::Get, String::from_str("/db"), Handler::Db);
    proof {
        assert(r.routes_seq()[0].1@ == "/plaintext"@);
        assert(r.routes_seq()[1].1@ == "/json"@);
        assert(r.routes_seq()[2].1@ == "/db"@);
    }
    r.register(Method::Get, String::from_str("/fortunes"), Handler::Fortunes);
    proof {
        assert(r.routes_seq()[0].1@ == "/plaintext"@);
        assert(r.routes_seq()[1].1@ == "/json"@);
        assert(r.routes_seq()[2].1@ == "/db"@);
        assert(r.routes_seq()[3].1@ == "/fortunes"@);
    }
    r.register(Method::Get, String::from_str("/queries"), Handler::Queries);
    proof {
        assert(r.routes_seq()[0].1@ == "/plaintext"@);
        assert(r.routes_seq()[1].1@ == "/json"@);
        assert(r.routes_seq()[2].1@ == "/db"@);
        assert(r.routes_seq()[3].1@ == "/fortunes"@);
        assert(r.routes_seq()[4].1@ == "/queries"@);
    }
    r.register(Method::Get, String::from_str("/updates"), Handler::Updates);
    proof {
        assert(r.routes_seq()[0].0 == Method::Get && r.routes_seq()[0].1@ == "/plaintext"@
            && r.routes_seq()[0].2 == Handler::Plaintext);
        assert(r.routes_seq()[1].0 == Method::Get && r.routes_seq()[1].1@ == "/json"@
            && r.routes_seq()[1].2 == Handler::Json);
        assert(r.routes_seq()[2].0 == Method::Get && r.routes_seq()[2].1@ == "/db"@
            && r.routes_seq()[2].2 == Handler::Db);
        assert(r.routes_seq()[3].0 == Method::Get && r.routes_seq()[3].1@ == "/fortunes"@
            && r.routes_seq()[3].2 == Handler::Fortunes);
        assert(r.routes_seq()[4].0 == Method::Get && r.routes_seq()[4].1@ == "/queries"@
            && r.routes_seq()[4].2 == Handler::Queries);
        assert(r.routes_seq()[5].0 == Method::Get && r.routes_seq()[5].1@ == "/updates"@
            && r.routes_seq()[5].2 == Handler::Updates);
    }
    r
}

} // verus!
