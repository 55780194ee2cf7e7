use vstd::prelude::*;
use vstd::string::StringExecFns;
use crate::error::Error;
use crate::fortunes::{Fortune, fortunes_page_spec, render_fortunes};
use crate::query::{count_of_query, lemma_count_in_range, parse_count, query_view};
use crate::response::Response;
use crate::router::{Handler, Method};
use crate::ser::{
    Message, Record, hello_json, json_message, json_record, json_record_spec, json_records,
    json_records_spec, lemma_hello_message_json,
};

verus! {

/// A decoded request: method, path, raw query string and body bytes. It
/// is exclusively owned by the one in-flight handling of that request.
pub struct Request {
    pub method: Method,
    pub path: String,
    pub query: Option<String>,
    pub body: Vec<u8>,
}

/// What a handler asks of the backend client before it can answer.
#[derive(Clone, Copy, PartialEq, Eq, Structural, Debug)]
pub enum BackendCall {
    /// No backend work.
    Nothing,
    /// Fetch one record by a server-chosen key.
    GetOne,
    /// Fetch the given number of records.
    GetMany(u16),
    /// Mutate and return the given number of records.
    UpdateMany(u16),
    /// Fetch the fortune list.
    TellFortune,
}

/// What the backend client handed back on success.
pub enum BackendReply {
    Nothing,
    One(Record),
    Many(Vec<Record>),
    Fortunes(Vec<Fortune>),
}

/// The backend call a handler makes for a request with the given query
/// string. Bulk counts are clamped into [1, 500] here and nowhere else.
pub open spec fn plan_spec(h: Handler, q: Option<Seq<char>>) -> BackendCall {
    match h {
        Handler::Plaintext => BackendCall::Nothing,
        Handler::Json => BackendCall::Nothing,
        Handler::Db => BackendCall::GetOne,
        Handler::Fortunes => BackendCall::TellFortune,
        Handler::Queries => BackendCall::GetMany(count_of_query(q) as u16),
        Handler::Updates => BackendCall::UpdateMany(count_of_query(q) as u16),
    }
}

/// The reply variant fits what the handler asked for.
pub open spec fn reply_fits(h: Handler, rep: BackendReply) -> bool {
    match h {
        Handler::Plaintext => rep is Nothing,
        Handler::Json => rep is Nothing,
        Handler::Db => rep is One,
        Handler::Fortunes => rep is Fortunes,
        Handler::Queries => rep is Many,
        Handler::Updates => rep is Many,
    }
}

/// What a successful handler run returns for a fitting reply: status 200,
/// exactly one header giving the content type, and the exact body.
pub open spec fn handler_response(h: Handler, rep: BackendReply, r: Response) -> bool {
    &&& r.wf()
    &&& r.status == 200
    &&& r.headers@.len() == 1
    &&& (forall|n: Seq<char>| n != "content-type"@ ==> r.header(n) is None)
    &&& match h {
        Handler::Plaintext => r.header("content-type"@) == Some("text/plain"@) && r.body@
            == "Hello, World!"@,
        Handler::Json => r.header("content-type"@) == Some("application/json"@) && r.body@
            == hello_json(),
        Handler::Db => rep matches BackendReply::One(w) && r.header("content-type"@) == Some(
            "application/json"@,
        ) && r.body@ == json_record_spec(w),
        Handler::Fortunes => rep matches BackendReply::Fortunes(fs) && r.header("content-type"@)
            == Some("text/html; charset=utf-8"@) && r.body@ == fortunes_page_spec(fs@),
        Handler::Queries => rep matches BackendReply::Many(ws) && r.header("content-type"@)
            == Some("application/json"@) && r.body@ == json_records_spec(ws@),
        Handler::Updates => rep matches BackendReply::Many(ws) && r.header("content-type"@)
            == Some("application/json"@) && r.body@ == json_records_spec(ws@),
    }
}

/// Decide the backend call for a dispatched handler.
pub fn plan(h: Handler, req: &Request) -> (c: BackendCall)
    ensures
        c == plan_spec(h, query_view(req.query)),
{
    proof {
        lemma_count_in_range(query_view(req.query));
    }
    match h {
        Handler::Plaintext => BackendCall::Nothing,
        Handler::Json => BackendCall::Nothing,
        Handler::Db => BackendCall::GetOne,
        Handler::Fortunes => BackendCall::TellFortune,
        Handler::Queries => BackendCall::GetMany(parse_count(&req.query)),
        Handler::Updates => BackendCall::UpdateMany(parse_count(&req.query)),
    }
}

/// The fixed short text payload.
pub fn plain_text() -> (r: Response)
    ensures
        handler_response(Handler::Plaintext, BackendReply::Nothing, r),
{
    Response::with_body(200, "text/plain", String::from_str("Hello, World!"))
}

/// The fixed structured message as JSON.
pub fn json() -> (r: Response)
    ensures
        handler_response(Handler::Json, BackendReply::Nothing, r),
{
    let m = Message::new();
    let body = json_message(&m);
    proof {
        lemma_hello_message_json(m);
    }
    Response::with_body(200, "application/json", body)
}

/// One fetched record as JSON.
pub fn db(world: &Record) -> (r: Response)
    ensures
        handler_response(Handler::Db, BackendReply::One(*world), r),
{
    Response::with_body(200, "application/json", json_record(world))
}

/// The fetched fortune list rendered as HTML.
pub fn fortunes(fs: Vec<Fortune>) -> (r: Response)
    ensures
        handler_response(Handler::Fortunes, BackendReply::Fortunes(fs), r),
{
    let body = render_fortunes(&fs);
    Response::with_body(200, "text/html; charset=utf-8", body)
}

/// A fetched record list as JSON.
pub fn queries(worlds: Vec<Record>) -> (r: Response)
    ensures
        handler_response(Handler::Queries, BackendReply::Many(worlds), r),
{
    let body = json_records(&worlds);
    Response::with_body(200, "application/json", body)
}

/// An updated record list as JSON.
pub fn updates(worlds: Vec<Record>) -> (r: Response)
    ensures
        handler_response(Handler::Updates, BackendReply::Many(worlds), r),
{
    let body = json_records(&worlds);
    Response::with_body(200, "application/json", body)
}

/// Run a dispatched handler on the backend's outcome: a missing reply
/// means the backend call failed and becomes `BackendError`; a fitting
/// reply yields the handler's exact response.
pub fn handle(h: Handler, rep: Option<BackendReply>) -> (r: Result<Response, Error>)
    requires
        rep matches Some(x) ==> reply_fits(h, x),
    ensures
        rep is None ==> r == Err::<Response, Error>(Error::BackendError),
        rep matches Some(x) ==> r matches Ok(res) && handler_response(h, x, res),
{
    match rep {
        Option::None => Err(Error::BackendError),
        Option::Some(x) => match h {
            Handler::Plaintext => Ok(plain_text()),
            Handler::Json => Ok(json()),
            Handler::Db => match x {
                BackendReply::One(w) => Ok(db(&w)),
                _ => {
                    proof {
                        assert(false);
                    }
                    Err(Error::BackendError)
                },
            },
            Handler::Fortunes => match x {
                BackendReply::Fortunes(fs) => Ok(fortunes(fs)),
                _ => {
                    proof {
                        assert(false);
                    }
                    Err(Error::BackendError)
                },
            },
            Handler::Queries => match x {
                BackendReply::Many(ws) => Ok(queries(ws)),
                _ => {
                    proof {
                        assert(false);
                    }
                    Err(Error::BackendError)
                },
            },
            Handler::Updates => match x {
                BackendReply::Many(ws) => Ok(updates(ws)),
                _ => {
                    proof {
                        assert(false);
                    }
                    Err(Error::BackendError)
                },
            },
        },
    }
}

/// The bulk-lookup handlers always work with an effective count in
/// [1, 500], whatever the query string held; the count in the backend
/// call is exactly the clamped value of the `count` parameter.
pub proof fn lemma_bulk_count_clamped(q: Option<Seq<char>>)
    ensures
        1 <= count_of_query(q) <= 500,
        plan_spec(Handler::Queries, q) == BackendCall::GetMany(count_of_query(q) as u16),
        plan_spec(Handler::Updates, q) == BackendCall::UpdateMany(count_of_query(q) as u16),
{
    lemma_count_in_range(q);
}

} // verus!
