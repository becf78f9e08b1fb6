//! The HTTP front door: routing by method and path, and response plans
//! that always carry the CORS headers.
//!
//! A `ResponsePlan` is a complete description of an HTTP response — status
//! code, headers, body — as plain values.  The embedding program turns a
//! plan into a real response without adding or dropping anything.

use crate::errors::ComputeError;
use crate::errors::error_body;
use crate::errors::spec_error_body;
use crate::errors::spec_status_code;
use crate::errors::status_code;
use vstd::prelude::*;
use vstd::string::*;

verus! {

/// The request methods the front door distinguishes.  Every method other
/// than the three routed ones behaves alike, so they collapse into `Other`.
#[derive(PartialEq, Eq, Structural, Clone, Copy, Debug)]
pub enum HttpMethod {
    Get,
    Post,
    Options,
    Other,
}

/// The routing outcome for a request line.
#[derive(PartialEq, Eq, Structural, Clone, Copy, Debug)]
pub enum Route {
    /// `OPTIONS /compute`: the CORS preflight.
    CorsPreflight,
    /// `GET /`: the usage instructions.
    Usage,
    /// `POST /compute`: the one business endpoint.
    Compute,
    /// Anything else.
    NotFound,
}

/// The routing table: method and path decide the route, nothing else.
pub open spec fn spec_route(m: HttpMethod, path: Seq<char>) -> Route {
    if m == HttpMethod::Options && path == "/compute"@ {
        Route::CorsPreflight
    } else if m == HttpMethod::Get && path == "/"@ {
        Route::Usage
    } else if m == HttpMethod::Post && path == "/compute"@ {
        Route::Compute
    } else {
        Route::NotFound
    }
}

/// String equality, decided character by character.
pub fn str_eq(a: &str, b: &str) -> (r: bool)
    ensures
        r == (a@ == b@),
{
    let a_len: usize = a.unicode_len();
    let b_len: usize = b.unicode_len();
    if a_len != b_len {
        return false;
    }
    let mut i: usize = 0;
    while i < a_len
        invariant
            a_len == a@.len(),
            b_len == b@.len(),
            a_len == b_len,
            i <= a_len,
            forall|j: int| 0 <= j < i ==> a@[j] == b@[j],
        decreases a_len - i,
    {
        let ca = a.get_char(i);
        let cb = b.get_char(i);
        if ca != cb {
            return false;
        }
        i = i + 1;
    }
    proof {
        assert(a@ =~= b@);
    }
    true
}

/// Routes a request by its method and path.
pub fn route(m: HttpMethod, path: &str) -> (r: Route)
    ensures
        r == spec_route(m, path@),
{
    if m == HttpMethod::Options && str_eq(path, "/compute") {
        Route::CorsPreflight
    } else if m == HttpMethod::Get && str_eq(path, "/") {
        Route::Usage
    } else if m == HttpMethod::Post && str_eq(path, "/compute") {
        Route::Compute
    } else {
        Route::NotFound
    }
}

/// A complete description of an HTTP response as plain values.
pub struct ResponsePlan {
    pub status: u16,
    pub headers: Vec<(String, String)>,
    pub body: String,
}

/// True when the header list is exactly the three CORS headers that every
/// response of this service must carry, in order.
pub open spec fn cors_ok(h: Seq<(String, String)>) -> bool {
    &&& h.len() == 3
    &&& h[0].0@ == "Access-Control-Allow-Origin"@
    &&& h[0].1@ == "*"@
    &&& h[1].0@ == "Access-Control-Allow-Methods"@
    &&& h[1].1@ == "GET, POST, OPTIONS"@
    &&& h[2].0@ == "Access-Control-Allow-Headers"@
    &&& h[2].1@ == "api,Keep-Alive,User-Agent,Content-Type"@
}

/// True when a plan carries the CORS headers.  Every constructor in this
/// module establishes it, so no code path can produce a response without
/// them.
pub open spec fn plan_wf(p: ResponsePlan) -> bool {
    cors_ok(p.headers@)
}

/// Builds the three CORS headers.
pub fn cors_headers() -> (r: Vec<(String, String)>)
    ensures
        cors_ok(r@),
{
    let mut v: Vec<(String, String)> = Vec::new();
    v.push((String::from_str("Access-Control-Allow-Origin"), String::from_str("*")));
    v.push((String::from_str("Access-Control-Allow-Methods"), String::from_str("GET, POST, OPTIONS")));
    v.push((
        String::from_str("Access-Control-Allow-Headers"),
        String::from_str("api,Keep-Alive,User-Agent,Content-Type"),
    ));
    v
}

/// Builds a response plan with the given status and body and the CORS
/// headers attached.
pub fn response_build(status: u16, body: &str) -> (r: ResponsePlan)
    ensures
        r.status == status,
        r.body@ == body@,
        plan_wf(r),
{
    ResponsePlan { status, headers: cors_headers(), body: body.to_owned() }
}

/// The empty body.
pub open spec fn spec_empty_body() -> Seq<char> {
    Seq::<char>::empty()
}

/// The plaintext usage instructions served at the root path.
pub open spec fn spec_usage_text() -> Seq<char> {
    "Try POSTing data to /compute such as: `curl localhost:8002/compute -XPOST -d '...'`"@
}

/// True when `sub` occurs in `s` starting at position `i`.
pub open spec fn spec_occurs_at(s: Seq<char>, sub: Seq<char>, i: int) -> bool {
    0 <= i && i + sub.len() <= s.len() && s.subrange(i, i + sub.len() as int) == sub
}

/// Law: the usage instructions mention the compute endpoint — the body
/// served at the root path contains the word "compute".
pub proof fn lemma_usage_mentions_compute()
    ensures
        exists|i: int| #[trigger] spec_occurs_at(spec_usage_text(), "compute"@, i),
{
    reveal_strlit("Try POSTing data to /compute such as: `curl localhost:8002/compute -XPOST -d '...'`");
    reveal_strlit("compute");
    assert(spec_usage_text().subrange(21, 28) =~= "compute"@);
    assert(spec_occurs_at(spec_usage_text(), "compute"@, 21));
}

/// The response to the CORS preflight: 200 with an empty body.
pub fn preflight_response() -> (r: ResponsePlan)
    ensures
        r.status == 200,
        r.body@ == spec_empty_body(),
        plan_wf(r),
{
    let r = response_build(200, "");
    proof {
        reveal_strlit("");
        assert(""@ =~= spec_empty_body());
    }
    r
}

/// The response to `GET /`: 200 with the usage instructions.
pub fn usage_response() -> (r: ResponsePlan)
    ensures
        r.status == 200,
        r.body@ == spec_usage_text(),
        plan_wf(r),
{
    response_build(
        200,
        "Try POSTing data to /compute such as: `curl localhost:8002/compute -XPOST -d '...'`",
    )
}

/// The response to any undefined route: 404 with an empty body.
pub fn not_found_response() -> (r: ResponsePlan)
    ensures
        r.status == 404,
        r.body@ == spec_empty_body(),
        plan_wf(r),
{
    let r = response_build(404, "");
    proof {
        reveal_strlit("");
        assert(""@ =~= spec_empty_body());
    }
    r
}

/// The response to a failed compute request: the failure kind's status
/// code and its serialized error envelope.
pub fn error_response(e: &ComputeError) -> (r: ResponsePlan)
    ensures
        r.status == spec_status_code(*e),
        r.body@ == spec_error_body(*e),
        plan_wf(r),
{
    let body = error_body(e);
    response_build(status_code(e), body.as_str())
}

/// The response to a successful compute request: 200 with the serialized
/// order as the body.
pub fn ok_response(body: &str) -> (r: ResponsePlan)
    ensures
        r.status == 200,
        r.body@ == body@,
        plan_wf(r),
{
    response_build(200, body)
}

/// The response for every route that needs no computation; `None` exactly
/// for the compute endpoint, whose response depends on the compute
/// outcome.
pub fn simple_response(r: Route) -> (p: Option<ResponsePlan>)
    ensures
        r == Route::CorsPreflight ==> (p matches Some(pl) && pl.status == 200 && pl.body@
            == spec_empty_body() && plan_wf(pl)),
        r == Route::Usage ==> (p matches Some(pl) && pl.status == 200 && pl.body@
            == spec_usage_text() && plan_wf(pl)),
        r == Route::NotFound ==> (p matches Some(pl) && pl.status == 404 && pl.body@
            == spec_empty_body() && plan_wf(pl)),
        r == Route::Compute ==> p is None,
{
    match r {
        Route::CorsPreflight => Some(preflight_response()),
        Route::Usage => Some(usage_response()),
        Route::NotFound => Some(not_found_response()),
        Route::Compute => None,
    }
}

/// Maps a compute outcome to its response: the serialized order with 200
/// on success, the failure kind's status and envelope otherwise.
pub fn compute_response(outcome: &Result<String, ComputeError>) -> (r: ResponsePlan)
    ensures
        outcome matches Ok(body) ==> r.status == 200 && r.body@ == body@,
        outcome matches Err(e) ==> r.status == spec_status_code(*e) && r.body@
            == spec_error_body(*e),
        plan_wf(r),
{
    match outcome {
        Ok(body) => ok_response(body.as_str()),
        Err(e) => error_response(e),
    }
}

} // verus!
