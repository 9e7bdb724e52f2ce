//! Request routing: from method and path to a route, from a route to one
//! access of the store, and from its outcome to a response.
use vstd::prelude::*;
use crate::body::{
    health_body, health_text, metrics_body, metrics_text, value_body, value_record,
};
use crate::store::Store;
use crate::text::{chars_of, kv_marker, kv_marker_chars, matches_at, occurs_at, same_chars, strip_kv, strip_kv_text};

verus! {

/// The request methods that routing tells apart.
#[derive(Clone, Copy, PartialEq, Eq, Debug)]
pub enum Method {
    Get,
    Put,
    Other,
}

/// What a request asks for.
#[derive(Clone, Debug)]
pub enum Route {
    /// The health payload.
    Health,
    /// The metrics exposition.
    Metrics,
    /// The value of a key.
    KvGet(String),
    /// A new value for a key, taken from the request body.
    KvPut(String),
    /// A method that a key's resource does not take.
    MethodNotAllowed,
    /// A path that names no resource.
    NotFound,
}

/// A route as a mathematical value.
pub enum RouteView {
    Health,
    Metrics,
    KvGet(Seq<char>),
    KvPut(Seq<char>),
    MethodNotAllowed,
    NotFound,
}

impl View for Route {
    type V = RouteView;

    open spec fn view(&self) -> RouteView {
        match self {
            Route::Health => RouteView::Health,
            Route::Metrics => RouteView::Metrics,
            Route::KvGet(k) => RouteView::KvGet(k@),
            Route::KvPut(k) => RouteView::KvPut(k@),
            Route::MethodNotAllowed => RouteView::MethodNotAllowed,
            Route::NotFound => RouteView::NotFound,
        }
    }
}

/// The route of a request: `/health` and `/metrics` take any method; a path
/// that starts with `/kv/` names the key left after removing every `/kv/`
/// from it, read by GET and written by PUT; anything else is not found.
pub open spec fn route_of(method: Method, path: Seq<char>) -> RouteView {
    if path == "/health"@ {
        RouteView::Health
    } else if path == "/metrics"@ {
        RouteView::Metrics
    } else if occurs_at(path, kv_marker(), 0) {
        match method {
            Method::Get => RouteView::KvGet(strip_kv(path)),
            Method::Put => RouteView::KvPut(strip_kv(path)),
            Method::Other => RouteView::MethodNotAllowed,
        }
    } else {
        RouteView::NotFound
    }
}

/// The route of a request with `method` on `path`.
pub fn route(method: Method, path: &str) -> (r: Route)
    ensures
        r@ == route_of(method, path@),
{
    let p = chars_of(path);
    if same_chars(&p, &chars_of("/health")) {
        Route::Health
    } else if same_chars(&p, &chars_of("/metrics")) {
        Route::Metrics
    } else {
        if matches_at(&p, &kv_marker_chars(), 0) {
            let key = strip_kv_text(path);
            match method {
                Method::Get => Route::KvGet(key),
                Method::Put => Route::KvPut(key),
                Method::Other => Route::MethodNotAllowed,
            }
        } else {
            Route::NotFound
        }
    }
}

impl Route {
    /// Whether the route takes its value from the request body.
    pub fn reads_body(&self) -> (r: bool)
        ensures
            r == (self@ is KvPut),
    {
        match self {
            Route::KvPut(_) => true,
            _ => false,
        }
    }
}


/// What one access of the store found or did.
#[derive(Clone, Debug)]
pub enum Outcome {
    /// The number of keys, for the health payload.
    Health(usize),
    /// The number of keys, for the metrics exposition.
    Metrics(usize),
    /// The value of the key asked for.
    Found(String),
    /// The key asked for has no value.
    Missing,
    /// The value was stored.
    Stored,
    /// The body held no value to store.
    Rejected,
    /// The method is not taken.
    MethodNotAllowed,
    /// The path names nothing.
    NotFound,
}

/// An outcome as a mathematical value.
pub enum OutcomeView {
    Health(nat),
    Metrics(nat),
    Found(Seq<char>),
    Missing,
    Stored,
    Rejected,
    MethodNotAllowed,
    NotFound,
}

impl View for Outcome {
    type V = OutcomeView;

    open spec fn view(&self) -> OutcomeView {
        match self {
            Outcome::Health(n) => OutcomeView::Health(*n as nat),
            Outcome::Metrics(n) => OutcomeView::Metrics(*n as nat),
            Outcome::Found(v) => OutcomeView::Found(v@),
            Outcome::Missing => OutcomeView::Missing,
            Outcome::Stored => OutcomeView::Stored,
            Outcome::Rejected => OutcomeView::Rejected,
            Outcome::MethodNotAllowed => OutcomeView::MethodNotAllowed,
            Outcome::NotFound => OutcomeView::NotFound,
        }
    }
}

/// An optional text as an optional sequence of characters.
pub open spec fn text_opt(v: Option<String>) -> Option<Seq<char>> {
    match v {
        Some(s) => Some(s@),
        None => None,
    }
}

/// The contents after one access for `route`, and what it gives; `value` is
/// what the request body decoded to, if it held a value.
pub open spec fn access_of(m: Map<Seq<char>, Seq<char>>, route: RouteView, value: Option<
    Seq<char>,
>) -> (Map<Seq<char>, Seq<char>>, OutcomeView) {
    match route {
        RouteView::Health => (m, OutcomeView::Health(m.len())),
        RouteView::Metrics => (m, OutcomeView::Metrics(m.len())),
        RouteView::KvGet(k) => if m.contains_key(k) {
            (m, OutcomeView::Found(m[k]))
        } else {
            (m, OutcomeView::Missing)
        },
        RouteView::KvPut(k) => match value {
            Some(v) => (m.insert(k, v), OutcomeView::Stored),
            None => (m, OutcomeView::Rejected),
        },
        RouteView::MethodNotAllowed => (m, OutcomeView::MethodNotAllowed),
        RouteView::NotFound => (m, OutcomeView::NotFound),
    }
}

impl Store {
    /// Performs the one store access that `route` needs: a count, a read or
    /// a write of `value`, or none. This is the only part of handling a
    /// request that touches the store.
    pub fn apply(&mut self, route: Route, value: Option<String>) -> (o: Outcome)
        requires
            old(self).wf(),
        ensures
            final(self).wf(),
            (final(self)@, o@) == access_of(old(self)@, route@, text_opt(value)),
    {
        match route {
            Route::Health => Outcome::Health(self.size()),
            Route::Metrics => Outcome::Metrics(self.size()),
            Route::KvGet(k) => match self.get(&k) {
                Some(v) => Outcome::Found(v),
                None => Outcome::Missing,
            },
            Route::KvPut(k) => match value {
                Some(v) => {
                    self.put(k, v);
                    Outcome::Stored
                },
                None => Outcome::Rejected,
            },
            Route::MethodNotAllowed => Outcome::MethodNotAllowed,
            Route::NotFound => Outcome::NotFound,
        }
    }
}

/// A response: a status code and a body.
#[derive(Clone, Debug)]
pub struct Response {
    pub status: u16,
    pub body: String,
}

impl View for Response {
    type V = (u16, Seq<char>);

    open spec fn view(&self) -> (u16, Seq<char>) {
        (self.status, self.body@)
    }
}

/// The response to an outcome, with the uptime in seconds at that moment.
pub open spec fn response_of(o: OutcomeView, uptime: nat) -> (u16, Seq<char>) {
    match o {
        OutcomeView::Health(n) => (200, health_text(uptime, n)),
        OutcomeView::Metrics(n) => (200, metrics_text(uptime, n)),
        OutcomeView::Found(v) => (200, value_record(v)),
        OutcomeView::Missing => (404, "Key was not found"@),
        OutcomeView::Stored => (200, "OK"@),
        OutcomeView::Rejected => (400, "JSON Failed to validate"@),
        OutcomeView::MethodNotAllowed => (405, "Method not allowed!"@),
        OutcomeView::NotFound => (404, "Not found!"@),
    }
}


/// The response to `outcome`, given the uptime in seconds.
pub fn respond(outcome: Outcome, uptime: u64) -> (r: Response)
    ensures
        r@ == response_of(outcome@, uptime as nat),
{
    match outcome {
        Outcome::Health(n) => Response { status: 200, body: health_body(uptime, n) },
        Outcome::Metrics(n) => Response { status: 200, body: metrics_body(uptime, n) },
        Outcome::Found(v) => Response { status: 200, body: value_body(v.as_str()) },
        Outcome::Missing => Response { status: 404, body: String::from_str("Key was not found") },
        Outcome::Stored => Response { status: 200, body: String::from_str("OK") },
        Outcome::Rejected => Response {
            status: 400,
            body: String::from_str("JSON Failed to validate"),
        },
        Outcome::MethodNotAllowed => Response {
            status: 405,
            body: String::from_str("Method not allowed!"),
        },
        Outcome::NotFound => Response { status: 404, body: String::from_str("Not found!") },
    }
}

/// The contents after a request, and its response: `uptime` is the uptime in
/// seconds, `value` what the request body decoded to if it held a value.
pub open spec fn handle_of(
    m: Map<Seq<char>, Seq<char>>,
    uptime: nat,
    method: Method,
    path: Seq<char>,
    value: Option<Seq<char>>,
) -> (Map<Seq<char>, Seq<char>>, (u16, Seq<char>)) {
    match route_of(method, path) {
        RouteView::Health => (m, (200, health_text(uptime, m.len()))),
        RouteView::Metrics => (m, (200, metrics_text(uptime, m.len()))),
        RouteView::KvGet(k) => if m.contains_key(k) {
            (m, (200, value_record(m[k])))
        } else {
            (m, (404, "Key was not found"@))
        },
        RouteView::KvPut(k) => match value {
            Some(v) => (m.insert(k, v), (200, "OK"@)),
            None => (m, (400, "JSON Failed to validate"@)),
        },
        RouteView::MethodNotAllowed => (m, (405, "Method not allowed!"@)),
        RouteView::NotFound => (m, (404, "Not found!"@)),
    }
}

/// Handles one request against `store`: routes it, makes its one access of
/// the store, and builds the response.
pub fn handle(store: &mut Store, uptime: u64, method: Method, path: &str, value: Option<String>) -> (r:
    Response)
    requires
        old(store).wf(),
    ensures
        final(store).wf(),
        (final(store)@, r@) == handle_of(old(store)@, uptime as nat, method, path@, text_opt(value)),
{
    let rt = route(method, path);
    let outcome = store.apply(rt, value);
    respond(outcome, uptime)
}

} // verus!
