//! Laws of request handling, stated over `handle_of`, the exact model of
//! `router::handle`.
use vstd::prelude::*;
use crate::body::{health_text, metrics_text, value_record};
use crate::router::{handle_of, route_of, Method, RouteView};
use crate::text::{kv_marker, occurs_at, strip_kv};

verus! {

/// The path `/kv/<key>`.
pub open spec fn kv_path(key: Seq<char>) -> Seq<char> {
    kv_marker() + key
}

/// A path `/kv/<key>` is routed by its method to the key `strip_kv(key)`.
pub proof fn lemma_kv_path_route(method: Method, key: Seq<char>)
    ensures
        route_of(method, kv_path(key)) == match method {
            Method::Get => RouteView::KvGet(strip_kv(key)),
            Method::Put => RouteView::KvPut(strip_kv(key)),
            Method::Other => RouteView::MethodNotAllowed,
        },
{
    let p = kv_path(key);
    reveal_strlit("/health");
    reveal_strlit("/metrics");
    assert(p[1] == 'k');
    assert("/health"@[1] == 'h');
    assert("/metrics"@[1] == 'm');
    assert(p.subrange(0, 4) == kv_marker());
    assert(p.skip(4) == key);
}

/// A PUT of `v` to `/kv/<key>` answers `OK`, and a GET of the same path then
/// answers 200 with the record of `v`, leaving the contents as they were.
pub proof fn law_put_then_get(
    m: Map<Seq<char>, Seq<char>>,
    up1: nat,
    up2: nat,
    key: Seq<char>,
    v: Seq<char>,
)
    ensures
        ({
            let (m1, r1) = handle_of(m, up1, Method::Put, kv_path(key), Some(v));
            let (m2, r2) = handle_of(m1, up2, Method::Get, kv_path(key), None);
            &&& r1 == (200u16, "OK"@)
            &&& r2 == (200u16, value_record(v))
            &&& m2 == m1
        }),
{
    lemma_kv_path_route(Method::Put, key);
    lemma_kv_path_route(Method::Get, key);
}

/// A GET of `/kv/<key>` whose key has never been written answers 404 with
/// `Key was not found`, and changes nothing.
pub proof fn law_get_unwritten(
    m: Map<Seq<char>, Seq<char>>,
    up: nat,
    key: Seq<char>,
    value: Option<Seq<char>>,
)
    requires
        !m.contains_key(strip_kv(key)),
    ensures
        handle_of(m, up, Method::Get, kv_path(key), value) == (m, (404u16, "Key was not found"@)),
{
    lemma_kv_path_route(Method::Get, key);
}

/// A PUT whose body held no value answers 400 with `JSON Failed to validate`
/// and leaves the contents, the key's earlier value included, unchanged.
pub proof fn law_rejected_put(m: Map<Seq<char>, Seq<char>>, up: nat, key: Seq<char>)
    ensures
        handle_of(m, up, Method::Put, kv_path(key), None) == (
            m,
            (400u16, "JSON Failed to validate"@),
        ),
{
    lemma_kv_path_route(Method::Put, key);
}

/// A second PUT overwrites the first: a GET afterwards answers with the
/// record of the second value.
pub proof fn law_overwrite(
    m: Map<Seq<char>, Seq<char>>,
    up: nat,
    key: Seq<char>,
    v1: Seq<char>,
    v2: Seq<char>,
)
    ensures
        ({
            let (m1, _r1) = handle_of(m, up, Method::Put, kv_path(key), Some(v1));
            let (m2, _r2) = handle_of(m1, up, Method::Put, kv_path(key), Some(v2));
            let (m3, r3) = handle_of(m2, up, Method::Get, kv_path(key), None);
            &&& m2[strip_kv(key)] == v2
            &&& r3 == (200u16, value_record(v2))
        }),
{
    lemma_kv_path_route(Method::Put, key);
    lemma_kv_path_route(Method::Get, key);
}

/// The contents after PUTs of `puts` (pairs of a key and a value), in order,
/// each to `/kv/<key>`, starting from `m`.
pub open spec fn after_puts(
    m: Map<Seq<char>, Seq<char>>,
    puts: Seq<(Seq<char>, Seq<char>)>,
) -> Map<Seq<char>, Seq<char>>
    decreases puts.len(),
{
    if puts.len() == 0 {
        m
    } else {
        handle_of(
            after_puts(m, puts.drop_last()),
            0,
            Method::Put,
            kv_path(puts.last().0),
            Some(puts.last().1),
        ).0
    }
}

/// The distinct keys that `puts` write.
pub open spec fn put_keys(puts: Seq<(Seq<char>, Seq<char>)>) -> Set<Seq<char>>
    decreases puts.len(),
{
    if puts.len() == 0 {
        Set::empty()
    } else {
        put_keys(puts.drop_last()).insert(strip_kv(puts.last().0))
    }
}

proof fn lemma_after_puts_keys(puts: Seq<(Seq<char>, Seq<char>)>)
    ensures
        after_puts(Map::empty(), puts).dom() == put_keys(puts),
        put_keys(puts).finite(),
    decreases puts.len(),
{
    if puts.len() > 0 {
        lemma_after_puts_keys(puts.drop_last());
        lemma_kv_path_route(Method::Put, puts.last().0);
    }
}

/// From an empty store, after any PUTs, the health payload counts each
/// distinct key written once, however often it was written.
pub proof fn law_health_counts_keys(
    puts: Seq<(Seq<char>, Seq<char>)>,
    up: nat,
    method: Method,
    value: Option<Seq<char>>,
)
    ensures
        ({
            let m = after_puts(Map::empty(), puts);
            &&& m.len() == put_keys(puts).len()
            &&& handle_of(m, up, method, "/health"@, value) == (
                m,
                (200u16, health_text(up, put_keys(puts).len())),
            )
        }),
{
    lemma_after_puts_keys(puts);
}

/// At one moment, the metrics exposition shows the same uptime and key
/// count as the health payload: both are read from the live store.
pub proof fn law_metrics_match_health(
    m: Map<Seq<char>, Seq<char>>,
    up: nat,
    method1: Method,
    method2: Method,
    value1: Option<Seq<char>>,
    value2: Option<Seq<char>>,
)
    ensures
        handle_of(m, up, method1, "/health"@, value1) == (m, (200u16, health_text(up, m.len()))),
        handle_of(m, up, method2, "/metrics"@, value2) == (
            m,
            (200u16, metrics_text(up, m.len())),
        ),
{
    reveal_strlit("/health");
    reveal_strlit("/metrics");
    assert("/metrics"@ != "/health"@) by {
        assert("/metrics"@[1] != "/health"@[1]);
    }
}

/// PUTs to two different keys both stand: each key is then read back with
/// its own value.
pub proof fn law_distinct_keys(
    m: Map<Seq<char>, Seq<char>>,
    up: nat,
    k1: Seq<char>,
    k2: Seq<char>,
    v1: Seq<char>,
    v2: Seq<char>,
)
    requires
        strip_kv(k1) != strip_kv(k2),
    ensures
        ({
            let (m1, r1) = handle_of(m, up, Method::Put, kv_path(k1), Some(v1));
            let (m2, r2) = handle_of(m1, up, Method::Put, kv_path(k2), Some(v2));
            &&& r1 == (200u16, "OK"@)
            &&& r2 == (200u16, "OK"@)
            &&& handle_of(m2, up, Method::Get, kv_path(k1), None).1 == (200u16, value_record(v1))
            &&& handle_of(m2, up, Method::Get, kv_path(k2), None).1 == (200u16, value_record(v2))
        }),
{
    lemma_kv_path_route(Method::Put, k1);
    lemma_kv_path_route(Method::Put, k2);
    lemma_kv_path_route(Method::Get, k1);
    lemma_kv_path_route(Method::Get, k2);
}

/// A method other than GET and PUT on `/kv/<key>` answers 405 with
/// `Method not allowed!` and changes nothing.
pub proof fn law_kv_other_method(
    m: Map<Seq<char>, Seq<char>>,
    up: nat,
    key: Seq<char>,
    value: Option<Seq<char>>,
)
    ensures
        handle_of(m, up, Method::Other, kv_path(key), value) == (
            m,
            (405u16, "Method not allowed!"@),
        ),
{
    lemma_kv_path_route(Method::Other, key);
}

/// A path that is neither `/health` nor `/metrics` and does not start with
/// `/kv/` answers 404 with `Not found!`, whatever the method, and changes
/// nothing.
pub proof fn law_unknown_path(
    m: Map<Seq<char>, Seq<char>>,
    up: nat,
    method: Method,
    path: Seq<char>,
    value: Option<Seq<char>>,
)
    requires
        path != "/health"@,
        path != "/metrics"@,
        !occurs_at(path, kv_marker(), 0),
    ensures
        handle_of(m, up, method, path, value) == (m, (404u16, "Not found!"@)),
{
}

} // verus!
