use shard::body::{frame_value, health_body, metrics_body, value_body};
use shard::text::{decimal_text, strip_kv_text};
use shard::{handle, respond, route, Method, Outcome, Response, Route, Store, UptimeTracker};

fn call(store: &mut Store, method: Method, path: &str, value: Option<&str>) -> Response {
    handle(store, 0, method, path, value.map(|v| v.to_string()))
}

fn check(r: &Response, status: u16, body: &str) {
    assert_eq!(r.status, status);
    assert_eq!(r.body, body);
}

#[test]
fn example_color_session() {
    let mut s = Store::new();
    check(&call(&mut s, Method::Put, "/kv/color", Some("red")), 200, "OK");
    check(&call(&mut s, Method::Get, "/kv/color", None), 200, "{\"value\":\"red\"}");
    check(&call(&mut s, Method::Get, "/kv/missing", None), 404, "Key was not found");
}

#[test]
fn put_then_get_returns_value() {
    let mut s = Store::new();
    check(&call(&mut s, Method::Put, "/kv/name", Some("shard")), 200, "OK");
    check(&call(&mut s, Method::Get, "/kv/name", None), 200, "{\"value\":\"shard\"}");
}

#[test]
fn get_before_put_is_not_found() {
    let mut s = Store::new();
    check(&call(&mut s, Method::Get, "/kv/k", None), 404, "Key was not found");
    assert_eq!(s.size(), 0);
}

#[test]
fn rejected_put_keeps_prior_value() {
    let mut s = Store::new();
    call(&mut s, Method::Put, "/kv/k", Some("v1"));
    check(&call(&mut s, Method::Put, "/kv/k", None), 400, "JSON Failed to validate");
    check(&call(&mut s, Method::Get, "/kv/k", None), 200, "{\"value\":\"v1\"}");
    assert_eq!(s.size(), 1);
}

#[test]
fn rejected_put_on_new_key_stores_nothing() {
    let mut s = Store::new();
    check(&call(&mut s, Method::Put, "/kv/k", None), 400, "JSON Failed to validate");
    check(&call(&mut s, Method::Get, "/kv/k", None), 404, "Key was not found");
}

#[test]
fn second_put_overwrites() {
    let mut s = Store::new();
    call(&mut s, Method::Put, "/kv/k", Some("v1"));
    call(&mut s, Method::Put, "/kv/k", Some("v2"));
    check(&call(&mut s, Method::Get, "/kv/k", None), 200, "{\"value\":\"v2\"}");
}

#[test]
fn health_counts_distinct_keys() {
    let mut s = Store::new();
    call(&mut s, Method::Put, "/kv/a", Some("1"));
    call(&mut s, Method::Put, "/kv/b", Some("2"));
    call(&mut s, Method::Put, "/kv/a", Some("3"));
    let r = handle(&mut s, 7, Method::Get, "/health", None);
    check(
        &r,
        200,
        "{\"status\":\"ok\",\"service\":\"shard\",\"version\":\"0.1.0\",\"uptime_seconds\":7,\"keys\":2}",
    );
}

#[test]
fn health_takes_any_method() {
    let mut s = Store::new();
    let r = handle(&mut s, 0, Method::Other, "/health", None);
    check(
        &r,
        200,
        "{\"status\":\"ok\",\"service\":\"shard\",\"version\":\"0.1.0\",\"uptime_seconds\":0,\"keys\":0}",
    );
    let r = handle(&mut s, 3, Method::Put, "/metrics", Some("x".to_string()));
    check(&r, 200, "shard_uptime_seconds 3\nshard_keys 0\n");
    assert_eq!(s.size(), 0);
}

#[test]
fn metrics_match_health() {
    let mut s = Store::new();
    call(&mut s, Method::Put, "/kv/a", Some("1"));
    call(&mut s, Method::Put, "/kv/b", Some("2"));
    call(&mut s, Method::Put, "/kv/c", Some("3"));
    let h = handle(&mut s, 42, Method::Get, "/health", None);
    let m = handle(&mut s, 42, Method::Get, "/metrics", None);
    check(
        &h,
        200,
        "{\"status\":\"ok\",\"service\":\"shard\",\"version\":\"0.1.0\",\"uptime_seconds\":42,\"keys\":3}",
    );
    check(&m, 200, "shard_uptime_seconds 42\nshard_keys 3\n");
}

#[test]
fn distinct_keys_are_independent() {
    let mut s = Store::new();
    call(&mut s, Method::Put, "/kv/x", Some("1"));
    call(&mut s, Method::Put, "/kv/y", Some("2"));
    check(&call(&mut s, Method::Get, "/kv/x", None), 200, "{\"value\":\"1\"}");
    check(&call(&mut s, Method::Get, "/kv/y", None), 200, "{\"value\":\"2\"}");
}

#[test]
fn other_method_on_kv_is_not_allowed() {
    let mut s = Store::new();
    call(&mut s, Method::Put, "/kv/k", Some("v"));
    check(&call(&mut s, Method::Other, "/kv/k", None), 405, "Method not allowed!");
    check(&call(&mut s, Method::Other, "/kv/new", Some("v")), 405, "Method not allowed!");
    assert_eq!(s.size(), 1);
}

#[test]
fn unknown_paths_are_not_found() {
    let mut s = Store::new();
    for path in ["/", "", "/kv", "/health/", "/metricsx", "/other/kv/a", "kv/a"] {
        check(&call(&mut s, Method::Get, path, None), 404, "Not found!");
        check(&call(&mut s, Method::Put, path, Some("v")), 404, "Not found!");
        check(&call(&mut s, Method::Other, path, None), 404, "Not found!");
    }
    assert_eq!(s.size(), 0);
}

#[test]
fn key_strips_every_kv_occurrence() {
    let mut s = Store::new();
    call(&mut s, Method::Put, "/kv/a/kv/b", Some("v"));
    check(&call(&mut s, Method::Get, "/kv/ab", None), 200, "{\"value\":\"v\"}");
    assert_eq!(strip_kv_text("/kv/kv/x"), "kv/x");
    assert_eq!(strip_kv_text("/kv/x/kv/"), "x");
    assert_eq!(strip_kv_text("/kv/"), "");
    assert_eq!(strip_kv_text("/kv/über/kv/ß"), "überß");
}

#[test]
fn empty_key_and_empty_value() {
    let mut s = Store::new();
    check(&call(&mut s, Method::Put, "/kv/", Some("")), 200, "OK");
    check(&call(&mut s, Method::Get, "/kv/", None), 200, "{\"value\":\"\"}");
}

#[test]
fn value_is_json_escaped() {
    let mut s = Store::new();
    call(&mut s, Method::Put, "/kv/q", Some("a\"b\\c\nd"));
    check(&call(&mut s, Method::Get, "/kv/q", None), 200, "{\"value\":\"a\\\"b\\\\c\\nd\"}");
    assert_eq!(value_body("red"), "{\"value\":\"red\"}");
    assert_eq!(frame_value("\"x\""), "{\"value\":\"x\"}");
}

#[test]
fn staged_handling_matches_handle() {
    let mut s = Store::new();
    let r = route(Method::Put, "/kv/color");
    assert!(r.reads_body());
    assert!(matches!(&r, Route::KvPut(k) if k == "color"));
    let o = s.apply(r, Some("red".to_string()));
    assert!(matches!(o, Outcome::Stored));
    let r = route(Method::Get, "/kv/color");
    assert!(!r.reads_body());
    let o = s.apply(r, None);
    check(&respond(o, 0), 200, "{\"value\":\"red\"}");
    let r = route(Method::Get, "/metrics");
    let o = s.apply(r, None);
    check(&respond(o, 5), 200, "shard_uptime_seconds 5\nshard_keys 1\n");
}

#[test]
fn routes_by_method_and_path() {
    assert!(matches!(route(Method::Get, "/health"), Route::Health));
    assert!(matches!(route(Method::Other, "/metrics"), Route::Metrics));
    assert!(matches!(route(Method::Get, "/kv/a"), Route::KvGet(k) if k == "a"));
    assert!(matches!(route(Method::Other, "/kv/a"), Route::MethodNotAllowed));
    assert!(matches!(route(Method::Put, "/nope"), Route::NotFound));
}

#[test]
fn store_put_get_size() {
    let mut s = Store::new();
    assert_eq!(s.get(&"k".to_string()), None);
    s.put("k".to_string(), "v".to_string());
    s.put("j".to_string(), "w".to_string());
    s.put("k".to_string(), "u".to_string());
    assert_eq!(s.get(&"k".to_string()), Some("u".to_string()));
    assert_eq!(s.get(&"j".to_string()), Some("w".to_string()));
    assert_eq!(s.size(), 2);
}

#[test]
fn decimal_rendering() {
    assert_eq!(decimal_text(0), "0");
    assert_eq!(decimal_text(9), "9");
    assert_eq!(decimal_text(10), "10");
    assert_eq!(decimal_text(1234567890), "1234567890");
    assert_eq!(decimal_text(u64::MAX), "18446744073709551615");
}

#[test]
fn body_texts() {
    assert_eq!(
        health_body(0, 0),
        "{\"status\":\"ok\",\"service\":\"shard\",\"version\":\"0.1.0\",\"uptime_seconds\":0,\"keys\":0}"
    );
    assert_eq!(metrics_body(100, 25), "shard_uptime_seconds 100\nshard_keys 25\n");
}

#[test]
fn uptime_floors_and_never_decreases() {
    let t = UptimeTracker::new(1_000);
    assert_eq!(t.elapsed_seconds(1_000), 0);
    assert_eq!(t.elapsed_seconds(1_000_000_999), 0);
    assert_eq!(t.elapsed_seconds(1_000_001_000), 1);
    assert_eq!(t.elapsed_seconds(5_500_000_000), 5);
    assert_eq!(t.elapsed_seconds(10), 0);
    let mut last = 0;
    for now in [1_000u64, 2_000_000_000, 2_000_000_001, 3_999_999_999, 9_000_000_000] {
        let e = t.elapsed_seconds(now);
        assert!(e >= last);
        last = e;
    }
}
