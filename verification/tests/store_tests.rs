//! Tests of the type-keyed store: bind, get, rebind, and misses.

use typemap::TypeMap;

#[test]
fn bind_get_round_trip_u32() {
    let mut tm = TypeMap::new();
    tm.bind(5u32);
    assert_eq!(tm.get::<u32>(), Some(&5u32));
}

#[test]
fn bind_get_round_trip_u64() {
    let mut tm = TypeMap::new();
    tm.bind(77u64);
    assert_eq!(tm.get::<u64>(), Some(&77u64));
}

#[test]
fn bind_get_round_trip_i64() {
    let mut tm = TypeMap::new();
    tm.bind(-13i64);
    assert_eq!(tm.get::<i64>(), Some(&-13i64));
}

#[test]
fn bind_get_round_trip_bool() {
    let mut tm = TypeMap::new();
    tm.bind(true);
    assert_eq!(tm.get::<bool>(), Some(&true));
}

#[test]
fn bind_get_round_trip_string() {
    let mut tm = TypeMap::new();
    tm.bind(String::from("hello"));
    assert_eq!(tm.get::<String>(), Some(&String::from("hello")));
}

#[test]
fn distinct_types_do_not_collide() {
    let mut tm = TypeMap::new();
    tm.bind(1u32);
    tm.bind(2u64);
    tm.bind(-3i64);
    tm.bind(false);
    tm.bind(String::from("x"));
    assert_eq!(tm.get::<u32>(), Some(&1u32));
    assert_eq!(tm.get::<u64>(), Some(&2u64));
    assert_eq!(tm.get::<i64>(), Some(&-3i64));
    assert_eq!(tm.get::<bool>(), Some(&false));
    assert_eq!(tm.get::<String>(), Some(&String::from("x")));
}

#[test]
fn rebind_replaces() {
    let mut tm = TypeMap::new();
    tm.bind(1u32);
    tm.bind(2u32);
    assert_eq!(tm.get::<u32>(), Some(&2u32));
}

#[test]
fn rebind_replaces_string() {
    let mut tm = TypeMap::new();
    tm.bind(String::from("first"));
    tm.bind(String::from("second"));
    assert_eq!(tm.get::<String>(), Some(&String::from("second")));
}

#[test]
fn miss_returns_none_on_empty_store() {
    let tm = TypeMap::new();
    assert_eq!(tm.get::<u32>(), None);
    assert_eq!(tm.get::<String>(), None);
}

#[test]
fn miss_returns_none_for_unbound_type() {
    let mut tm = TypeMap::new();
    tm.bind(9u32);
    assert_eq!(tm.get::<bool>(), None);
    assert_eq!(tm.get::<u64>(), None);
}

#[test]
fn default_store_is_empty() {
    let tm = TypeMap::default();
    assert_eq!(tm.get::<u32>(), None);
}
