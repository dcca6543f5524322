//! Tests of the shared and exclusive wrappers and their store bindings.

use typemap::Data;
use typemap::DataMutStorage;
use typemap::Error;
use typemap::TypeMap;

#[test]
fn shared_wrapper_reads_its_value() {
    let d = Data::new(42u32);
    assert_eq!(*d.get(), 42u32);
}

#[test]
fn shared_wrapper_clones_read_identical_values() {
    let d1 = Data::new(String::from("shared"));
    let d2 = d1.clone();
    assert_eq!(d1.get(), d2.get());
    assert_eq!(*d2.get(), String::from("shared"));
}

#[test]
fn shared_binding_resolves_to_bound_value() {
    let mut tm = TypeMap::new();
    tm.bind_data(Data::new(100000u32));
    let d = tm.resolve_data::<u32>().unwrap();
    assert_eq!(*d.get(), 100000u32);
}

#[test]
fn repeated_shared_resolution_yields_same_underlying_value() {
    let mut tm = TypeMap::new();
    tm.bind_data(Data::new(8u64));
    let d1 = tm.resolve_data::<u64>().unwrap();
    let d2 = tm.resolve_data::<u64>().unwrap();
    assert_eq!(d1.get(), d2.get());
}

#[test]
fn shared_resolution_misses_when_unbound() {
    let tm = TypeMap::new();
    assert!(tm.resolve_data::<u32>().is_none());
}

#[test]
fn plain_and_shared_bindings_are_distinct() {
    let mut tm = TypeMap::new();
    tm.bind(1u32);
    assert!(tm.resolve_data::<u32>().is_none());
    tm.bind_data(Data::new(2u32));
    assert_eq!(tm.get::<u32>(), Some(&1u32));
    assert_eq!(*tm.resolve_data::<u32>().unwrap().get(), 2u32);
}

#[test]
fn exclusive_guard_reads_bound_value() {
    let mut tm = TypeMap::new();
    tm.bind_storage(DataMutStorage::new(10u32));
    let g = tm.acquire::<u32>().unwrap();
    assert_eq!(*g.get(), 10u32);
    tm.release(g);
}

#[test]
fn exclusive_mutation_is_visible_after_release() {
    let mut tm = TypeMap::new();
    tm.bind_storage(DataMutStorage::new(10u32));
    let mut g = tm.acquire::<u32>().unwrap();
    g.set(99u32);
    tm.release(g);
    let g2 = tm.acquire::<u32>().unwrap();
    assert_eq!(*g2.get(), 99u32);
    tm.release(g2);
}

#[test]
fn second_guard_is_refused_while_first_is_live() {
    let mut tm = TypeMap::new();
    tm.bind_storage(DataMutStorage::new(1u64));
    let g = tm.acquire::<u64>().unwrap();
    assert_eq!(tm.acquire::<u64>().unwrap_err(), Error::LockUnusable);
    tm.release(g);
    let g2 = tm.acquire::<u64>().unwrap();
    assert_eq!(*g2.get(), 1u64);
    tm.release(g2);
}

#[test]
fn acquiring_an_unbound_type_is_not_found() {
    let mut tm = TypeMap::new();
    assert_eq!(tm.acquire::<u32>().unwrap_err(), Error::TypeNotFound);
}

#[test]
fn rebind_while_guard_live_wins_over_release() {
    let mut tm = TypeMap::new();
    tm.bind_storage(DataMutStorage::new(1u32));
    let mut g = tm.acquire::<u32>().unwrap();
    g.set(2u32);
    tm.bind_storage(DataMutStorage::new(50u32));
    tm.release(g);
    let g2 = tm.acquire::<u32>().unwrap();
    assert_eq!(*g2.get(), 50u32);
    tm.release(g2);
}
