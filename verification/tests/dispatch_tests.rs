//! Tests of the invocation dispatcher: arity coverage, mixed parameters,
//! fatal misses, and the end-to-end shared and exclusive examples.

use typemap::Callable;
use typemap::Data;
use typemap::DataMut;
use typemap::DataMutStorage;
use typemap::Error;
use typemap::TypeMap;

struct Nop;

impl Callable<()> for Nop {
    fn call(&self, _args: &mut ()) {}
}

struct DoubleInPlace;

impl Callable<(DataMut<u32>,)> for DoubleInPlace {
    fn call(&self, args: &mut (DataMut<u32>,)) {
        let x: u32 = *args.0.get();
        args.0.set(x * 2);
    }
}

struct DoubleLocalCopy;

impl Callable<(Data<u32>,)> for DoubleLocalCopy {
    fn call(&self, args: &mut (Data<u32>,)) {
        let mut local: u32 = *args.0.get();
        local *= 2;
        assert_eq!(local, 200000u32);
    }
}

struct AddIntoTotal;

impl Callable<(Data<u32>, DataMut<u64>)> for AddIntoTotal {
    fn call(&self, args: &mut (Data<u32>, DataMut<u64>)) {
        let amount: u32 = *args.0.get();
        let total: u64 = *args.1.get();
        args.1.set(total + amount as u64);
    }
}

struct DescribeAll;

impl Callable<(Data<u32>, Data<u64>, Data<i64>, Data<bool>, DataMut<String>)> for DescribeAll {
    fn call(&self, args: &mut (Data<u32>, Data<u64>, Data<i64>, Data<bool>, DataMut<String>)) {
        let text = format!(
            "{} {} {} {}",
            *args.0.get(),
            *args.1.get(),
            *args.2.get(),
            *args.3.get()
        );
        args.4.set(text);
    }
}

struct SumThree;

impl Callable<(Data<u32>, Data<u64>, DataMut<i64>)> for SumThree {
    fn call(&self, args: &mut (Data<u32>, Data<u64>, DataMut<i64>)) {
        let a: u32 = *args.0.get();
        let b: u64 = *args.1.get();
        let c: i64 = *args.2.get();
        args.2.set(c + a as i64 + b as i64);
    }
}

struct WantsText;

impl Callable<(Data<String>,)> for WantsText {
    fn call(&self, args: &mut (Data<String>,)) {
        assert!(!args.0.get().is_empty());
    }
}

#[test]
fn call_with_zero_parameters() {
    let mut tm = TypeMap::new();
    assert_eq!(tm.call(&Nop), Ok(()));
}

#[test]
fn call_with_one_parameter_doubles_in_place() {
    let mut tm = TypeMap::new();
    tm.bind_storage(DataMutStorage::new(100000u32));
    assert_eq!(tm.call(&DoubleInPlace), Ok(()));
    let g = tm.acquire::<u32>().unwrap();
    assert_eq!(*g.get(), 200000u32);
    tm.release(g);
}

#[test]
fn call_with_shared_parameter_leaves_binding_unchanged() {
    let mut tm = TypeMap::new();
    tm.bind_data(Data::new(100000u32));
    assert_eq!(tm.call(&DoubleLocalCopy), Ok(()));
    let d = tm.resolve_data::<u32>().unwrap();
    assert_eq!(*d.get(), 100000u32);
}

#[test]
fn call_with_mixed_parameters_resolves_both() {
    let mut tm = TypeMap::new();
    tm.bind_data(Data::new(7u32));
    tm.bind_storage(DataMutStorage::new(100u64));
    assert_eq!(tm.call(&AddIntoTotal), Ok(()));
    let g = tm.acquire::<u64>().unwrap();
    assert_eq!(*g.get(), 107u64);
    tm.release(g);
}

#[test]
fn call_with_three_parameters_resolves_each() {
    let mut tm = TypeMap::new();
    tm.bind_data(Data::new(10u32));
    tm.bind_data(Data::new(20u64));
    tm.bind_storage(DataMutStorage::new(-5i64));
    assert_eq!(tm.call(&SumThree), Ok(()));
    let g = tm.acquire::<i64>().unwrap();
    assert_eq!(*g.get(), 25i64);
    tm.release(g);
}

#[test]
fn call_with_five_parameters_resolves_each_in_order() {
    let mut tm = TypeMap::new();
    tm.bind_data(Data::new(1u32));
    tm.bind_data(Data::new(2u64));
    tm.bind_data(Data::new(-3i64));
    tm.bind_data(Data::new(true));
    tm.bind_storage(DataMutStorage::new(String::new()));
    assert_eq!(tm.call(&DescribeAll), Ok(()));
    let g = tm.acquire::<String>().unwrap();
    assert_eq!(*g.get(), String::from("1 2 -3 true"));
    tm.release(g);
}

#[test]
fn repeated_calls_double_again() {
    let mut tm = TypeMap::new();
    tm.bind_storage(DataMutStorage::new(5u32));
    assert_eq!(tm.call(&DoubleInPlace), Ok(()));
    assert_eq!(tm.call(&DoubleInPlace), Ok(()));
    let g = tm.acquire::<u32>().unwrap();
    assert_eq!(*g.get(), 20u32);
    tm.release(g);
}

#[test]
fn call_with_unbound_type_fails_and_store_stays_usable() {
    let mut tm = TypeMap::new();
    tm.bind(11u32);
    assert_eq!(tm.call(&WantsText), Err(Error::TypeNotFound));
    assert_eq!(tm.get::<u32>(), Some(&11u32));
    tm.bind_data(Data::new(String::from("now bound")));
    assert_eq!(tm.call(&WantsText), Ok(()));
}

#[test]
fn call_while_guard_live_fails_with_lock_unusable() {
    let mut tm = TypeMap::new();
    tm.bind_storage(DataMutStorage::new(4u32));
    let g = tm.acquire::<u32>().unwrap();
    assert_eq!(tm.call(&DoubleInPlace), Err(Error::LockUnusable));
    tm.release(g);
    assert_eq!(tm.call(&DoubleInPlace), Ok(()));
    let g2 = tm.acquire::<u32>().unwrap();
    assert_eq!(*g2.get(), 8u32);
    tm.release(g2);
}

#[test]
fn failed_later_parameter_releases_earlier_guards() {
    let mut tm = TypeMap::new();
    tm.bind_data(Data::new(7u32));
    assert_eq!(tm.call(&AddIntoTotal), Err(Error::TypeNotFound));
    tm.bind_storage(DataMutStorage::new(0u64));
    assert_eq!(tm.call(&AddIntoTotal), Ok(()));
    let g = tm.acquire::<u64>().unwrap();
    assert_eq!(*g.get(), 7u64);
    tm.release(g);
}
