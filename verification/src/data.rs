//! The two built-in injectable wrapper kinds.
//!
//! `Data<T>` is the shared-access wrapper: a reference-counted, read-only
//! handle. Cloning it hands out another handle to the same underlying value
//! and never copies the payload; no operation mutates through it.
//!
//! `DataMutStorage<T>` is what a caller binds to obtain exclusive access, and
//! `DataMut<T>` is the guard that resolution of such a binding yields. While
//! a guard is live the store holds the key out (`Slot::Held`), so a second
//! guard for the same type cannot be obtained; releasing the guard writes its
//! value — mutations included — back into the store.

use core::marker::PhantomData;
use std::rc::Rc;
use vstd::prelude::*;

use crate::store::Access;
use crate::store::Error;
use crate::store::Holder;
use crate::store::Slot;
use crate::store::TypeKey;
use crate::store::TypeMap;
use crate::store::exclusive_key;
use crate::store::shared_key;
use crate::value::Storable;
use crate::value::Value;

verus! {

/// The shared-access wrapper: a reference-counted, read-only handle to a
/// value of type `T`.
pub struct Data<T: Storable> {
    inner: Rc<Value>,
    _marker: PhantomData<T>,
}

impl<T: Storable> View for Data<T> {
    type V = T;

    closed spec fn view(&self) -> T {
        T::unwrap(*self.inner)
    }
}

impl<T: Storable> Data<T> {
    /// The handle's payload is exactly the erasure of its view.
    pub closed spec fn wf(self) -> bool {
        *self.inner == T::wrap(self@)
    }

    /// Wraps a value in a fresh reference-counted cell.
    pub fn new(val: T) -> (d: Data<T>)
        ensures
            d.wf(),
            d@ == val,
    {
        let ghost gv = val;
        let d = Data { inner: Rc::new(val.to_value()), _marker: PhantomData };
        proof {
            gv.unwrap_wrap();
        }
        d
    }

    /// An immutable reference to the wrapped value; never blocks, never
    /// fails.
    pub fn get(&self) -> (r: &T)
        requires
            self.wf(),
        ensures
            *r == self@,
    {
        proof {
            (self@).wrap_tag();
        }
        match T::value_ref(&*self.inner) {
            Some(t) => {
                proof {
                    (self@).unwrap_wrap();
                    (*t).unwrap_wrap();
                }
                t
            },
            None => vstd::pervasive::unreached(),
        }
    }

    pub(crate) fn from_rc(rc: Rc<Value>) -> (d: Data<T>)
        requires
            tag_matches::<T>(*rc),
        ensures
            d.wf(),
            T::wrap(d@) == *rc,
    {
        let ghost v0: Value = rc_inner(rc);
        let d = Data { inner: rc, _marker: PhantomData };
        proof {
            lemma_tag_matches_wrap::<T>(v0);
        }
        d
    }

    pub(crate) fn rc_clone(&self) -> (rc: Rc<Value>)
        requires
            self.wf(),
        ensures
            *rc == T::wrap(self@),
    {
        self.inner.clone()
    }
}

pub(crate) open spec fn rc_inner(rc: Rc<Value>) -> Value {
    *rc
}

/// A payload that carries `T`'s tag, and so came from erasing a `T`.
pub open spec fn tag_matches<T: Storable>(v: Value) -> bool {
    crate::value::tag_of(v) == T::tag()
}

/// A payload with `T`'s tag is the erasure of the `T` it downcasts to.
pub proof fn lemma_tag_matches_wrap<T: Storable>(v: Value)
    requires
        tag_matches::<T>(v),
    ensures
        v == T::wrap(T::unwrap(v)),
{
    T::wrap_of_tag(v);
}

impl<T: Storable> Clone for Data<T> {
    /// Hands out another handle to the identical underlying value; the
    /// payload is shared, not copied.
    fn clone(&self) -> (r: Self)
        ensures
            r == *self,
    {
        Data { inner: self.inner.clone(), _marker: PhantomData }
    }
}

/// The checked downcast out of a payload known to be an erasure of a `T`.
pub(crate) fn downcast_ref<T: Storable>(v: &Value) -> (r: &T)
    requires
        *v == T::wrap(T::unwrap(*v)),
    ensures
        *r == T::unwrap(*v),
{
    proof {
        (T::unwrap(*v)).wrap_tag();
    }
    match T::value_ref(v) {
        Some(t) => {
            proof {
                (*t).unwrap_wrap();
            }
            t
        },
        None => vstd::pervasive::unreached(),
    }
}

/// The exclusive-access storage: what a caller binds so that `DataMut<T>`
/// guards for `T` can later be resolved.
#[derive(Debug)]
pub struct DataMutStorage<T: Storable> {
    value: Value,
    _marker: PhantomData<T>,
}

impl<T: Storable> View for DataMutStorage<T> {
    type V = T;

    closed spec fn view(&self) -> T {
        T::unwrap(self.value)
    }
}

impl<T: Storable> DataMutStorage<T> {
    /// The storage's payload is exactly the erasure of its view.
    pub closed spec fn wf(self) -> bool {
        self.value == T::wrap(self@)
    }

    /// Wraps a value for exclusive-access binding.
    pub fn new(val: T) -> (s: DataMutStorage<T>)
        ensures
            s.wf(),
            s@ == val,
    {
        let ghost gv = val;
        let s = DataMutStorage { value: val.to_value(), _marker: PhantomData };
        proof {
            gv.unwrap_wrap();
        }
        s
    }

    pub(crate) fn into_value(self) -> (v: Value)
        requires
            self.wf(),
        ensures
            v == T::wrap(self@),
    {
        self.value
    }
}

/// The exclusive-access guard: the scoped handle through which the one
/// canonical value of an exclusive binding is read and mutated. While it
/// lives, the store holds its key out; releasing it writes the value back.
#[derive(Debug)]
pub struct DataMut<T: Storable> {
    value: Value,
    _marker: PhantomData<T>,
}

impl<T: Storable> View for DataMut<T> {
    type V = T;

    closed spec fn view(&self) -> T {
        T::unwrap(self.value)
    }
}

impl<T: Storable> DataMut<T> {
    /// The guard's payload is exactly the erasure of its view.
    pub closed spec fn wf(self) -> bool {
        self.value == T::wrap(self@)
    }

    pub(crate) fn from_value(v: Value) -> (g: DataMut<T>)
        requires
            tag_matches::<T>(v),
        ensures
            g.wf(),
            T::wrap(g@) == v,
    {
        let ghost v0 = v;
        let g = DataMut { value: v, _marker: PhantomData };
        proof {
            lemma_tag_matches_wrap::<T>(v0);
        }
        g
    }

    pub(crate) fn into_value(self) -> (v: Value)
        requires
            self.wf(),
        ensures
            v == T::wrap(self@),
    {
        self.value
    }

    /// Reads the guarded value.
    pub fn get(&self) -> (r: &T)
        requires
            self.wf(),
        ensures
            *r == self@,
    {
        proof {
            (self@).unwrap_wrap();
        }
        downcast_ref(&self.value)
    }

    /// Writes the guarded value in place.
    pub fn set(&mut self, val: T)
        ensures
            final(self).wf(),
            final(self)@ == val,
    {
        let ghost gv = val;
        self.value = val.to_value();
        proof {
            gv.unwrap_wrap();
        }
    }
}

/// The store after a guard carrying `v` is released into it: the guard's
/// value goes back under `T`'s exclusive key if that key is still held out;
/// a key rebound while the guard was live keeps its newer binding.
pub open spec fn guard_release_spec<T: Storable>(m: Map<TypeKey, Slot>, v: T) -> Map<
    TypeKey,
    Slot,
> {
    if m.contains_key(exclusive_key::<T>()) && m[exclusive_key::<T>()] is Held {
        m.insert(exclusive_key::<T>(), Slot::Full(T::wrap(v)))
    } else {
        m
    }
}

impl TypeMap {
    /// Binds a shared-access wrapper under its type, replacing any previous
    /// shared binding of that type. Always succeeds. The store keeps its own
    /// handle to the wrapper's underlying value.
    pub fn bind_data<T: Storable>(&mut self, d: Data<T>)
        requires
            old(self).wf(),
            d.wf(),
        ensures
            final(self).wf(),
            final(self)@ == old(self)@.insert(shared_key::<T>(), Slot::Full(T::wrap(d@))),
    {
        let ghost gd = d@;
        let tag = T::tag_exec();
        let rc = d.rc_clone();
        proof {
            gd.wrap_tag();
        }
        self.insert_holder(Access::Shared, tag, Holder::Shared(rc));
    }

    /// Binds an exclusive-access storage under its type, replacing any
    /// previous exclusive binding of that type. Always succeeds.
    pub fn bind_storage<T: Storable>(&mut self, s: DataMutStorage<T>)
        requires
            old(self).wf(),
            s.wf(),
        ensures
            final(self).wf(),
            final(self)@ == old(self)@.insert(exclusive_key::<T>(), Slot::Full(T::wrap(s@))),
    {
        let ghost gs = s@;
        let tag = T::tag_exec();
        let v = s.into_value();
        proof {
            gs.wrap_tag();
        }
        self.insert_holder(Access::Exclusive, tag, Holder::Exclusive(v));
    }

    /// Resolves the shared binding for `T`: a fresh handle to the same
    /// underlying value the store keeps, or nothing when `T` has no shared
    /// binding.
    pub fn resolve_data<T: Storable>(&self) -> (r: Option<Data<T>>)
        requires
            self.wf(),
        ensures
            match r {
                Some(d) => {
                    &&& d.wf()
                    &&& self@.contains_key(shared_key::<T>())
                    &&& self@[shared_key::<T>()] == Slot::Full(T::wrap(d@))
                },
                None => !self@.contains_key(shared_key::<T>()),
            },
    {
        let tag = T::tag_exec();
        match self.holder_at(Access::Shared, tag) {
            Some(h) => match h {
                Holder::Shared(rc) => Some(Data::<T>::from_rc(rc.clone())),
                _ => vstd::pervasive::unreached(),
            },
            None => None,
        }
    }

    /// Acquires the exclusive guard for `T`'s storage binding, taking the
    /// value out and leaving the key held, so that no second guard for `T`
    /// exists before this one is released. Fails with `TypeNotFound` when
    /// `T` has no exclusive binding, and with `LockUnusable` when a guard
    /// for `T` is still live; either failure leaves the store unchanged.
    pub fn acquire<T: Storable>(&mut self) -> (r: Result<DataMut<T>, Error>)
        requires
            old(self).wf(),
        ensures
            final(self).wf(),
            match r {
                Ok(g) => {
                    &&& g.wf()
                    &&& old(self)@.contains_key(exclusive_key::<T>())
                    &&& old(self)@[exclusive_key::<T>()] == Slot::Full(T::wrap(g@))
                    &&& final(self)@ == old(self)@.insert(exclusive_key::<T>(), Slot::Held)
                },
                Err(e) => {
                    &&& final(self)@ == old(self)@
                    &&& match e {
                        Error::TypeNotFound => !old(self)@.contains_key(exclusive_key::<T>()),
                        Error::LockUnusable => old(self)@.contains_key(exclusive_key::<T>())
                            && old(self)@[exclusive_key::<T>()] is Held,
                    }
                },
            },
    {
        match self.take_exclusive::<T>() {
            Ok(v) => Ok(DataMut::from_value(v)),
            Err(e) => Err(e),
        }
    }

    /// Releases an exclusive guard, writing its value — mutations included —
    /// back under `T`'s exclusive key, so that the next acquisition sees it.
    /// A key rebound while the guard was live keeps its newer binding.
    pub fn release<T: Storable>(&mut self, g: DataMut<T>)
        requires
            old(self).wf(),
            g.wf(),
        ensures
            final(self).wf(),
            final(self)@ == guard_release_spec::<T>(old(self)@, g@),
    {
        let tag = T::tag_exec();
        let held = match self.holder_at(Access::Exclusive, tag) {
            Some(h) => match h {
                Holder::Held => true,
                _ => false,
            },
            None => false,
        };
        if held {
            let ghost gg = g@;
            let v = g.into_value();
            proof {
                gg.wrap_tag();
            }
            self.insert_holder(Access::Exclusive, tag, Holder::Exclusive(v));
        }
    }
}

} // verus!
