//! The type-keyed store.
//!
//! `TypeMap` maps a type key — the pair of an access discipline and a payload
//! tag — to at most one holder. Each key's holder is either full, or held out
//! while an exclusive guard for it is live. The store's model is a
//! `Map<TypeKey, Slot>`; every operation is specified as an update of that
//! map.

use std::collections::HashMap;
use std::rc::Rc;
use vstd::prelude::*;

use crate::value::Storable;
use crate::value::Tag;
use crate::value::Value;
use crate::value::tag_of;

verus! {

broadcast use vstd::std_specs::hash::group_hash_axioms;

/// The access discipline a binding was made under.
#[derive(Debug, Clone, Copy, PartialEq, Eq, Structural)]
pub enum Access {
    /// A plain value, looked up directly with `get`.
    Plain,
    /// A shared, read-only binding, resolved as `Data<T>`.
    Shared,
    /// An exclusively locked binding, resolved as `DataMut<T>`.
    Exclusive,
}

/// The store's key: one distinct key per access discipline and payload type.
pub struct TypeKey {
    pub access: Access,
    pub tag: Tag,
}

/// The key under which a plain `T` is bound.
pub open spec fn plain_key<T: Storable>() -> TypeKey {
    TypeKey { access: Access::Plain, tag: T::tag() }
}

/// The key under which a shared `Data<T>` binding lives.
pub open spec fn shared_key<T: Storable>() -> TypeKey {
    TypeKey { access: Access::Shared, tag: T::tag() }
}

/// The key under which an exclusive `DataMutStorage<T>` binding lives.
pub open spec fn exclusive_key<T: Storable>() -> TypeKey {
    TypeKey { access: Access::Exclusive, tag: T::tag() }
}

pub open spec fn tag_index(t: Tag) -> u64 {
    match t {
        Tag::U32 => 0,
        Tag::U64 => 1,
        Tag::I64 => 2,
        Tag::Bool => 3,
        Tag::Text => 4,
    }
}

pub open spec fn access_index(a: Access) -> u64 {
    match a {
        Access::Plain => 0,
        Access::Shared => 1,
        Access::Exclusive => 2,
    }
}

/// The run-time code of a type key, the store's hash key.
pub open spec fn key_code(k: TypeKey) -> u64 {
    (access_index(k.access) * 8 + tag_index(k.tag)) as u64
}

/// Distinct type keys have distinct codes, so one hash entry never serves two
/// type keys.
pub proof fn lemma_key_code_injective(k1: TypeKey, k2: TypeKey)
    requires
        key_code(k1) == key_code(k2),
    ensures
        k1 == k2,
{
    assert(tag_index(k1.tag) < 8 && tag_index(k2.tag) < 8);
    assert(k1.access == k2.access);
    assert(k1.tag == k2.tag);
}

pub(crate) fn code_of(access: Access, tag: Tag) -> (c: u64)
    ensures
        c == key_code(TypeKey { access, tag }),
{
    let a: u64 = match access {
        Access::Plain => 0,
        Access::Shared => 1,
        Access::Exclusive => 2,
    };
    let t: u64 = match tag {
        Tag::U32 => 0,
        Tag::U64 => 1,
        Tag::I64 => 2,
        Tag::Bool => 3,
        Tag::Text => 4,
    };
    a * 8 + t
}

/// The container's failure conditions. Both are fatal to the resolution that
/// met them; neither corrupts the store.
#[derive(Debug, Clone, Copy, PartialEq, Eq, Structural)]
pub enum Error {
    /// A resolution was attempted for a type with no corresponding binding.
    TypeNotFound,
    /// The lock behind an exclusive binding could not be acquired: a guard
    /// for it is still live.
    LockUnusable,
}

/// What a type key is bound to, as the contracts see it: the full payload, or
/// held out while an exclusive guard is live.
pub enum Slot {
    Full(Value),
    Held,
}

/// The store's owned, type-erased holder for one binding.
pub(crate) enum Holder {
    /// A plain value.
    Plain(Value),
    /// A shared binding: the store keeps its own reference, and every
    /// resolution hands out another reference to the same underlying value.
    Shared(Rc<Value>),
    /// An exclusive binding whose value is at rest in the store.
    Exclusive(Value),
    /// An exclusive binding whose value is out with a live guard.
    Held,
}

pub(crate) open spec fn holder_slot(h: Holder) -> Slot {
    match h {
        Holder::Plain(v) => Slot::Full(v),
        Holder::Shared(rc) => Slot::Full(*rc),
        Holder::Exclusive(v) => Slot::Full(v),
        Holder::Held => Slot::Held,
    }
}

pub(crate) open spec fn holder_access(h: Holder) -> Access {
    match h {
        Holder::Plain(_) => Access::Plain,
        Holder::Shared(_) => Access::Shared,
        Holder::Exclusive(_) => Access::Exclusive,
        Holder::Held => Access::Exclusive,
    }
}

/// A holder sits rightly under a key when its access discipline is the key's
/// and its payload carries the key's tag.
pub(crate) open spec fn holder_ok(k: TypeKey, h: Holder) -> bool {
    &&& holder_access(h) == k.access
    &&& (holder_slot(h) matches Slot::Full(v) ==> tag_of(v) == k.tag)
}

/// The type-indexed container: at most one binding per type key.
pub struct TypeMap {
    pub(crate) bindings: HashMap<u64, Holder>,
}

impl View for TypeMap {
    type V = Map<TypeKey, Slot>;

    closed spec fn view(&self) -> Map<TypeKey, Slot> {
        Map::new(
            |k: TypeKey| self.bindings@.contains_key(key_code(k)),
            |k: TypeKey| holder_slot(self.bindings@[key_code(k)]),
        )
    }
}

impl Default for TypeMap {
    /// An empty store: the container needs no configuration.
    fn default() -> (r: TypeMap)
        ensures
            r.wf(),
            r@ == Map::<TypeKey, Slot>::empty(),
    {
        TypeMap::new()
    }
}

impl TypeMap {
    /// Every holder in the store sits rightly under its key.
    pub closed spec fn wf(self) -> bool {
        forall|k: TypeKey| #![trigger key_code(k)]
            self.bindings@.contains_key(key_code(k)) ==> holder_ok(
                k,
                self.bindings@[key_code(k)],
            )
    }

    /// Constructs an empty store.
    pub fn new() -> (r: TypeMap)
        ensures
            r.wf(),
            r@ == Map::<TypeKey, Slot>::empty(),
    {
        let r = TypeMap { bindings: HashMap::new() };
        proof {
            assert(r@ =~= Map::<TypeKey, Slot>::empty());
        }
        r
    }

    /// Inserts or replaces the holder under one key.
    pub(crate) fn insert_holder(&mut self, access: Access, tag: Tag, h: Holder)
        requires
            old(self).wf(),
            holder_ok(TypeKey { access, tag }, h),
        ensures
            final(self).wf(),
            final(self)@ == old(self)@.insert(TypeKey { access, tag }, holder_slot(h)),
    {
        let ghost gh = h;
        let ghost k0 = TypeKey { access, tag };
        let c = code_of(access, tag);
        self.bindings.insert(c, h);
        proof {
            assert forall|k: TypeKey| k != k0 implies key_code(k) != key_code(k0) by {
                if key_code(k) == key_code(k0) {
                    lemma_key_code_injective(k, k0);
                }
            }
            assert(self@ =~= old(self)@.insert(k0, holder_slot(gh)));
        }
    }

    /// Looks the holder under one key up.
    pub(crate) fn holder_at(&self, access: Access, tag: Tag) -> (r: Option<&Holder>)
        requires
            self.wf(),
        ensures
            match r {
                Some(h) => {
                    &&& self.bindings@.contains_key(key_code(TypeKey { access, tag }))
                    &&& *h == self.bindings@[key_code(TypeKey { access, tag })]
                    &&& holder_ok(TypeKey { access, tag }, *h)
                    &&& self@.contains_key(TypeKey { access, tag })
                    &&& self@[TypeKey { access, tag }] == holder_slot(*h)
                },
                None => !self@.contains_key(TypeKey { access, tag }),
            },
    {
        let c = code_of(access, tag);
        self.bindings.get(&c)
    }

    /// Takes the value of `T`'s exclusive binding out, leaving the key held.
    pub(crate) fn take_exclusive<T: Storable>(&mut self) -> (r: Result<Value, Error>)
        requires
            old(self).wf(),
        ensures
            final(self).wf(),
            match r {
                Ok(v) => {
                    &&& tag_of(v) == T::tag()
                    &&& old(self)@.contains_key(exclusive_key::<T>())
                    &&& old(self)@[exclusive_key::<T>()] == Slot::Full(v)
                    &&& final(self)@ == old(self)@.insert(exclusive_key::<T>(), Slot::Held)
                },
                Err(e) => {
                    &&& final(self)@ == old(self)@
                    &&& match e {
                        Error::TypeNotFound => !old(self)@.contains_key(exclusive_key::<T>()),
                        Error::LockUnusable => old(self)@.contains_key(exclusive_key::<T>())
                            && old(self)@[exclusive_key::<T>()] is Held,
                    }
                },
            },
    {
        let tag = T::tag_exec();
        let ghost k0 = exclusive_key::<T>();
        let c = code_of(Access::Exclusive, tag);
        proof {
            assert forall|k: TypeKey| k != k0 implies key_code(k) != key_code(k0) by {
                if key_code(k) == key_code(k0) {
                    lemma_key_code_injective(k, k0);
                }
            }
        }
        let prev = self.bindings.insert(c, Holder::Held);
        match prev {
            Some(h) => match h {
                Holder::Exclusive(v) => {
                    proof {
                        assert(holder_ok(k0, old(self).bindings@[key_code(k0)]));
                        assert(self@ =~= old(self)@.insert(k0, Slot::Held));
                    }
                    Ok(v)
                },
                Holder::Held => {
                    proof {
                        assert(self.bindings@ =~= old(self).bindings@);
                        assert(self@ =~= old(self)@);
                    }
                    Err(Error::LockUnusable)
                },
                _ => {
                    proof {
                        assert(holder_ok(k0, old(self).bindings@[key_code(k0)]));
                    }
                    vstd::pervasive::unreached()
                },
            },
            None => {
                self.bindings.remove(&c);
                proof {
                    assert(self.bindings@ =~= old(self).bindings@);
                    assert(self@ =~= old(self)@);
                }
                Err(Error::TypeNotFound)
            },
        }
    }

    /// Binds a plain value under its own type, replacing any previous plain
    /// binding of that type. Always succeeds.
    pub fn bind<T: Storable>(&mut self, val: T)
        requires
            old(self).wf(),
        ensures
            final(self).wf(),
            final(self)@ == old(self)@.insert(plain_key::<T>(), Slot::Full(val.wrap())),
    {
        let ghost gv = val;
        let tag = T::tag_exec();
        let v = val.to_value();
        proof {
            gv.wrap_tag();
        }
        self.insert_holder(Access::Plain, tag, Holder::Plain(v));
    }

    /// Looks a plain binding up by its type: a reference to the bound value,
    /// or nothing when no value of that type is bound. Never fails.
    pub fn get<T: Storable>(&self) -> (r: Option<&T>)
        requires
            self.wf(),
        ensures
            match r {
                Some(t) => self@.contains_key(plain_key::<T>()) && self@[plain_key::<T>()]
                    == Slot::Full((*t).wrap()),
                None => !self@.contains_key(plain_key::<T>()),
            },
    {
        let tag = T::tag_exec();
        match self.holder_at(Access::Plain, tag) {
            Some(h) => match h {
                Holder::Plain(v) => match T::value_ref(v) {
                    Some(t) => Some(t),
                    None => vstd::pervasive::unreached(),
                },
                _ => vstd::pervasive::unreached(),
            },
            None => None,
        }
    }
}

} // verus!
