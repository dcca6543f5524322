//! The universe of storable payloads and the type-tag registry.
//!
//! The container erases the concrete type of a bound value into `Value`, an
//! enum over the supported payload types, and recovers it by a checked
//! downcast on the enum variant. `Storable` is the registry capability a
//! payload type implements: it names its tag, erases a value into `Value`,
//! and casts a `Value` back.

use vstd::prelude::*;

verus! {

/// A type-erased payload: one variant per storable payload type.
#[derive(Debug, PartialEq)]
pub enum Value {
    U32(u32),
    U64(u64),
    I64(i64),
    Bool(bool),
    Text(String),
}

/// The runtime identifier of a storable payload type.
#[derive(Debug, Clone, Copy, PartialEq, Eq, Structural)]
pub enum Tag {
    U32,
    U64,
    I64,
    Bool,
    Text,
}

/// The tag that identifies the payload type a `Value` holds.
pub open spec fn tag_of(v: Value) -> Tag {
    match v {
        Value::U32(_) => Tag::U32,
        Value::U64(_) => Tag::U64,
        Value::I64(_) => Tag::I64,
        Value::Bool(_) => Tag::Bool,
        Value::Text(_) => Tag::Text,
    }
}

/// A payload type that the container can store: it has a distinct tag, an
/// erasure into `Value`, and a checked downcast back out of `Value`.
pub trait Storable: Sized {
    /// The tag of this payload type.
    spec fn tag() -> Tag;

    /// The erasure of a value of this type into the payload universe.
    spec fn wrap(self) -> Value;

    /// The inverse of `wrap` on values this type produced.
    spec fn unwrap(v: Value) -> Self;

    /// The tag of this payload type, computed at run time.
    fn tag_exec() -> (t: Tag)
        ensures
            t == Self::tag(),
    ;

    /// Erases a value into the payload universe.
    fn to_value(self) -> (v: Value)
        ensures
            v == self.wrap(),
    ;

    /// The checked downcast: a reference to the payload when `v` holds this
    /// type, and nothing otherwise.
    fn value_ref(v: &Value) -> (r: Option<&Self>)
        ensures
            match r {
                Some(t) => *v == (*t).wrap(),
                None => tag_of(*v) != Self::tag(),
            },
    ;

    /// Erasing a value gives a payload carrying this type's tag.
    proof fn wrap_tag(self)
        ensures
            tag_of(self.wrap()) == Self::tag(),
    ;

    /// The downcast undoes the erasure, so the erasure loses nothing.
    proof fn unwrap_wrap(self)
        ensures
            Self::unwrap(self.wrap()) == self,
    ;

    /// A payload carrying this type's tag is the erasure of some value of
    /// this type: the tag identifies the payload shape completely.
    proof fn wrap_of_tag(v: Value)
        requires
            tag_of(v) == Self::tag(),
        ensures
            v == Self::wrap(Self::unwrap(v)),
    ;
}

impl Storable for u32 {
    open spec fn tag() -> Tag {
        Tag::U32
    }

    open spec fn wrap(self) -> Value {
        Value::U32(self)
    }

    open spec fn unwrap(v: Value) -> Self {
        match v {
            Value::U32(x) => x,
            _ => arbitrary(),
        }
    }

    fn tag_exec() -> Tag {
        Tag::U32
    }

    fn to_value(self) -> Value {
        Value::U32(self)
    }

    fn value_ref(v: &Value) -> Option<&Self> {
        match v {
            Value::U32(x) => Some(x),
            _ => None,
        }
    }

    proof fn wrap_tag(self) {
    }

    proof fn unwrap_wrap(self) {
    }

    proof fn wrap_of_tag(v: Value) {
    }
}

impl Storable for u64 {
    open spec fn tag() -> Tag {
        Tag::U64
    }

    open spec fn wrap(self) -> Value {
        Value::U64(self)
    }

    open spec fn unwrap(v: Value) -> Self {
        match v {
            Value::U64(x) => x,
            _ => arbitrary(),
        }
    }

    fn tag_exec() -> Tag {
        Tag::U64
    }

    fn to_value(self) -> Value {
        Value::U64(self)
    }

    fn value_ref(v: &Value) -> Option<&Self> {
        match v {
            Value::U64(x) => Some(x),
            _ => None,
        }
    }

    proof fn wrap_tag(self) {
    }

    proof fn unwrap_wrap(self) {
    }

    proof fn wrap_of_tag(v: Value) {
    }
}

impl Storable for i64 {
    open spec fn tag() -> Tag {
        Tag::I64
    }

    open spec fn wrap(self) -> Value {
        Value::I64(self)
    }

    open spec fn unwrap(v: Value) -> Self {
        match v {
            Value::I64(x) => x,
            _ => arbitrary(),
        }
    }

    fn tag_exec() -> Tag {
        Tag::I64
    }

    fn to_value(self) -> Value {
        Value::I64(self)
    }

    fn value_ref(v: &Value) -> Option<&Self> {
        match v {
            Value::I64(x) => Some(x),
            _ => None,
        }
    }

    proof fn wrap_tag(self) {
    }

    proof fn unwrap_wrap(self) {
    }

    proof fn wrap_of_tag(v: Value) {
    }
}

impl Storable for bool {
    open spec fn tag() -> Tag {
        Tag::Bool
    }

    open spec fn wrap(self) -> Value {
        Value::Bool(self)
    }

    open spec fn unwrap(v: Value) -> Self {
        match v {
            Value::Bool(x) => x,
            _ => arbitrary(),
        }
    }

    fn tag_exec() -> Tag {
        Tag::Bool
    }

    fn to_value(self) -> Value {
        Value::Bool(self)
    }

    fn value_ref(v: &Value) -> Option<&Self> {
        match v {
            Value::Bool(x) => Some(x),
            _ => None,
        }
    }

    proof fn wrap_tag(self) {
    }

    proof fn unwrap_wrap(self) {
    }

    proof fn wrap_of_tag(v: Value) {
    }
}

impl Storable for String {
    open spec fn tag() -> Tag {
        Tag::Text
    }

    open spec fn wrap(self) -> Value {
        Value::Text(self)
    }

    open spec fn unwrap(v: Value) -> Self {
        match v {
            Value::Text(x) => x,
            _ => arbitrary(),
        }
    }

    fn tag_exec() -> Tag {
        Tag::Text
    }

    fn to_value(self) -> Value {
        Value::Text(self)
    }

    fn value_ref(v: &Value) -> Option<&Self> {
        match v {
            Value::Text(x) => Some(x),
            _ => None,
        }
    }

    proof fn wrap_tag(self) {
    }

    proof fn unwrap_wrap(self) {
    }

    proof fn wrap_of_tag(v: Value) {
    }
}

} // verus!
