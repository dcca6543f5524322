//! The resolution protocol.
//!
//! `FromTypeMap` is the capability a parameter type implements to produce
//! itself from the store. Its specification is relational: `resolvable` says
//! from which store states resolution succeeds, `resolves` relates the value
//! produced to the state it was resolved from, `taken` gives the state after
//! resolution (exclusive keys held out), and `released` gives the state after
//! the value is handed back. `release_after_take` obliges every implementor
//! to prove that releasing what resolution yielded restores the store.
//!
//! Tuples resolve each element independently, in declared left-to-right
//! order, and release in the reverse order; a tuple whose later element fails
//! releases what it already resolved, so a failed resolution always leaves
//! the store exactly as it was. Tuples of three or more elements delegate to
//! the pair form, left-nested.

use vstd::prelude::*;

use crate::data::Data;
use crate::data::DataMut;
use crate::data::DataMutStorage;
use crate::data::guard_release_spec;
use crate::store::Error;
use crate::store::Slot;
use crate::store::TypeKey;
use crate::store::TypeMap;
use crate::store::exclusive_key;
use crate::store::shared_key;
use crate::value::Storable;

verus! {

/// The capability to produce a value of a parameter type from the store.
pub trait FromTypeMap: Sized {
    /// The store states from which resolution succeeds.
    spec fn resolvable(m: Map<TypeKey, Slot>) -> bool;

    /// The resolved value `self` is what store state `m` yields.
    spec fn resolves(self, m: Map<TypeKey, Slot>) -> bool;

    /// The store after resolution: exclusive keys are held out.
    spec fn taken(m: Map<TypeKey, Slot>) -> Map<TypeKey, Slot>;

    /// The store after the resolved value `self` is released back into it.
    spec fn released(self, m: Map<TypeKey, Slot>) -> Map<TypeKey, Slot>;

    /// The error resolution from `m` fails with, when it fails.
    spec fn resolution_error(m: Map<TypeKey, Slot>) -> Error;

    /// Well-formedness of the resolved value.
    spec fn valid(self) -> bool;

    /// Produces a value of this type from the store: the single extension
    /// point for new injectable parameter kinds. Failure leaves the store
    /// exactly as it was.
    fn from_type_map(tm: &mut TypeMap) -> (r: Result<Self, Error>)
        requires
            old(tm).wf(),
        ensures
            final(tm).wf(),
            match r {
                Ok(a) => {
                    &&& Self::resolvable(old(tm)@)
                    &&& a.resolves(old(tm)@)
                    &&& a.valid()
                    &&& final(tm)@ == Self::taken(old(tm)@)
                },
                Err(e) => {
                    &&& !Self::resolvable(old(tm)@)
                    &&& final(tm)@ == old(tm)@
                    &&& e == Self::resolution_error(old(tm)@)
                },
            },
    ;

    /// Hands the resolved value back: guards release their locks, writing
    /// their values into the store; shared handles just go away.
    fn release(self, tm: &mut TypeMap)
        requires
            old(tm).wf(),
            self.valid(),
        ensures
            final(tm).wf(),
            final(tm)@ == self.released(old(tm)@),
    ;

    /// Releasing what resolution yielded undoes the take exactly.
    proof fn release_after_take(self, m: Map<TypeKey, Slot>)
        requires
            Self::resolvable(m),
            self.resolves(m),
            self.valid(),
        ensures
            self.released(Self::taken(m)) == m,
    ;
}

impl<T: Storable> FromTypeMap for Data<T> {
    /// Resolving a shared handle needs a full shared binding for `T`.
    open spec fn resolvable(m: Map<TypeKey, Slot>) -> bool {
        m.contains_key(shared_key::<T>()) && m[shared_key::<T>()] is Full
    }

    /// The handle wraps exactly the value bound under `T`'s shared key.
    open spec fn resolves(self, m: Map<TypeKey, Slot>) -> bool {
        m[shared_key::<T>()] == Slot::Full(T::wrap(self@))
    }

    /// Shared resolution leaves the store untouched.
    open spec fn taken(m: Map<TypeKey, Slot>) -> Map<TypeKey, Slot> {
        m
    }

    open spec fn released(self, m: Map<TypeKey, Slot>) -> Map<TypeKey, Slot> {
        m
    }

    open spec fn resolution_error(m: Map<TypeKey, Slot>) -> Error {
        Error::TypeNotFound
    }

    open spec fn valid(self) -> bool {
        self.wf()
    }

    fn from_type_map(tm: &mut TypeMap) -> (r: Result<Self, Error>) {
        match tm.resolve_data::<T>() {
            Some(d) => Ok(d),
            None => Err(Error::TypeNotFound),
        }
    }

    fn release(self, tm: &mut TypeMap) {
    }

    proof fn release_after_take(self, m: Map<TypeKey, Slot>) {
    }
}

impl<T: Storable> FromTypeMap for DataMut<T> {
    /// Resolving a guard needs a full (not held-out) exclusive binding.
    open spec fn resolvable(m: Map<TypeKey, Slot>) -> bool {
        m.contains_key(exclusive_key::<T>()) && m[exclusive_key::<T>()] is Full
    }

    /// The guard holds exactly the value bound under `T`'s exclusive key.
    open spec fn resolves(self, m: Map<TypeKey, Slot>) -> bool {
        m[exclusive_key::<T>()] == Slot::Full(T::wrap(self@))
    }

    /// Acquiring the guard holds the key out until release.
    open spec fn taken(m: Map<TypeKey, Slot>) -> Map<TypeKey, Slot> {
        m.insert(exclusive_key::<T>(), Slot::Held)
    }

    open spec fn released(self, m: Map<TypeKey, Slot>) -> Map<TypeKey, Slot> {
        guard_release_spec::<T>(m, self@)
    }

    /// An unbound type is not found; a bound one whose guard is still live
    /// has an unusable lock.
    open spec fn resolution_error(m: Map<TypeKey, Slot>) -> Error {
        if !m.contains_key(exclusive_key::<T>()) {
            Error::TypeNotFound
        } else {
            Error::LockUnusable
        }
    }

    open spec fn valid(self) -> bool {
        self.wf()
    }

    fn from_type_map(tm: &mut TypeMap) -> (r: Result<Self, Error>) {
        tm.acquire::<T>()
    }

    fn release(self, tm: &mut TypeMap) {
        tm.release::<T>(self);
    }

    proof fn release_after_take(self, m: Map<TypeKey, Slot>) {
        assert(self.released(Self::taken(m)) =~= m);
    }
}

/// The empty tuple resolves trivially, with no store access.
impl FromTypeMap for () {
    open spec fn resolvable(m: Map<TypeKey, Slot>) -> bool {
        true
    }

    open spec fn resolves(self, m: Map<TypeKey, Slot>) -> bool {
        true
    }

    open spec fn taken(m: Map<TypeKey, Slot>) -> Map<TypeKey, Slot> {
        m
    }

    open spec fn released(self, m: Map<TypeKey, Slot>) -> Map<TypeKey, Slot> {
        m
    }

    open spec fn resolution_error(m: Map<TypeKey, Slot>) -> Error {
        Error::TypeNotFound
    }

    open spec fn valid(self) -> bool {
        true
    }

    fn from_type_map(tm: &mut TypeMap) -> (r: Result<Self, Error>) {
        Ok(())
    }

    fn release(self, tm: &mut TypeMap) {
    }

    proof fn release_after_take(self, m: Map<TypeKey, Slot>) {
    }
}

impl<A: FromTypeMap> FromTypeMap for (A,) {
    open spec fn resolvable(m: Map<TypeKey, Slot>) -> bool {
        A::resolvable(m)
    }

    open spec fn resolves(self, m: Map<TypeKey, Slot>) -> bool {
        self.0.resolves(m)
    }

    open spec fn taken(m: Map<TypeKey, Slot>) -> Map<TypeKey, Slot> {
        A::taken(m)
    }

    open spec fn released(self, m: Map<TypeKey, Slot>) -> Map<TypeKey, Slot> {
        self.0.released(m)
    }

    open spec fn resolution_error(m: Map<TypeKey, Slot>) -> Error {
        A::resolution_error(m)
    }

    open spec fn valid(self) -> bool {
        self.0.valid()
    }

    fn from_type_map(tm: &mut TypeMap) -> (r: Result<Self, Error>) {
        match A::from_type_map(tm) {
            Ok(a) => Ok((a,)),
            Err(e) => Err(e),
        }
    }

    fn release(self, tm: &mut TypeMap) {
        self.0.release(tm);
    }

    proof fn release_after_take(self, m: Map<TypeKey, Slot>) {
        self.0.release_after_take(m);
    }
}

/// Elements resolve left to right and release in reverse; when the second
/// element fails, the first is released, so the store is left as it was.
impl<A: FromTypeMap, B: FromTypeMap> FromTypeMap for (A, B) {
    open spec fn resolvable(m: Map<TypeKey, Slot>) -> bool {
        A::resolvable(m) && B::resolvable(A::taken(m))
    }

    open spec fn resolves(self, m: Map<TypeKey, Slot>) -> bool {
        self.0.resolves(m) && self.1.resolves(A::taken(m))
    }

    open spec fn taken(m: Map<TypeKey, Slot>) -> Map<TypeKey, Slot> {
        B::taken(A::taken(m))
    }

    open spec fn released(self, m: Map<TypeKey, Slot>) -> Map<TypeKey, Slot> {
        self.0.released(self.1.released(m))
    }

    open spec fn resolution_error(m: Map<TypeKey, Slot>) -> Error {
        if !A::resolvable(m) {
            A::resolution_error(m)
        } else {
            B::resolution_error(A::taken(m))
        }
    }

    open spec fn valid(self) -> bool {
        self.0.valid() && self.1.valid()
    }

    fn from_type_map(tm: &mut TypeMap) -> (r: Result<Self, Error>) {
        let a = match A::from_type_map(tm) {
            Ok(a) => a,
            Err(e) => {
                return Err(e);
            },
        };
        let b = match B::from_type_map(tm) {
            Ok(b) => b,
            Err(e) => {
                proof {
                    a.release_after_take(old(tm)@);
                }
                a.release(tm);
                return Err(e);
            },
        };
        Ok((a, b))
    }

    fn release(self, tm: &mut TypeMap) {
        let (a, b) = self;
        b.release(tm);
        a.release(tm);
    }

    proof fn release_after_take(self, m: Map<TypeKey, Slot>) {
        self.1.release_after_take(A::taken(m));
        self.0.release_after_take(m);
    }
}

impl<A: FromTypeMap, B: FromTypeMap, C: FromTypeMap> FromTypeMap for (A, B, C) {
    open spec fn resolvable(m: Map<TypeKey, Slot>) -> bool {
        <((A, B), C) as FromTypeMap>::resolvable(m)
    }

    open spec fn resolves(self, m: Map<TypeKey, Slot>) -> bool {
        ((self.0, self.1), self.2).resolves(m)
    }

    open spec fn taken(m: Map<TypeKey, Slot>) -> Map<TypeKey, Slot> {
        <((A, B), C) as FromTypeMap>::taken(m)
    }

    open spec fn released(self, m: Map<TypeKey, Slot>) -> Map<TypeKey, Slot> {
        ((self.0, self.1), self.2).released(m)
    }

    open spec fn resolution_error(m: Map<TypeKey, Slot>) -> Error {
        <((A, B), C) as FromTypeMap>::resolution_error(m)
    }

    open spec fn valid(self) -> bool {
        ((self.0, self.1), self.2).valid()
    }

    fn from_type_map(tm: &mut TypeMap) -> (r: Result<Self, Error>) {
        match <((A, B), C) as FromTypeMap>::from_type_map(tm) {
            Ok(((a, b), c)) => Ok((a, b, c)),
            Err(e) => Err(e),
        }
    }

    fn release(self, tm: &mut TypeMap) {
        let (a, b, c) = self;
        ((a, b), c).release(tm);
    }

    proof fn release_after_take(self, m: Map<TypeKey, Slot>) {
        ((self.0, self.1), self.2).release_after_take(m);
    }
}

impl<A: FromTypeMap, B: FromTypeMap, C: FromTypeMap, D: FromTypeMap> FromTypeMap for (A, B, C, D) {
    open spec fn resolvable(m: Map<TypeKey, Slot>) -> bool {
        <(((A, B), C), D) as FromTypeMap>::resolvable(m)
    }

    open spec fn resolves(self, m: Map<TypeKey, Slot>) -> bool {
        (((self.0, self.1), self.2), self.3).resolves(m)
    }

    open spec fn taken(m: Map<TypeKey, Slot>) -> Map<TypeKey, Slot> {
        <(((A, B), C), D) as FromTypeMap>::taken(m)
    }

    open spec fn released(self, m: Map<TypeKey, Slot>) -> Map<TypeKey, Slot> {
        (((self.0, self.1), self.2), self.3).released(m)
    }

    open spec fn resolution_error(m: Map<TypeKey, Slot>) -> Error {
        <(((A, B), C), D) as FromTypeMap>::resolution_error(m)
    }

    open spec fn valid(self) -> bool {
        (((self.0, self.1), self.2), self.3).valid()
    }

    fn from_type_map(tm: &mut TypeMap) -> (r: Result<Self, Error>) {
        match <(((A, B), C), D) as FromTypeMap>::from_type_map(tm) {
            Ok((((a, b), c), d)) => Ok((a, b, c, d)),
            Err(e) => Err(e),
        }
    }

    fn release(self, tm: &mut TypeMap) {
        let (a, b, c, d) = self;
        (((a, b), c), d).release(tm);
    }

    proof fn release_after_take(self, m: Map<TypeKey, Slot>) {
        (((self.0, self.1), self.2), self.3).release_after_take(m);
    }
}

impl<A: FromTypeMap, B: FromTypeMap, C: FromTypeMap, D: FromTypeMap, E: FromTypeMap> FromTypeMap for (A, B, C, D, E) {
    open spec fn resolvable(m: Map<TypeKey, Slot>) -> bool {
        <((((A, B), C), D), E) as FromTypeMap>::resolvable(m)
    }

    open spec fn resolves(self, m: Map<TypeKey, Slot>) -> bool {
        ((((self.0, self.1), self.2), self.3), self.4).resolves(m)
    }

    open spec fn taken(m: Map<TypeKey, Slot>) -> Map<TypeKey, Slot> {
        <((((A, B), C), D), E) as FromTypeMap>::taken(m)
    }

    open spec fn released(self, m: Map<TypeKey, Slot>) -> Map<TypeKey, Slot> {
        ((((self.0, self.1), self.2), self.3), self.4).released(m)
    }

    open spec fn resolution_error(m: Map<TypeKey, Slot>) -> Error {
        <((((A, B), C), D), E) as FromTypeMap>::resolution_error(m)
    }

    open spec fn valid(self) -> bool {
        ((((self.0, self.1), self.2), self.3), self.4).valid()
    }

    fn from_type_map(tm: &mut TypeMap) -> (r: Result<Self, Error>) {
        match <((((A, B), C), D), E) as FromTypeMap>::from_type_map(tm) {
            Ok(((((a, b), c), d), e)) => Ok((a, b, c, d, e)),
            Err(e) => Err(e),
        }
    }

    fn release(self, tm: &mut TypeMap) {
        let (a, b, c, d, e) = self;
        ((((a, b), c), d), e).release(tm);
    }

    proof fn release_after_take(self, m: Map<TypeKey, Slot>) {
        ((((self.0, self.1), self.2), self.3), self.4).release_after_take(m);
    }
}

impl<A: FromTypeMap, B: FromTypeMap, C: FromTypeMap, D: FromTypeMap, E: FromTypeMap, F: FromTypeMap> FromTypeMap for (A, B, C, D, E, F) {
    open spec fn resolvable(m: Map<TypeKey, Slot>) -> bool {
        <(((((A, B), C), D), E), F) as FromTypeMap>::resolvable(m)
    }

    open spec fn resolves(self, m: Map<TypeKey, Slot>) -> bool {
        (((((self.0, self.1), self.2), self.3), self.4), self.5).resolves(m)
    }

    open spec fn taken(m: Map<TypeKey, Slot>) -> Map<TypeKey, Slot> {
        <(((((A, B), C), D), E), F) as FromTypeMap>::taken(m)
    }

    open spec fn released(self, m: Map<TypeKey, Slot>) -> Map<TypeKey, Slot> {
        (((((self.0, self.1), self.2), self.3), self.4), self.5).released(m)
    }

    open spec fn resolution_error(m: Map<TypeKey, Slot>) -> Error {
        <(((((A, B), C), D), E), F) as FromTypeMap>::resolution_error(m)
    }

    open spec fn valid(self) -> bool {
        (((((self.0, self.1), self.2), self.3), self.4), self.5).valid()
    }

    fn from_type_map(tm: &mut TypeMap) -> (r: Result<Self, Error>) {
        match <(((((A, B), C), D), E), F) as FromTypeMap>::from_type_map(tm) {
            Ok((((((a, b), c), d), e), f)) => Ok((a, b, c, d, e, f)),
            Err(e) => Err(e),
        }
    }

    fn release(self, tm: &mut TypeMap) {
        let (a, b, c, d, e, f) = self;
        (((((a, b), c), d), e), f).release(tm);
    }

    proof fn release_after_take(self, m: Map<TypeKey, Slot>) {
        (((((self.0, self.1), self.2), self.3), self.4), self.5).release_after_take(m);
    }
}

impl<A: FromTypeMap, B: FromTypeMap, C: FromTypeMap, D: FromTypeMap, E: FromTypeMap, F: FromTypeMap, G: FromTypeMap> FromTypeMap for (A, B, C, D, E, F, G) {
    open spec fn resolvable(m: Map<TypeKey, Slot>) -> bool {
        <((((((A, B), C), D), E), F), G) as FromTypeMap>::resolvable(m)
    }

    open spec fn resolves(self, m: Map<TypeKey, Slot>) -> bool {
        ((((((self.0, self.1), self.2), self.3), self.4), self.5), self.6).resolves(m)
    }

    open spec fn taken(m: Map<TypeKey, Slot>) -> Map<TypeKey, Slot> {
        <((((((A, B), C), D), E), F), G) as FromTypeMap>::taken(m)
    }

    open spec fn released(self, m: Map<TypeKey, Slot>) -> Map<TypeKey, Slot> {
        ((((((self.0, self.1), self.2), self.3), self.4), self.5), self.6).released(m)
    }

    open spec fn resolution_error(m: Map<TypeKey, Slot>) -> Error {
        <((((((A, B), C), D), E), F), G) as FromTypeMap>::resolution_error(m)
    }

    open spec fn valid(self) -> bool {
        ((((((self.0, self.1), self.2), self.3), self.4), self.5), self.6).valid()
    }

    fn from_type_map(tm: &mut TypeMap) -> (r: Result<Self, Error>) {
        match <((((((A, B), C), D), E), F), G) as FromTypeMap>::from_type_map(tm) {
            Ok(((((((a, b), c), d), e), f), g)) => Ok((a, b, c, d, e, f, g)),
            Err(e) => Err(e),
        }
    }

    fn release(self, tm: &mut TypeMap) {
        let (a, b, c, d, e, f, g) = self;
        ((((((a, b), c), d), e), f), g).release(tm);
    }

    proof fn release_after_take(self, m: Map<TypeKey, Slot>) {
        ((((((self.0, self.1), self.2), self.3), self.4), self.5), self.6).release_after_take(m);
    }
}

impl<A: FromTypeMap, B: FromTypeMap, C: FromTypeMap, D: FromTypeMap, E: FromTypeMap, F: FromTypeMap, G: FromTypeMap, H: FromTypeMap> FromTypeMap for (A, B, C, D, E, F, G, H) {
    open spec fn resolvable(m: Map<TypeKey, Slot>) -> bool {
        <(((((((A, B), C), D), E), F), G), H) as FromTypeMap>::resolvable(m)
    }

    open spec fn resolves(self, m: Map<TypeKey, Slot>) -> bool {
        (((((((self.0, self.1), self.2), self.3), self.4), self.5), self.6), self.7).resolves(m)
    }

    open spec fn taken(m: Map<TypeKey, Slot>) -> Map<TypeKey, Slot> {
        <(((((((A, B), C), D), E), F), G), H) as FromTypeMap>::taken(m)
    }

    open spec fn released(self, m: Map<TypeKey, Slot>) -> Map<TypeKey, Slot> {
        (((((((self.0, self.1), self.2), self.3), self.4), self.5), self.6), self.7).released(m)
    }

    open spec fn resolution_error(m: Map<TypeKey, Slot>) -> Error {
        <(((((((A, B), C), D), E), F), G), H) as FromTypeMap>::resolution_error(m)
    }

    open spec fn valid(self) -> bool {
        (((((((self.0, self.1), self.2), self.3), self.4), self.5), self.6), self.7).valid()
    }

    fn from_type_map(tm: &mut TypeMap) -> (r: Result<Self, Error>) {
        match <(((((((A, B), C), D), E), F), G), H) as FromTypeMap>::from_type_map(tm) {
            Ok((((((((a, b), c), d), e), f), g), h)) => Ok((a, b, c, d, e, f, g, h)),
            Err(e) => Err(e),
        }
    }

    fn release(self, tm: &mut TypeMap) {
        let (a, b, c, d, e, f, g, h) = self;
        (((((((a, b), c), d), e), f), g), h).release(tm);
    }

    proof fn release_after_take(self, m: Map<TypeKey, Slot>) {
        (((((((self.0, self.1), self.2), self.3), self.4), self.5), self.6), self.7).release_after_take(m);
    }
}

impl<A: FromTypeMap, B: FromTypeMap, C: FromTypeMap, D: FromTypeMap, E: FromTypeMap, F: FromTypeMap, G: FromTypeMap, H: FromTypeMap, I: FromTypeMap> FromTypeMap for (A, B, C, D, E, F, G, H, I) {
    open spec fn resolvable(m: Map<TypeKey, Slot>) -> bool {
        <((((((((A, B), C), D), E), F), G), H), I) as FromTypeMap>::resolvable(m)
    }

    open spec fn resolves(self, m: Map<TypeKey, Slot>) -> bool {
        ((((((((self.0, self.1), self.2), self.3), self.4), self.5), self.6), self.7), self.8).resolves(m)
    }

    open spec fn taken(m: Map<TypeKey, Slot>) -> Map<TypeKey, Slot> {
        <((((((((A, B), C), D), E), F), G), H), I) as FromTypeMap>::taken(m)
    }

    open spec fn released(self, m: Map<TypeKey, Slot>) -> Map<TypeKey, Slot> {
        ((((((((self.0, self.1), self.2), self.3), self.4), self.5), self.6), self.7), self.8).released(m)
    }

    open spec fn resolution_error(m: Map<TypeKey, Slot>) -> Error {
        <((((((((A, B), C), D), E), F), G), H), I) as FromTypeMap>::resolution_error(m)
    }

    open spec fn valid(self) -> bool {
        ((((((((self.0, self.1), self.2), self.3), self.4), self.5), self.6), self.7), self.8).valid()
    }

    fn from_type_map(tm: &mut TypeMap) -> (r: Result<Self, Error>) {
        match <((((((((A, B), C), D), E), F), G), H), I) as FromTypeMap>::from_type_map(tm) {
            Ok(((((((((a, b), c), d), e), f), g), h), i)) => Ok((a, b, c, d, e, f, g, h, i)),
            Err(e) => Err(e),
        }
    }

    fn release(self, tm: &mut TypeMap) {
        let (a, b, c, d, e, f, g, h, i) = self;
        ((((((((a, b), c), d), e), f), g), h), i).release(tm);
    }

    proof fn release_after_take(self, m: Map<TypeKey, Slot>) {
        ((((((((self.0, self.1), self.2), self.3), self.4), self.5), self.6), self.7), self.8).release_after_take(m);
    }
}

impl<A: FromTypeMap, B: FromTypeMap, C: FromTypeMap, D: FromTypeMap, E: FromTypeMap, F: FromTypeMap, G: FromTypeMap, H: FromTypeMap, I: FromTypeMap, J: FromTypeMap> FromTypeMap for (A, B, C, D, E, F, G, H, I, J) {
    open spec fn resolvable(m: Map<TypeKey, Slot>) -> bool {
        <(((((((((A, B), C), D), E), F), G), H), I), J) as FromTypeMap>::resolvable(m)
    }

    open spec fn resolves(self, m: Map<TypeKey, Slot>) -> bool {
        (((((((((self.0, self.1), self.2), self.3), self.4), self.5), self.6), self.7), self.8), self.9).resolves(m)
    }

    open spec fn taken(m: Map<TypeKey, Slot>) -> Map<TypeKey, Slot> {
        <(((((((((A, B), C), D), E), F), G), H), I), J) as FromTypeMap>::taken(m)
    }

    open spec fn released(self, m: Map<TypeKey, Slot>) -> Map<TypeKey, Slot> {
        (((((((((self.0, self.1), self.2), self.3), self.4), self.5), self.6), self.7), self.8), self.9).released(m)
    }

    open spec fn resolution_error(m: Map<TypeKey, Slot>) -> Error {
        <(((((((((A, B), C), D), E), F), G), H), I), J) as FromTypeMap>::resolution_error(m)
    }

    open spec fn valid(self) -> bool {
        (((((((((self.0, self.1), self.2), self.3), self.4), self.5), self.6), self.7), self.8), self.9).valid()
    }

    fn from_type_map(tm: &mut TypeMap) -> (r: Result<Self, Error>) {
        match <(((((((((A, B), C), D), E), F), G), H), I), J) as FromTypeMap>::from_type_map(tm) {
            Ok((((((((((a, b), c), d), e), f), g), h), i), j)) => Ok((a, b, c, d, e, f, g, h, i, j)),
            Err(e) => Err(e),
        }
    }

    fn release(self, tm: &mut TypeMap) {
        let (a, b, c, d, e, f, g, h, i, j) = self;
        (((((((((a, b), c), d), e), f), g), h), i), j).release(tm);
    }

    proof fn release_after_take(self, m: Map<TypeKey, Slot>) {
        (((((((((self.0, self.1), self.2), self.3), self.4), self.5), self.6), self.7), self.8), self.9).release_after_take(m);
    }
}

impl<A: FromTypeMap, B: FromTypeMap, C: FromTypeMap, D: FromTypeMap, E: FromTypeMap, F: FromTypeMap, G: FromTypeMap, H: FromTypeMap, I: FromTypeMap, J: FromTypeMap, K: FromTypeMap> FromTypeMap for (A, B, C, D, E, F, G, H, I, J, K) {
    open spec fn resolvable(m: Map<TypeKey, Slot>) -> bool {
        <((((((((((A, B), C), D), E), F), G), H), I), J), K) as FromTypeMap>::resolvable(m)
    }

    open spec fn resolves(self, m: Map<TypeKey, Slot>) -> bool {
        ((((((((((self.0, self.1), self.2), self.3), self.4), self.5), self.6), self.7), self.8), self.9), self.10).resolves(m)
    }

    open spec fn taken(m: Map<TypeKey, Slot>) -> Map<TypeKey, Slot> {
        <((((((((((A, B), C), D), E), F), G), H), I), J), K) as FromTypeMap>::taken(m)
    }

    open spec fn released(self, m: Map<TypeKey, Slot>) -> Map<TypeKey, Slot> {
        ((((((((((self.0, self.1), self.2), self.3), self.4), self.5), self.6), self.7), self.8), self.9), self.10).released(m)
    }

    open spec fn resolution_error(m: Map<TypeKey, Slot>) -> Error {
        <((((((((((A, B), C), D), E), F), G), H), I), J), K) as FromTypeMap>::resolution_error(m)
    }

    open spec fn valid(self) -> bool {
        ((((((((((self.0, self.1), self.2), self.3), self.4), self.5), self.6), self.7), self.8), self.9), self.10).valid()
    }

    fn from_type_map(tm: &mut TypeMap) -> (r: Result<Self, Error>) {
        match <((((((((((A, B), C), D), E), F), G), H), I), J), K) as FromTypeMap>::from_type_map(tm) {
            Ok(((((((((((a, b), c), d), e), f), g), h), i), j), k)) => Ok((a, b, c, d, e, f, g, h, i, j, k)),
            Err(e) => Err(e),
        }
    }

    fn release(self, tm: &mut TypeMap) {
        let (a, b, c, d, e, f, g, h, i, j, k) = self;
        ((((((((((a, b), c), d), e), f), g), h), i), j), k).release(tm);
    }

    proof fn release_after_take(self, m: Map<TypeKey, Slot>) {
        ((((((((((self.0, self.1), self.2), self.3), self.4), self.5), self.6), self.7), self.8), self.9), self.10).release_after_take(m);
    }
}

impl<A: FromTypeMap, B: FromTypeMap, C: FromTypeMap, D: FromTypeMap, E: FromTypeMap, F: FromTypeMap, G: FromTypeMap, H: FromTypeMap, I: FromTypeMap, J: FromTypeMap, K: FromTypeMap, L: FromTypeMap> FromTypeMap for (A, B, C, D, E, F, G, H, I, J, K, L) {
    open spec fn resolvable(m: Map<TypeKey, Slot>) -> bool {
        <(((((((((((A, B), C), D), E), F), G), H), I), J), K), L) as FromTypeMap>::resolvable(m)
    }

    open spec fn resolves(self, m: Map<TypeKey, Slot>) -> bool {
        (((((((((((self.0, self.1), self.2), self.3), self.4), self.5), self.6), self.7), self.8), self.9), self.10), self.11).resolves(m)
    }

    open spec fn taken(m: Map<TypeKey, Slot>) -> Map<TypeKey, Slot> {
        <(((((((((((A, B), C), D), E), F), G), H), I), J), K), L) as FromTypeMap>::taken(m)
    }

    open spec fn released(self, m: Map<TypeKey, Slot>) -> Map<TypeKey, Slot> {
        (((((((((((self.0, self.1), self.2), self.3), self.4), self.5), self.6), self.7), self.8), self.9), self.10), self.11).released(m)
    }

    open spec fn resolution_error(m: Map<TypeKey, Slot>) -> Error {
        <(((((((((((A, B), C), D), E), F), G), H), I), J), K), L) as FromTypeMap>::resolution_error(m)
    }

    open spec fn valid(self) -> bool {
        (((((((((((self.0, self.1), self.2), self.3), self.4), self.5), self.6), self.7), self.8), self.9), self.10), self.11).valid()
    }

    fn from_type_map(tm: &mut TypeMap) -> (r: Result<Self, Error>) {
        match <(((((((((((A, B), C), D), E), F), G), H), I), J), K), L) as FromTypeMap>::from_type_map(tm) {
            Ok((((((((((((a, b), c), d), e), f), g), h), i), j), k), l)) => Ok((a, b, c, d, e, f, g, h, i, j, k, l)),
            Err(e) => Err(e),
        }
    }

    fn release(self, tm: &mut TypeMap) {
        let (a, b, c, d, e, f, g, h, i, j, k, l) = self;
        (((((((((((a, b), c), d), e), f), g), h), i), j), k), l).release(tm);
    }

    proof fn release_after_take(self, m: Map<TypeKey, Slot>) {
        (((((((((((self.0, self.1), self.2), self.3), self.4), self.5), self.6), self.7), self.8), self.9), self.10), self.11).release_after_take(m);
    }
}

} // verus!
