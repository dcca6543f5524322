//! The container's laws: properties that relate several operations, stated
//! over the store model and the resolution protocol's spec functions and
//! proved once for all payload types and values.

use vstd::prelude::*;

use crate::data::Data;
use crate::data::DataMut;
use crate::data::guard_release_spec;
use crate::resolve::FromTypeMap;
use crate::store::Error;
use crate::store::Slot;
use crate::store::TypeKey;
use crate::store::exclusive_key;
use crate::store::plain_key;
use crate::store::shared_key;
use crate::value::Storable;

verus! {

/// Bind/get round trip: after `bind(v)`, the store maps `T`'s plain key to
/// the erasure of `v` and nothing else, so any value that `get` can then
/// return — its contract says the key maps to that value's erasure — equals
/// `v`.
pub proof fn lemma_bind_get_round_trip<T: Storable>(m: Map<TypeKey, Slot>, v: T, t: T)
    requires
        m.insert(plain_key::<T>(), Slot::Full(T::wrap(v)))[plain_key::<T>()] == Slot::Full(
            T::wrap(t),
        ),
    ensures
        t == v,
{
    v.unwrap_wrap();
    t.unwrap_wrap();
}

/// Rebind replaces: binding `v1` and then `v2` under one type leaves the
/// store exactly as binding only `v2` would have — no trace of `v1` remains
/// in the model.
pub proof fn lemma_rebind_replaces<T: Storable>(m: Map<TypeKey, Slot>, v1: T, v2: T)
    ensures
        m.insert(plain_key::<T>(), Slot::Full(T::wrap(v1))).insert(
            plain_key::<T>(),
            Slot::Full(T::wrap(v2)),
        ) == m.insert(plain_key::<T>(), Slot::Full(T::wrap(v2))),
{
    assert(m.insert(plain_key::<T>(), Slot::Full(T::wrap(v1))).insert(
        plain_key::<T>(),
        Slot::Full(T::wrap(v2)),
    ) =~= m.insert(plain_key::<T>(), Slot::Full(T::wrap(v2))));
}

/// Miss is absence: a fresh store binds nothing, so `get` for any type — its
/// contract forces `None` exactly on absent keys — returns `None` rather
/// than failing.
pub proof fn lemma_fresh_store_misses<T: Storable>()
    ensures
        !Map::<TypeKey, Slot>::empty().contains_key(plain_key::<T>()),
{
}

/// Shared wrapper immutability: handles equal as values — as a clone is to
/// its original — read equal values, and no operation on a shared handle
/// mutates the value it wraps.
pub proof fn lemma_clones_read_equal<T: Storable>(d1: Data<T>, d2: Data<T>)
    requires
        d2 == d1,
    ensures
        d2@ == d1@,
{
}

/// Exclusive mutation visibility: resolve the guard for `T`, set it to `v2`,
/// release it; the store then binds `v2` under `T`'s exclusive key, and a
/// fresh resolution sees exactly `v2`.
pub proof fn lemma_exclusive_mutation_visible<T: Storable>(m: Map<TypeKey, Slot>, v2: T)
    requires
        <DataMut<T> as FromTypeMap>::resolvable(m),
    ensures
        ({
            let after = guard_release_spec::<T>(<DataMut<T> as FromTypeMap>::taken(m), v2);
            &&& <DataMut<T> as FromTypeMap>::resolvable(after)
            &&& after[exclusive_key::<T>()] == Slot::Full(T::wrap(v2))
        }),
{
}

/// Exclusive access mutual exclusion: while one guard for `T` is live its key
/// is held out, so a second resolution of a guard for `T` cannot succeed; it
/// fails with `LockUnusable` until the first guard is released.
pub proof fn lemma_exclusive_guards_exclude<T: Storable>(m: Map<TypeKey, Slot>)
    requires
        <DataMut<T> as FromTypeMap>::resolvable(m),
    ensures
        !<DataMut<T> as FromTypeMap>::resolvable(<DataMut<T> as FromTypeMap>::taken(m)),
        <DataMut<T> as FromTypeMap>::resolution_error(<DataMut<T> as FromTypeMap>::taken(m))
            == Error::LockUnusable,
{
}

/// Mixed-parameter resolution: a pair of one shared and one exclusive
/// parameter resolves each element from its own binding — the shared handle
/// wraps the value bound under the first type's shared key, the guard the
/// value bound under the second type's exclusive key.
pub proof fn lemma_mixed_pair_resolves_each<T1: Storable, T2: Storable>(
    m: Map<TypeKey, Slot>,
    d: Data<T1>,
    g: DataMut<T2>,
)
    requires
        <(Data<T1>, DataMut<T2>) as FromTypeMap>::resolvable(m),
        (d, g).resolves(m),
    ensures
        m[shared_key::<T1>()] == Slot::Full(T1::wrap(d@)),
        m[exclusive_key::<T2>()] == Slot::Full(T2::wrap(g@)),
{
}

/// Positional resolution of two exclusive parameters of distinct types: each
/// guard holds exactly the value bound under its own type's key, neither
/// disturbed by the other's acquisition.
pub proof fn lemma_two_exclusive_params_resolve_each<T1: Storable, T2: Storable>(
    m: Map<TypeKey, Slot>,
    g1: DataMut<T1>,
    g2: DataMut<T2>,
)
    requires
        T1::tag() != T2::tag(),
        <(DataMut<T1>, DataMut<T2>) as FromTypeMap>::resolvable(m),
        (g1, g2).resolves(m),
    ensures
        m[exclusive_key::<T1>()] == Slot::Full(T1::wrap(g1@)),
        m[exclusive_key::<T2>()] == Slot::Full(T2::wrap(g2@)),
{
    assert(exclusive_key::<T1>() != exclusive_key::<T2>());
}

/// Releasing a guard restores the store it was taken from: with the guard's
/// value unchanged, acquisition followed by release is no net change.
pub proof fn lemma_release_restores<T: Storable>(m: Map<TypeKey, Slot>, g: DataMut<T>)
    requires
        <DataMut<T> as FromTypeMap>::resolvable(m),
        g.resolves(m),
        g.wf(),
    ensures
        g.released(<DataMut<T> as FromTypeMap>::taken(m)) == m,
{
    g.release_after_take(m);
}

} // verus!
