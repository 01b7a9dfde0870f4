//! What holds across several operations of the map.

use crate::enum_map::{built_by, built_by_ref, EnumMap, EnumMapIter};
use crate::key::{enumerable, EnumKey};
use vstd::prelude::*;
use vstd::std_specs::cmp::PartialEqSpec;

verus! {

/// `factory` gives one result for each key, whenever it is asked.
pub open spec fn deterministic<K, V, F: Fn(K) -> V>(factory: F) -> bool {
    forall|k: K, v: V, w: V|
        call_ensures(factory, (k,), v) && call_ensures(factory, (k,), w) ==> v == w
}

/// A map built by `factory` holds, for every key, a result of `factory` on
/// that key.
pub proof fn lemma_built_by_key<K: EnumKey, V, F: Fn(K) -> V>(m: EnumMap<K, V>, factory: F, k: K)
    requires
        enumerable::<K>(),
        built_by(m@, factory),
    ensures
        m.wf(),
        call_ensures(factory, (k,), m[k]),
{
    assert(K::variants()[k.ordinal()] == k);
}

/// Writing `v` under `k` makes `k` read as `v` and leaves every other key as
/// it was.
pub proof fn lemma_write_then_read<K: EnumKey, V>(
    before: EnumMap<K, V>,
    after: EnumMap<K, V>,
    k: K,
    v: V,
    other: K,
)
    requires
        before.wf(),
        after@ == before@.update(k.ordinal(), v),
    ensures
        after.wf(),
        after[k] == v,
        other != k ==> after[other] == before[other],
{
    if other != k && other.ordinal() == k.ordinal() {
        crate::key::lemma_ordinal_injective(other, k);
    }
}

/// A pass over a map hands out one pair per variant, in canonical order, and
/// each pair is a key with the value that the map holds for it.
pub proof fn lemma_iterate<'a, K: EnumKey, V>(m: &'a EnumMap<K, V>, it: EnumMapIter<'a, K, V>)
    requires
        m.wf(),
        it.slots() == m@,
        it.cursor() == 0,
    ensures
        it.pairs().len() == K::variants().len(),
        forall|i: int|
            0 <= i < K::variants().len() ==> #[trigger] it.pairs()[i] == (
                K::variants()[i],
                &m[K::variants()[i]],
            ),
        forall|k: K| #[trigger] it.pairs()[k.ordinal()] == (k, &m[k]),
{
}

/// After a reset by `factory`, a pass hands out, for every variant in
/// canonical order, that variant with a result of `factory` on it.
pub proof fn lemma_reset_then_iterate<'a, K: EnumKey, V, F: Fn(&K) -> V>(
    m: &'a EnumMap<K, V>,
    factory: F,
    it: EnumMapIter<'a, K, V>,
)
    requires
        enumerable::<K>(),
        built_by_ref(m@, factory),
        it.slots() == m@,
        it.cursor() == 0,
    ensures
        it.pairs().len() == K::variants().len(),
        forall|i: int|
            #![trigger it.pairs()[i]]
            0 <= i < K::variants().len() ==> {
                &&& it.pairs()[i].0 == K::variants()[i]
                &&& call_ensures(factory, (&K::variants()[i],), *it.pairs()[i].1)
            },
{
}

/// Two maps built by one factory that gives one result per key hold the same
/// values.
pub proof fn lemma_same_factory_same_map<K: EnumKey, V, F: Fn(K) -> V>(
    a: EnumMap<K, V>,
    b: EnumMap<K, V>,
    factory: F,
)
    requires
        enumerable::<K>(),
        deterministic::<K, V, F>(factory),
        built_by(a@, factory),
        built_by(b@, factory),
    ensures
        a@ == b@,
{
    assert(a@ =~= b@);
}

/// Two maps built by factories that cannot agree on the key `k` differ, and
/// they differ at `k`.
pub proof fn lemma_differing_factories_differing_maps<K: EnumKey, V, F: Fn(K) -> V, G: Fn(K) -> V>(
    a: EnumMap<K, V>,
    b: EnumMap<K, V>,
    first: F,
    second: G,
    k: K,
)
    requires
        enumerable::<K>(),
        built_by(a@, first),
        built_by(b@, second),
        forall|v: V, w: V| call_ensures(first, (k,), v) && call_ensures(second, (k,), w) ==> v != w,
    ensures
        a[k] != b[k],
        a@ != b@,
{
    lemma_built_by_key(a, first, k);
    lemma_built_by_key(b, second, k);
}

/// Where `==` on the values is equality, `==` on maps is equality of what
/// they hold.
pub proof fn lemma_eq_is_structural<K: EnumKey, V: PartialEq>(a: EnumMap<K, V>, b: EnumMap<K, V>)
    requires
        forall|v: V, w: V| #[trigger] v.eq_spec(&w) <==> v == w,
    ensures
        a.eq_spec(&b) <==> a@ == b@,
{
    if a.eq_spec(&b) {
        assert forall|i: int| 0 <= i < a@.len() implies a@[i] == b@[i] by {
            assert(a@[i].eq_spec(&b@[i]));
        }
        assert(a@ =~= b@);
    }
    if a@ == b@ {
        assert forall|i: int| 0 <= i < a@.len() implies #[trigger] a@[i].eq_spec(&b@[i]) by {}
    }
}

} // verus!
