//! Enumerable key types: what a key type supplies, and what is asked of it.

use vstd::prelude::*;

verus! {

/// A type whose values form a small, fixed set, listed in one canonical order.
///
/// The two executable methods carry no contract here, so that any type can
/// implement the trait. What a well-behaved implementation does is stated once,
/// by [`enumerable`], and the map asks for it wherever it relies on it.
///
/// The two ghost functions name the listing and the position of a key in it.
/// An implementation that is itself verified overrides them with the concrete
/// listing and proves [`enumerable`] of it, as the one for `bool` below does.
/// Any other implementation is left with the defaults: whatever `values` hands
/// out, and the position of a key in that.
pub trait EnumKey: Copy + 'static {
    /// Every value of the type, each exactly once, in canonical order.
    fn values() -> &'static [Self];

    /// The zero-based position of `self` in the canonical order.
    fn as_usize(&self) -> usize;

    /// The canonical listing.
    open spec fn variants() -> Seq<Self> {
        choose|s: Seq<Self>| yields_only(Self::values, s)
    }

    /// The position of `self` in the canonical listing.
    open spec fn ordinal(&self) -> int {
        Self::variants().index_of(*self)
    }
}

/// Whatever slice `f` returns, it holds exactly the elements of `s`, in order.
pub open spec fn yields_only<T: 'static, F: Fn() -> &'static [T]>(f: F, s: Seq<T>) -> bool {
    forall|r: &'static [T]| call_ensures(f, (), r) ==> r@ == s
}

/// `K` is a well-formed key type:
/// - `ordinal` is a bijection between the values of `K` and the positions of
///   `variants()`, and it gives each key the position at which it is listed;
/// - `values()` hands out `variants()`, on every call;
/// - `as_usize()` computes `ordinal()`.
///
/// A key type that breaks this must not be used with the map: the map looks
/// slots up by `as_usize()` without clamping, so an ordinal out of range would
/// stop the program at once.
pub open spec fn enumerable<K: EnumKey>() -> bool {
    &&& forall|k: K|
        0 <= #[trigger] k.ordinal() < K::variants().len() && K::variants()[k.ordinal()] == k
    &&& forall|i: int|
        0 <= i < K::variants().len() ==> (#[trigger] K::variants()[i]).ordinal() == i
    &&& forall|r: &'static [K]| #[trigger] call_ensures(K::values, (), r) ==> r@ == K::variants()
    &&& forall|k: K, i: usize| #[trigger]
        call_ensures(K::as_usize, (&k,), i) ==> i == k.ordinal()
}

/// Two keys with the same ordinal are the same key.
pub proof fn lemma_ordinal_injective<K: EnumKey>(a: K, b: K)
    requires
        enumerable::<K>(),
        a.ordinal() == b.ordinal(),
    ensures
        a == b,
{
    assert(K::variants()[a.ordinal()] == a);
    assert(K::variants()[b.ordinal()] == b);
}

/// The canonical listing names every key exactly once.
pub proof fn lemma_variants_cover<K: EnumKey>()
    requires
        enumerable::<K>(),
    ensures
        K::variants().no_duplicates(),
        forall|k: K| K::variants().contains(k),
{
    let s = K::variants();
    assert forall|i: int, j: int| 0 <= i < s.len() && 0 <= j < s.len() && i != j implies s[i]
        != s[j] by {
        assert(s[i].ordinal() == i);
        assert(s[j].ordinal() == j);
    }
    assert forall|k: K| s.contains(k) by {
        assert(s[k.ordinal()] == k);
    }
}

/// The canonical listing of `K`, as the key type hands it out.
pub fn variant_list<K: EnumKey>() -> (r: &'static [K])
    requires
        enumerable::<K>(),
    ensures
        r@ == K::variants(),
        K::variants().len() <= usize::MAX,
{
    let r = K::values();
    assert(r@.len() == r.len());
    r
}

/// The slot that belongs to `k`.
pub fn ordinal_of<K: EnumKey>(k: &K) -> (i: usize)
    requires
        enumerable::<K>(),
    ensures
        i == k.ordinal(),
        i < K::variants().len(),
{
    k.as_usize()
}

/// `bool` as a key: `false`, then `true`.
impl EnumKey for bool {
    fn values() -> (r: &'static [bool])
        ensures
            r@ == Self::variants(),
    {
        &[false, true]
    }

    fn as_usize(&self) -> (i: usize)
        ensures
            i == self.ordinal(),
    {
        if *self {
            1
        } else {
            0
        }
    }

    open spec fn variants() -> Seq<bool> {
        seq![false, true]
    }

    open spec fn ordinal(&self) -> int {
        if *self {
            1
        } else {
            0
        }
    }
}

/// `bool` is a well-formed key type.
pub proof fn lemma_bool_enumerable()
    ensures
        enumerable::<bool>(),
{
}

} // verus!
