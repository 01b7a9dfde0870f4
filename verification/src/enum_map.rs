//! The container: one slot per variant of the key type.

use crate::key::{enumerable, ordinal_of, variant_list, EnumKey};
use core::marker::PhantomData;
use core::ops::{Index, IndexMut};
use vstd::prelude::*;
use vstd::std_specs::cmp::{PartialEqSpec, PartialEqSpecImpl};

verus! {

/// A map from every variant of `K` to a value of type `V`.
///
/// The values lie in one vector; the slot at position `i` belongs to the
/// variant at position `i` of `K::variants()`, for as long as the map lives.
#[derive(Debug)]
pub struct EnumMap<K, V> {
    data: Vec<V>,
    phantom: PhantomData<K>,
}

impl<K, V> View for EnumMap<K, V> {
    type V = Seq<V>;

    /// The values, in the canonical order of their keys.
    closed spec fn view(&self) -> Seq<V> {
        self.data@
    }
}

/// `s` holds, slot by slot, a result of `factory` on the variant of that slot.
pub open spec fn built_by<K: EnumKey, V, F: Fn(K) -> V>(s: Seq<V>, factory: F) -> bool {
    &&& s.len() == K::variants().len()
    &&& forall|i: int|
        0 <= i < s.len() ==> call_ensures(factory, (K::variants()[i],), #[trigger] s[i])
}

/// As [`built_by`], for a factory that looks at the variant through a reference.
pub open spec fn built_by_ref<K: EnumKey, V, F: Fn(&K) -> V>(s: Seq<V>, factory: F) -> bool {
    &&& s.len() == K::variants().len()
    &&& forall|i: int|
        0 <= i < s.len() ==> call_ensures(factory, (&K::variants()[i],), #[trigger] s[i])
}

impl<K: EnumKey, V> EnumMap<K, V> {
    /// The key type is well-formed and there is exactly one slot per variant.
    pub open spec fn wf(&self) -> bool {
        &&& enumerable::<K>()
        &&& self@.len() == K::variants().len()
    }

    /// The value stored for `k`.
    pub open spec fn spec_index(&self, k: K) -> V {
        self@[k.ordinal()]
    }

    /// Builds a map whose value for each variant is what `factory` returns for it.
    pub fn new<F>(factory: F) -> (m: EnumMap<K, V>) where F: Fn(K) -> V
        requires
            enumerable::<K>(),
            forall|k: K| call_requires(factory, (k,)),
        ensures
            m.wf(),
            built_by(m@, factory),
            forall|k: K| call_ensures(factory, (k,), #[trigger] m[k]),
    {
        let keys = variant_list::<K>();
        let mut data: Vec<V> = Vec::new();
        let mut i: usize = 0;
        while i < keys.len()
            invariant
                keys@ == K::variants(),
                i <= keys.len(),
                data@.len() == i,
                forall|k: K| call_requires(factory, (k,)),
                forall|j: int| 0 <= j < i ==> call_ensures(factory, (keys@[j],), #[trigger] data@[j]),
            decreases keys.len() - i,
        {
            let v = factory(keys[i]);
            data.push(v);
            i += 1;
        }
        EnumMap { data, phantom: PhantomData }
    }

    /// Replaces every value by what `factory` returns for its variant.
    pub fn set_all<F>(&mut self, factory: F) where F: Fn(&K) -> V
        requires
            enumerable::<K>(),
            forall|k: K| call_requires(factory, (&k,)),
        ensures
            final(self).wf(),
            built_by_ref(final(self)@, factory),
            forall|k: K| call_ensures(factory, (&k,), #[trigger] final(self)[k]),
    {
        let keys = variant_list::<K>();
        let mut data: Vec<V> = Vec::new();
        let mut i: usize = 0;
        while i < keys.len()
            invariant
                keys@ == K::variants(),
                i <= keys.len(),
                data@.len() == i,
                forall|k: K| call_requires(factory, (&k,)),
                forall|j: int|
                    0 <= j < i ==> call_ensures(factory, (&keys@[j],), #[trigger] data@[j]),
            decreases keys.len() - i,
        {
            let v = factory(&keys[i]);
            data.push(v);
            i += 1;
        }
        self.data = data;
    }

    /// A pass over the pairs of the map, in canonical order.
    pub fn iter(&self) -> (it: EnumMapIter<'_, K, V>)
        requires
            self.wf(),
        ensures
            it.slots() == self@,
            it.cursor() == 0,
            it.pairs().len() == K::variants().len(),
            forall|i: int|
                0 <= i < K::variants().len() ==> #[trigger] it.pairs()[i] == (
                    K::variants()[i],
                    &self[K::variants()[i]],
                ),
    {
        EnumMapIter { map: self, curr: 0 }
    }

    /// An exclusive pass over the slots of the map, in canonical order.
    ///
    /// When the pass and the references it handed out are gone, the map holds
    /// what was last written through each of them.
    pub fn iter_mut(&mut self) -> (it: EnumMapIterMut<'_, K, V>)
        requires
            old(self).wf(),
        ensures
            it.cursor() == 0,
            it.unvisited()@ == old(self)@,
            final(self)@ == final(it.unvisited())@,
    {
        EnumMapIterMut { rest: self.data.as_mut_slice(), curr: 0, phantom: PhantomData }
    }
}

impl<K: EnumKey, V> Index<K> for EnumMap<K, V> {
    type Output = V;

    /// The value stored for `index`.
    fn index(&self, index: K) -> (r: &V)
        ensures
            *r == self[index],
    {
        &self.data[ordinal_of(&index)]
    }
}

impl<K: EnumKey, V> vstd::std_specs::core::IndexSpecImpl<K> for EnumMap<K, V> {
    open spec fn index_req(&self, index: &K) -> bool {
        self.wf()
    }
}

impl<K: EnumKey, V> IndexMut<K> for EnumMap<K, V> {
    /// The slot of `index`, for writing. Only that slot can change.
    fn index_mut(&mut self, index: K) -> (r: &mut V)
        requires
            old(self).wf(),
        ensures
            *r == old(self)[index],
            final(self)@ == old(self)@.update(index.ordinal(), *final(r)),
            final(self).wf(),
            final(self)[index] == *final(r),
            forall|other: K| other != index ==> #[trigger] final(self)[other] == old(self)[other],
    {
        proof {
            assert forall|other: K| other != index implies other.ordinal() != index.ordinal() by {
                if other.ordinal() == index.ordinal() {
                    crate::key::lemma_ordinal_injective(other, index);
                }
            }
        }
        &mut self.data[ordinal_of(&index)]
    }
}

impl<'k, K: EnumKey, V> Index<&'k K> for EnumMap<K, V> {
    type Output = V;

    /// The value stored for `index`.
    fn index(&self, index: &'k K) -> (r: &V)
        ensures
            *r == self[*index],
    {
        &self.data[ordinal_of(index)]
    }
}

impl<'k, K: EnumKey, V> vstd::std_specs::core::IndexSpecImpl<&'k K> for EnumMap<K, V> {
    open spec fn index_req(&self, index: &&'k K) -> bool {
        self.wf()
    }
}

impl<'k, K: EnumKey, V> IndexMut<&'k K> for EnumMap<K, V> {
    /// The slot of `index`, for writing. Only that slot can change.
    fn index_mut(&mut self, index: &'k K) -> (r: &mut V)
        requires
            old(self).wf(),
        ensures
            *r == old(self)[*index],
            final(self)@ == old(self)@.update(index.ordinal(), *final(r)),
            final(self).wf(),
            final(self)[*index] == *final(r),
            forall|other: K| other != *index ==> #[trigger] final(self)[other] == old(self)[other],
    {
        proof {
            assert forall|other: K| other != *index implies other.ordinal() != index.ordinal() by {
                if other.ordinal() == index.ordinal() {
                    crate::key::lemma_ordinal_injective(other, *index);
                }
            }
        }
        &mut self.data[ordinal_of(index)]
    }
}

impl<K: EnumKey, V: Clone> Clone for EnumMap<K, V> {
    /// A map of its own with a clone of every value.
    fn clone(&self) -> (m: Self)
        ensures
            m@.len() == self@.len(),
            forall|i: int| 0 <= i < self@.len() ==> cloned::<V>(#[trigger] self@[i], m@[i]),
            self.wf() ==> m.wf(),
    {
        EnumMap { data: self.data.clone(), phantom: PhantomData }
    }
}

impl<K: EnumKey, V: PartialEq> PartialEq for EnumMap<K, V> {
    /// Whether the two maps hold equal values, slot by slot.
    fn eq(&self, other: &Self) -> (r: bool) {
        self.data == other.data
    }
}

impl<K: EnumKey, V: PartialEq> PartialEqSpecImpl for EnumMap<K, V> {
    open spec fn obeys_eq_spec() -> bool {
        V::obeys_eq_spec()
    }

    open spec fn eq_spec(&self, other: &Self) -> bool {
        &&& self@.len() == other@.len()
        &&& forall|i: int| 0 <= i < self@.len() ==> #[trigger] self@[i].eq_spec(&other@[i])
    }
}

/// A pass over a map, in the canonical order of the keys.
///
/// The cursor starts at 0 and goes up by one with every pair handed out; once
/// it has reached the number of variants, the pass has ended and stays ended.
pub struct EnumMapIter<'a, K: EnumKey, V> {
    map: &'a EnumMap<K, V>,
    curr: usize,
}

impl<'a, K: EnumKey, V> EnumMapIter<'a, K, V> {
    #[verifier::type_invariant]
    spec fn inv(self) -> bool {
        &&& self.map.wf()
        &&& self.curr <= self.map@.len()
    }

    /// The values of the map under traversal, in canonical order.
    pub closed spec fn slots(self) -> Seq<V> {
        self.map@
    }

    /// The cursor: how many pairs have been handed out.
    pub closed spec fn cursor(self) -> nat {
        self.curr as nat
    }

    /// The pairs still to come.
    pub open spec fn pairs(self) -> Seq<(K, &'a V)> {
        Seq::new(
            (self.slots().len() - self.cursor()) as nat,
            |j: int| (K::variants()[self.cursor() + j], &self.slots()[self.cursor() + j]),
        )
    }
}

impl<'a, K: EnumKey, V> Iterator for EnumMapIter<'a, K, V> {
    type Item = (K, &'a V);

    /// The pair under the cursor, if the pass has not ended.
    fn next(&mut self) -> (r: Option<(K, &'a V)>)
        ensures
            final(self).slots() == old(self).slots(),
            old(self).cursor() <= old(self).slots().len() == K::variants().len(),
            old(self).cursor() < old(self).slots().len() ==> {
                &&& final(self).cursor() == old(self).cursor() + 1
                &&& r == Some(
                    (
                        K::variants()[old(self).cursor() as int],
                        &old(self).slots()[old(self).cursor() as int],
                    ),
                )
            },
            old(self).cursor() == old(self).slots().len() ==> {
                &&& final(self).cursor() == old(self).cursor()
                &&& r is None
            },
    {
        proof {
            use_type_invariant(&*self);
        }
        if self.curr < self.map.data.len() {
            let i = self.curr;
            let keys = variant_list::<K>();
            self.curr += 1;
            assert(self.pairs() =~= old(self).pairs().drop_first());
            Some((keys[i], &self.map.data[i]))
        } else {
            None
        }
    }
}

impl<'a, K: EnumKey, V> vstd::std_specs::iter::IteratorSpecImpl for EnumMapIter<'a, K, V> {
    open spec fn obeys_prophetic_iter_laws(&self) -> bool {
        true
    }

    open spec fn remaining(&self) -> Seq<Self::Item> {
        self.pairs()
    }

    open spec fn will_return_none(&self) -> bool {
        true
    }

    open spec fn decrease(&self) -> Option<nat> {
        Some((self.slots().len() - self.cursor()) as nat)
    }

    open spec fn initial_value_relation(&self, init: &Self) -> bool {
        &&& init.slots() == self.slots()
        &&& init.cursor() == self.cursor()
    }

    open spec fn peek(&self, index: int) -> Option<Self::Item> {
        if 0 <= index < self.pairs().len() {
            Some(self.pairs()[index])
        } else {
            None
        }
    }
}

/// An exclusive pass over a map, in the canonical order of the keys.
///
/// The pass holds the exclusive borrow of all slots that it has not handed out
/// yet. Each step splits the first of them off and hands it out with its key,
/// so no slot is ever handed out twice and no two references overlap.
pub struct EnumMapIterMut<'a, K: EnumKey, V> {
    rest: &'a mut [V],
    curr: usize,
    phantom: PhantomData<K>,
}

impl<'a, K: EnumKey, V> EnumMapIterMut<'a, K, V> {
    #[verifier::type_invariant]
    spec fn inv(self) -> bool {
        &&& enumerable::<K>()
        &&& self.curr + self.rest@.len() == K::variants().len()
    }

    /// The exclusive borrow of the slots that have not been handed out.
    pub closed spec fn unvisited(self) -> &'a mut [V] {
        self.rest
    }

    /// The cursor: how many slots have been handed out.
    pub closed spec fn cursor(self) -> nat {
        self.curr as nat
    }

    /// A pass that is given up leaves the slots it has not handed out as they are.
    pub proof fn lemma_given_up(self)
        requires
            has_resolved(self),
        ensures
            final(self.unvisited())@ == self.unvisited()@,
    {
    }
}

impl<'a, K: EnumKey, V> Iterator for EnumMapIterMut<'a, K, V> {
    type Item = (K, &'a mut V);

    /// The slot under the cursor with its key, if the pass has not ended.
    fn next(&mut self) -> (r: Option<(K, &'a mut V)>)
        ensures
            old(self).cursor() + old(self).unvisited()@.len() == K::variants().len(),
            match r {
                Some((k, v)) => {
                    &&& old(self).unvisited()@.len() > 0
                    &&& k == K::variants()[old(self).cursor() as int]
                    &&& *v == old(self).unvisited()@[0]
                    &&& final(self).cursor() == old(self).cursor() + 1
                    &&& final(self).unvisited()@ == old(self).unvisited()@.drop_first()
                    &&& final(old(self).unvisited())@ == seq![*final(v)] + final(final(self).unvisited())@
                },
                None => {
                    &&& old(self).unvisited()@.len() == 0
                    &&& final(self).cursor() == old(self).cursor()
                    &&& final(self).unvisited()@.len() == 0
                    &&& final(old(self).unvisited())@.len() == 0
                },
            },
    {
        proof {
            use_type_invariant(&*self);
        }
        if self.rest.len() == 0 {
            // Nothing is left to hand out: give the borrow of the (empty) rest back.
            let mut ended = EnumMapIterMut { rest: &mut [], curr: self.curr, phantom: PhantomData };
            core::mem::swap(self, &mut ended);
            return None;
        }
        let keys = variant_list::<K>();
        // Take the borrow of the rest out of `self`, leaving an ended pass behind,
        // split the first slot off, and put the others back under the next cursor.
        let mut taken = EnumMapIterMut { rest: &mut [], curr: keys.len(), phantom: PhantomData };
        core::mem::swap(self, &mut taken);
        let i = taken.curr;
        let slots = taken.rest;
        let (head, tail) = slots.split_at_mut(1);
        *self = EnumMapIterMut { rest: tail, curr: i + 1, phantom: PhantomData };
        Some((keys[i], &mut head[0]))
    }
}

impl<'a, K: EnumKey, V> vstd::std_specs::iter::IteratorSpecImpl for EnumMapIterMut<'a, K, V> {
    /// The items are exclusive borrows whose last values are still open, so
    /// the sequence of items cannot be named ahead of the pass. What each
    /// step does is stated by `next` itself.
    open spec fn obeys_prophetic_iter_laws(&self) -> bool {
        false
    }

    open spec fn remaining(&self) -> Seq<Self::Item> {
        Seq::empty()
    }

    open spec fn will_return_none(&self) -> bool {
        true
    }

    open spec fn decrease(&self) -> Option<nat> {
        None
    }

    open spec fn initial_value_relation(&self, init: &Self) -> bool {
        true
    }

    open spec fn peek(&self, index: int) -> Option<Self::Item> {
        None
    }
}

} // verus!
