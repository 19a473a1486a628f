//! The per-window parameter store: an ordered association list in
//! which the first entry with a given key wins, setting an existing
//! key overwrites its entry in place, and setting a fresh key prepends
//! a new entry.

use vstd::prelude::*;

use crate::values::LispObject;

verus! {

/// The value of the first entry with key `key`, if any.
pub open spec fn spec_assq(s: Seq<(LispObject, LispObject)>, key: LispObject) -> Option<LispObject>
    decreases s.len(),
{
    if s.len() == 0 {
        None
    } else if s[0].0 == key {
        Some(s[0].1)
    } else {
        spec_assq(s.subrange(1, s.len() as int), key)
    }
}

/// The value a parameter lookup observes: the first binding of the
/// key, or nil when the key is absent.
pub open spec fn spec_lookup(s: Seq<(LispObject, LispObject)>, key: LispObject) -> LispObject {
    match spec_assq(s, key) {
        Some(v) => v,
        None => LispObject::Nil,
    }
}

/// The list with the first entry bound to `key` rebound to `value`,
/// all other entries untouched.
pub open spec fn spec_update_first(s: Seq<(LispObject, LispObject)>, key: LispObject, value: LispObject) -> Seq<(LispObject, LispObject)>
    decreases s.len(),
{
    if s.len() == 0 {
        s
    } else if s[0].0 == key {
        seq![(key, value)].add(s.subrange(1, s.len() as int))
    } else {
        seq![s[0]].add(spec_update_first(s.subrange(1, s.len() as int), key, value))
    }
}

/// What setting a parameter does to the list: overwrite the first
/// binding in place when the key is present, else prepend a binding.
pub open spec fn spec_set_param(s: Seq<(LispObject, LispObject)>, key: LispObject, value: LispObject) -> Seq<(LispObject, LispObject)> {
    if spec_assq(s, key) is Some {
        spec_update_first(s, key, value)
    } else {
        seq![(key, value)].add(s)
    }
}

pub proof fn lemma_assq_index(s: Seq<(LispObject, LispObject)>, key: LispObject, j: int)
    requires
        0 <= j < s.len(),
        s[j].0 == key,
        forall|k: int| 0 <= k < j ==> s[k].0 != key,
    ensures
        spec_assq(s, key) == Some(s[j].1),
    decreases j,
{
    if j > 0 {
        lemma_assq_index(s.subrange(1, s.len() as int), key, j - 1);
    }
}

pub proof fn lemma_assq_none(s: Seq<(LispObject, LispObject)>, key: LispObject)
    requires
        forall|k: int| 0 <= k < s.len() ==> s[k].0 != key,
    ensures
        spec_assq(s, key) is None,
    decreases s.len(),
{
    if s.len() > 0 {
        lemma_assq_none(s.subrange(1, s.len() as int), key);
    }
}

/// A present key has a first index: everything before it misses.
pub proof fn lemma_assq_first_index(s: Seq<(LispObject, LispObject)>, key: LispObject)
    requires
        spec_assq(s, key) is Some,
    ensures
        exists|j: int|
            0 <= j < s.len() && s[j].0 == key && (forall|k: int| 0 <= k < j ==> s[k].0 != key),
    decreases s.len(),
{
    if s[0].0 == key {
        assert(0 <= 0 < s.len() && s[0].0 == key && (forall|k: int| 0 <= k < 0 ==> s[k].0 != key));
    } else {
        lemma_assq_first_index(s.subrange(1, s.len() as int), key);
        let j0 = choose|j: int|
            0 <= j < s.len() - 1 && s.subrange(1, s.len() as int)[j].0 == key && (forall|k: int|
                0 <= k < j ==> s.subrange(1, s.len() as int)[k].0 != key);
        assert(s[j0 + 1].0 == key);
        assert(forall|k: int| 0 <= k < j0 + 1 ==> s[k].0 != key) by {
            assert(forall|k: int|
                1 <= k < j0 + 1 ==> s[k] == s.subrange(1, s.len() as int)[k - 1]);
        }
    }
}

/// Updating the first binding of `key` is a point update at its index.
pub proof fn lemma_update_first_at(s: Seq<(LispObject, LispObject)>, key: LispObject, value: LispObject, j: int)
    requires
        0 <= j < s.len(),
        s[j].0 == key,
        forall|k: int| 0 <= k < j ==> s[k].0 != key,
    ensures
        spec_update_first(s, key, value) == s.update(j, (key, value)),
    decreases j,
{
    let tail = s.subrange(1, s.len() as int);
    if j == 0 {
        assert(spec_update_first(s, key, value) =~= s.update(0, (key, value)));
    } else {
        lemma_update_first_at(tail, key, value, j - 1);
        assert(seq![s[0]].add(tail.update(j - 1, (key, value))) =~= s.update(j, (key, value)));
    }
}

/// Looking a key up after setting it returns the set value; setting a
/// key that was already present keeps the list's length and leaves
/// every entry with another key at its position; setting a fresh key
/// prepends its binding and shifts the rest by one.
pub proof fn lemma_parameter_set_get(s: Seq<(LispObject, LispObject)>, key: LispObject, value: LispObject)
    ensures
        spec_lookup(spec_set_param(s, key, value), key) == value,
        spec_assq(s, key) is Some ==> spec_set_param(s, key, value).len() == s.len(),
        spec_assq(s, key) is Some ==> (forall|k: int|
            0 <= k < s.len() && s[k].0 != key ==> spec_set_param(s, key, value)[k] == s[k]),
        spec_assq(s, key) is None ==> spec_set_param(s, key, value) == seq![(key, value)].add(s),
{
    if spec_assq(s, key) is Some {
        lemma_assq_first_index(s, key);
        let j = choose|j: int|
            0 <= j < s.len() && s[j].0 == key && (forall|k: int| 0 <= k < j ==> s[k].0 != key);
        lemma_update_first_at(s, key, value, j);
        let t = s.update(j, (key, value));
        assert(t[j].0 == key);
        assert(forall|k: int| 0 <= k < j ==> t[k].0 != key);
        lemma_assq_index(t, key, j);
    } else {
        let t = seq![(key, value)].add(s);
        assert(t[0].0 == key);
    }
}

/// Linear scan for a key; the first binding wins, an absent key
/// observes nil.
pub fn assq_get(list: &Vec<(LispObject, LispObject)>, key: LispObject) -> (r: LispObject)
    ensures
        r == spec_lookup(list@, key),
{
    let n = list.len();
    let mut i: usize = 0;
    while i < n
        invariant
            i <= n,
            n == list@.len(),
            forall|k: int| 0 <= k < i ==> list@[k].0 != key,
        decreases n - i,
    {
        if list[i].0 == key {
            proof {
                lemma_assq_index(list@, key, i as int);
            }
            return list[i].1;
        }
        i += 1;
    }
    proof {
        lemma_assq_none(list@, key);
    }
    LispObject::Nil
}

/// Bind `key` to `value`: overwrite its first binding in place when
/// present, else prepend a new binding.
pub fn assq_set(list: &mut Vec<(LispObject, LispObject)>, key: LispObject, value: LispObject)
    ensures
        final(list)@ == spec_set_param(old(list)@, key, value),
{
    let n = list.len();
    let mut i: usize = 0;
    while i < n
        invariant
            i <= n,
            n == list@.len(),
            list@ == old(list)@,
            forall|k: int| 0 <= k < i ==> list@[k].0 != key,
        decreases n - i,
    {
        if list[i].0 == key {
            proof {
                lemma_assq_index(list@, key, i as int);
                lemma_update_first_at(list@, key, value, i as int);
            }
            list.set(i, (key, value));
            return ;
        }
        i += 1;
    }
    proof {
        lemma_assq_none(list@, key);
    }
    list.insert(0, (key, value));
    proof {
        assert(old(list)@.insert(0, (key, value)) =~= seq![(key, value)].add(old(list)@));
    }
}

} // verus!
