//! Named instances: an association of names with values in which no name
//! occurs twice.

use std::sync::Arc;

use vstd::prelude::*;

verus! {

/// Another handle on the same optional value.
pub fn share<T: ?Sized>(handle: &Option<Arc<T>>) -> (r: Option<Arc<T>>)
    ensures
        r == *handle,
{
    match handle {
        Some(value) => Some(value.clone()),
        None => None,
    }
}

/// Whether `names` holds each name of `all` once, and nothing else.
pub open spec fn lists_once(names: Seq<String>, all: Set<Seq<char>>) -> bool {
    &&& forall|i: int, j: int|
        0 <= i < j < names.len() ==> #[trigger] names[i]@ != #[trigger] names[j]@
    &&& forall|i: int| 0 <= i < names.len() ==> all.contains(#[trigger] names[i]@)
    &&& forall|name: Seq<char>| #[trigger]
        all.contains(name) ==> exists|i: int| 0 <= i < names.len() && #[trigger] names[i]@ == name
}

/// Values registered under distinct names.
#[derive(Debug)]
pub struct InstanceMap<V> {
    entries: Vec<(String, V)>,
}

/// Whether `name` stands at position `i`.
spec fn named<V>(entries: Seq<(String, V)>, i: int, name: Seq<char>) -> bool {
    0 <= i < entries.len() && entries[i].0@ == name
}

/// Whether no two entries carry the same name.
spec fn distinct<V>(entries: Seq<(String, V)>) -> bool {
    forall|i: int, j: int|
        0 <= i < j < entries.len() ==> #[trigger] entries[i].0@ != #[trigger] entries[j].0@
}

/// What the entries associate with each name.
spec fn contents<V>(entries: Seq<(String, V)>) -> Map<Seq<char>, V> {
    Map::new(
        |name: Seq<char>| exists|i: int| named(entries, i, name),
        |name: Seq<char>| entries[choose|i: int| named(entries, i, name)].1,
    )
}

proof fn lemma_contents_at<V>(entries: Seq<(String, V)>, i: int)
    requires
        distinct(entries),
        0 <= i < entries.len(),
    ensures
        contents(entries).dom().contains(entries[i].0@),
        contents(entries)[entries[i].0@] == entries[i].1,
{
    let name = entries[i].0@;
    assert(named(entries, i, name));
    let j = choose|j: int| named(entries, j, name);
    assert(named(entries, j, name));
    if i < j {
        assert(entries[i].0@ != entries[j].0@);
    } else if j < i {
        assert(entries[j].0@ != entries[i].0@);
    }
}

proof fn lemma_contents_absent<V>(entries: Seq<(String, V)>, name: Seq<char>)
    requires
        forall|i: int| 0 <= i < entries.len() ==> #[trigger] entries[i].0@ != name,
    ensures
        !contents(entries).dom().contains(name),
{
}

proof fn lemma_contents_push<V>(entries: Seq<(String, V)>, name: String, value: V)
    requires
        distinct(entries),
        forall|i: int| 0 <= i < entries.len() ==> #[trigger] entries[i].0@ != name@,
    ensures
        distinct(entries.push((name, value))),
        contents(entries.push((name, value))) == contents(entries).insert(name@, value),
{
    let after = entries.push((name, value));
    assert(distinct(after));
    lemma_contents_at(after, entries.len() as int);
    let expected = contents(entries).insert(name@, value);
    assert forall|n: Seq<char>| #[trigger] contents(after).dom().contains(n) implies {
        &&& expected.dom().contains(n)
        &&& contents(after)[n] == expected[n]
    } by {
        let i = choose|i: int| named(after, i, n);
        lemma_contents_at(after, i);
        if i < entries.len() {
            lemma_contents_at(entries, i);
        }
    }
    assert forall|n: Seq<char>| #[trigger] expected.dom().contains(n) implies contents(
        after,
    ).dom().contains(n) by {
        if n != name@ {
            let i = choose|i: int| named(entries, i, n);
            lemma_contents_at(after, i);
        }
    }
    assert(contents(after).dom() =~= expected.dom());
    assert(contents(after) =~= expected);
}

proof fn lemma_contents_update<V>(entries: Seq<(String, V)>, at: int, name: String, value: V)
    requires
        distinct(entries),
        0 <= at < entries.len(),
        entries[at].0@ == name@,
    ensures
        distinct(entries.update(at, (name, value))),
        contents(entries.update(at, (name, value))) == contents(entries).insert(name@, value),
{
    let after = entries.update(at, (name, value));
    assert(forall|i: int| 0 <= i < after.len() ==> #[trigger] after[i].0@ == entries[i].0@);
    assert(distinct(after));
    lemma_contents_at(after, at);
    let expected = contents(entries).insert(name@, value);
    assert forall|n: Seq<char>| #[trigger] contents(after).dom().contains(n) implies {
        &&& expected.dom().contains(n)
        &&& contents(after)[n] == expected[n]
    } by {
        let i = choose|i: int| named(after, i, n);
        lemma_contents_at(after, i);
        lemma_contents_at(entries, i);
    }
    assert forall|n: Seq<char>| #[trigger] expected.dom().contains(n) implies contents(
        after,
    ).dom().contains(n) by {
        if n != name@ {
            let i = choose|i: int| named(entries, i, n);
            lemma_contents_at(after, i);
        }
    }
    assert(contents(after).dom() =~= expected.dom());
    assert(contents(after) =~= expected);
}

impl<V> View for InstanceMap<V> {
    type V = Map<Seq<char>, V>;

    closed spec fn view(&self) -> Map<Seq<char>, V> {
        contents(self.entries@)
    }
}

impl<V> InstanceMap<V> {
    #[verifier::type_invariant]
    spec fn well_formed(self) -> bool {
        distinct(self.entries@)
    }

    /// A map without instances.
    pub fn new() -> (r: Self)
        ensures
            r@ == Map::<Seq<char>, V>::empty(),
    {
        let r = InstanceMap { entries: Vec::new() };
        assert(r@ =~= Map::<Seq<char>, V>::empty());
        r
    }

    /// Registers `value` under `name`. What stood under that name is replaced;
    /// every other instance is kept.
    pub fn insert(self, name: String, value: V) -> (r: Self)
        ensures
            r@ == self@.insert(name@, value),
    {
        proof {
            use_type_invariant(&self);
        }
        let mut entries = self.entries;
        let mut i: usize = 0;
        while i < entries.len()
            invariant
                entries@ == self.entries@,
                0 <= i <= entries.len(),
                forall|k: int| 0 <= k < i ==> #[trigger] entries@[k].0@ != name@,
            ensures
                entries@ == self.entries@,
                0 <= i <= entries.len(),
                forall|k: int| 0 <= k < i ==> #[trigger] entries@[k].0@ != name@,
                i < entries.len() ==> entries@[i as int].0@ == name@,
            decreases entries.len() - i,
        {
            if entries[i].0 == name {
                break;
            }
            i += 1;
        }
        if i < entries.len() {
            proof {
                lemma_contents_update(entries@, i as int, name, value);
            }
            entries.set(i, (name, value));
        } else {
            proof {
                lemma_contents_push(entries@, name, value);
            }
            entries.push((name, value));
        }
        InstanceMap { entries }
    }

    /// The instance registered under `name`, if there is one.
    pub fn get(&self, name: &str) -> (r: Option<&V>)
        ensures
            match r {
                Some(value) => self@.dom().contains(name@) && *value == self@[name@],
                None => !self@.dom().contains(name@),
            },
    {
        proof {
            use_type_invariant(self);
        }
        let key = name.to_owned();
        let mut i: usize = 0;
        while i < self.entries.len()
            invariant
                distinct(self.entries@),
                key@ == name@,
                0 <= i <= self.entries.len(),
                forall|k: int| 0 <= k < i ==> #[trigger] self.entries@[k].0@ != name@,
            decreases self.entries.len() - i,
        {
            if self.entries[i].0 == key {
                proof {
                    lemma_contents_at(self.entries@, i as int);
                }
                return Some(&self.entries[i].1);
            }
            i += 1;
        }
        proof {
            lemma_contents_absent(self.entries@, name@);
        }
        None
    }

    /// The names under which an instance is registered, each of them once.
    pub fn names(&self) -> (r: Vec<String>)
        ensures
            lists_once(r@, self@.dom()),
    {
        proof {
            use_type_invariant(self);
        }
        let mut r: Vec<String> = Vec::new();
        let mut i: usize = 0;
        while i < self.entries.len()
            invariant
                0 <= i <= self.entries.len(),
                r@.len() == i,
                forall|k: int| 0 <= k < i ==> #[trigger] r@[k] == self.entries@[k].0,
            decreases self.entries.len() - i,
        {
            r.push(self.entries[i].0.clone());
            i += 1;
        }
        proof {
            assert forall|k: int| 0 <= k < r@.len() implies self@.dom().contains(
                #[trigger] r@[k]@,
            ) by {
                lemma_contents_at(self.entries@, k);
            }
            assert forall|name: Seq<char>| #[trigger]
                self@.dom().contains(name) implies exists|k: int|
                0 <= k < r@.len() && #[trigger] r@[k]@ == name by {
                let k = choose|k: int| named(self.entries@, k, name);
                assert(r@[k]@ == name);
            }
        }
        r
    }
}

impl<T: ?Sized> InstanceMap<Arc<T>> {
    /// The same names, each with another handle on the same instance.
    pub fn share(&self) -> (r: Self)
        ensures
            r@ == self@,
    {
        proof {
            use_type_invariant(self);
        }
        let mut entries: Vec<(String, Arc<T>)> = Vec::new();
        let mut i: usize = 0;
        while i < self.entries.len()
            invariant
                0 <= i <= self.entries.len(),
                entries@ == self.entries@.take(i as int),
            decreases self.entries.len() - i,
        {
            entries.push((self.entries[i].0.clone(), self.entries[i].1.clone()));
            i += 1;
        }
        assert(entries@ == self.entries@);
        InstanceMap { entries }
    }
}

impl<V: Clone> Clone for InstanceMap<V> {
    /// The same names, each with a clone of its instance.
    fn clone(&self) -> (r: Self)
        ensures
            r@.dom() == self@.dom(),
            forall|name: Seq<char>| #[trigger]
                self@.dom().contains(name) ==> cloned::<V>(self@[name], r@[name]),
    {
        proof {
            use_type_invariant(self);
        }
        let mut entries: Vec<(String, V)> = Vec::new();
        let mut i: usize = 0;
        while i < self.entries.len()
            invariant
                0 <= i <= self.entries.len(),
                entries@.len() == i,
                forall|k: int|
                    0 <= k < i ==> (#[trigger] entries@[k]).0 == self.entries@[k].0 && cloned::<V>(
                        self.entries@[k].1,
                        entries@[k].1,
                    ),
            decreases self.entries.len() - i,
        {
            entries.push((self.entries[i].0.clone(), self.entries[i].1.clone()));
            i += 1;
        }
        proof {
            assert(distinct(entries@)) by {
                assert forall|a: int, b: int| 0 <= a < b < entries@.len() implies #[trigger]
                entries@[a].0@ != #[trigger] entries@[b].0@ by {
                    assert(self.entries@[a].0@ != self.entries@[b].0@);
                }
            }
            assert forall|name: Seq<char>| #[trigger]
                contents(self.entries@).dom().contains(name) implies contents(
                entries@,
            ).dom().contains(name) && cloned::<V>(
                contents(self.entries@)[name],
                contents(entries@)[name],
            ) by {
                let k = choose|k: int| named(self.entries@, k, name);
                lemma_contents_at(self.entries@, k);
                lemma_contents_at(entries@, k);
            }
            assert forall|name: Seq<char>| #[trigger]
                contents(entries@).dom().contains(name) implies contents(
                self.entries@,
            ).dom().contains(name) by {
                let k = choose|k: int| named(entries@, k, name);
                lemma_contents_at(self.entries@, k);
            }
            assert(contents(entries@).dom() =~= contents(self.entries@).dom());
        }
        InstanceMap { entries }
    }
}

} // verus!
