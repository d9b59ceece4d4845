//! Name-keyed containers.
//!
//! An animator looks everything up by name: its parameters, its states and
//! its triggers. The containers here keep their entries in insertion order,
//! compare names character by character and are modelled by a `Map` or a
//! `Set` keyed by the characters of the name.

use vstd::prelude::*;
use vstd::string::StringSliceAdditionalSpecFns;

verus! {

/// Whether two names read the same.
pub fn same_name(a: &str, b: &str) -> (same: bool)
    ensures
        same == (a@ == b@),
{
    let x = a.as_bytes();
    let y = b.as_bytes();
    proof {
        vstd::utf8::encode_utf8_decode_utf8(a@);
        vstd::utf8::encode_utf8_decode_utf8(b@);
    }
    if x.len() != y.len() {
        return false;
    }
    let mut i: usize = 0;
    while i < x.len()
        invariant
            i <= x.len(),
            x.len() == y.len(),
            x@ == a.spec_bytes(),
            y@ == b.spec_bytes(),
            forall|j: int| 0 <= j < i ==> x@[j] == y@[j],
        decreases x.len() - i,
    {
        if x[i] != y[i] {
            return false;
        }
        i += 1;
    }
    assert(x@ =~= y@);
    true
}

/// The names held by `names`, each as its characters.
pub open spec fn listing_of(names: Seq<String>) -> Seq<Seq<char>> {
    Seq::new(names.len(), |i: int| names[i]@)
}

/// The place of `name` among `names`, if it is there.
fn position(names: &Vec<String>, name: &str) -> (at: Option<usize>)
    ensures
        match at {
            Some(i) => i < names.len() && listing_of(names@)[i as int] == name@,
            None => !listing_of(names@).contains(name@),
        },
        at.is_some() == listing_of(names@).contains(name@),
{
    let mut i: usize = 0;
    while i < names.len()
        invariant
            i <= names.len(),
            forall|j: int| 0 <= j < i ==> names[j]@ != name@,
        decreases names.len() - i,
    {
        if same_name(names[i].as_str(), name) {
            assert(listing_of(names@)[i as int] == name@);
            return Some(i);
        }
        i += 1;
    }
    None
}

/// A set of names.
#[derive(Debug)]
pub struct NameSet {
    names: Vec<String>,
}

impl View for NameSet {
    type V = Set<Seq<char>>;

    /// The names in the set.
    open spec fn view(&self) -> Set<Seq<char>> {
        self.listing().to_set()
    }
}

impl NameSet {
    /// The names in the order in which they were inserted.
    pub closed spec fn listing(&self) -> Seq<Seq<char>> {
        listing_of(self.names@)
    }

    /// No name is listed twice.
    pub open spec fn wf(&self) -> bool {
        self.listing().no_duplicates()
    }

    /// The empty set.
    pub fn new() -> (set: Self)
        ensures
            set.wf(),
            set.listing() == Seq::<Seq<char>>::empty(),
            set@ == Set::<Seq<char>>::empty(),
    {
        let set = NameSet { names: Vec::new() };
        assert(set.listing() =~= Seq::<Seq<char>>::empty());
        assert(set@ =~= Set::<Seq<char>>::empty());
        set
    }

    /// How many names the set holds.
    pub fn len(&self) -> (n: usize)
        ensures
            n == self.listing().len(),
    {
        self.names.len()
    }

    /// Whether the set holds no name.
    pub fn is_empty(&self) -> (empty: bool)
        ensures
            empty == (self.listing().len() == 0),
            empty == (self@ == Set::<Seq<char>>::empty()),
    {
        proof {
            if self.listing().len() == 0 {
                assert(self@ =~= Set::<Seq<char>>::empty());
            } else {
                assert(self.listing().contains(self.listing()[0]));
                assert(self@.contains(self.listing()[0]));
            }
        }
        self.names.len() == 0
    }

    /// Whether `name` is in the set.
    pub fn contains(&self, name: &str) -> (found: bool)
        ensures
            found == self@.contains(name@),
    {
        position(&self.names, name).is_some()
    }

    /// The `i`-th name in insertion order.
    pub fn name_at(&self, i: usize) -> (name: &String)
        requires
            i < self.listing().len(),
        ensures
            name@ == self.listing()[i as int],
    {
        &self.names[i]
    }

    /// Puts `name` into the set and says whether it was new.
    pub fn insert(&mut self, name: String) -> (fresh: bool)
        requires
            old(self).wf(),
        ensures
            final(self).wf(),
            fresh == !old(self)@.contains(name@),
            final(self)@ == old(self)@.insert(name@),
            final(self).listing() == if fresh {
                old(self).listing().push(name@)
            } else {
                old(self).listing()
            },
    {
        let ghost before = self.listing();
        match position(&self.names, name.as_str()) {
            Some(_) => {
                assert(before.contains(name@));
                assert(self@ =~= old(self)@.insert(name@));
                false
            },
            None => {
                self.names.push(name);
                assert(self.listing() =~= before.push(name@));
                assert(self@ =~= old(self)@.insert(name@)) by {
                    assert forall|k: Seq<char>|
                        self@.contains(k) <==> old(self)@.insert(name@).contains(k) by {
                        if before.push(name@).contains(k) {
                            let i = before.push(name@).index_of(k);
                            if i < before.len() {
                                assert(before[i] == k);
                            }
                        }
                        if before.contains(k) {
                            let i = before.index_of(k);
                            assert(before.push(name@)[i] == k);
                        }
                        if k == name@ {
                            assert(before.push(name@)[before.len() as int] == k);
                        }
                    }
                }
                true
            },
        }
    }

    /// Takes `name` out of the set and says whether it was there.
    pub fn remove(&mut self, name: &str) -> (found: bool)
        requires
            old(self).wf(),
        ensures
            final(self).wf(),
            found == old(self)@.contains(name@),
            final(self)@ == old(self)@.remove(name@),
            final(self).listing() == if found {
                old(self).listing().remove(old(self).listing().index_of(name@))
            } else {
                old(self).listing()
            },
    {
        let ghost before = self.listing();
        match position(&self.names, name) {
            Some(i) => {
                assert(before[i as int] == name@);
                assert(before.contains(name@));
                assert(before.index_of(name@) == i);
                self.names.remove(i);
                assert(self.listing() =~= before.remove(i as int));
                assert(self@ =~= old(self)@.remove(name@)) by {
                    assert forall|k: Seq<char>|
                        self@.contains(k) <==> old(self)@.remove(name@).contains(k) by {
                        if before.remove(i as int).contains(k) {
                            let j = before.remove(i as int).index_of(k);
                            if j < i {
                                assert(before[j] == k);
                            } else {
                                assert(before[j + 1] == k);
                            }
                        }
                        if before.contains(k) && k != name@ {
                            let j = before.index_of(k);
                            if j < i {
                                assert(before.remove(i as int)[j] == k);
                            } else {
                                assert(before.remove(i as int)[j - 1] == k);
                            }
                        }
                    }
                }
                true
            },
            None => {
                assert(self@ =~= old(self)@.remove(name@));
                false
            },
        }
    }

    /// Empties the set.
    pub fn clear(&mut self)
        ensures
            final(self).wf(),
            final(self).listing() == Seq::<Seq<char>>::empty(),
            final(self)@ == Set::<Seq<char>>::empty(),
    {
        self.names.clear();
        assert(self.listing() =~= Seq::<Seq<char>>::empty());
        assert(self@ =~= Set::<Seq<char>>::empty());
    }
}

/// A table from names to values.
#[derive(Debug)]
pub struct NameMap<V> {
    names: Vec<String>,
    values: Vec<V>,
}

impl<V> View for NameMap<V> {
    type V = Map<Seq<char>, V>;

    /// The value stored under each name.
    open spec fn view(&self) -> Map<Seq<char>, V> {
        Map::new(
            |k: Seq<char>| self.listing().contains(k),
            |k: Seq<char>| self.values()[self.listing().index_of(k)],
        )
    }
}

impl<V> NameMap<V> {
    /// The names in the order in which they were inserted.
    pub closed spec fn listing(&self) -> Seq<Seq<char>> {
        listing_of(self.names@)
    }

    /// The values, each at the place of its name in [`Self::listing`].
    pub closed spec fn values(&self) -> Seq<V> {
        self.values@
    }

    /// Every name has one value and no name is listed twice.
    pub open spec fn wf(&self) -> bool {
        &&& self.listing().len() == self.values().len()
        &&& self.listing().no_duplicates()
    }

    /// The empty table.
    pub fn new() -> (table: Self)
        ensures
            table.wf(),
            table.listing() == Seq::<Seq<char>>::empty(),
            table@ == Map::<Seq<char>, V>::empty(),
    {
        let table = NameMap { names: Vec::new(), values: Vec::new() };
        assert(table.listing() =~= Seq::<Seq<char>>::empty());
        assert(table@ =~= Map::<Seq<char>, V>::empty());
        table
    }

    /// How many names the table holds.
    pub fn len(&self) -> (n: usize)
        ensures
            n == self.listing().len(),
    {
        self.names.len()
    }

    /// Whether the table holds no name.
    pub fn is_empty(&self) -> (empty: bool)
        ensures
            empty == (self.listing().len() == 0),
            empty == (self@ == Map::<Seq<char>, V>::empty()),
    {
        proof {
            if self.listing().len() == 0 {
                assert(self@ =~= Map::<Seq<char>, V>::empty());
            } else {
                assert(self.listing().contains(self.listing()[0]));
                assert(self@.contains_key(self.listing()[0]));
            }
        }
        self.names.len() == 0
    }

    /// Whether the table has an entry for `name`.
    pub fn contains_key(&self, name: &str) -> (found: bool)
        ensures
            found == self@.contains_key(name@),
    {
        position(&self.names, name).is_some()
    }

    /// The value stored under `name`, if there is one.
    pub fn get(&self, name: &str) -> (value: Option<&V>)
        requires
            self.wf(),
        ensures
            match value {
                Some(v) => self@.contains_key(name@) && *v == self@[name@],
                None => !self@.contains_key(name@),
            },
    {
        match position(&self.names, name) {
            Some(i) => {
                assert(self.listing()[i as int] == name@);
                Some(&self.values[i])
            },
            None => None,
        }
    }

    /// The `i`-th name in insertion order.
    pub fn name_at(&self, i: usize) -> (name: &String)
        requires
            i < self.listing().len(),
        ensures
            name@ == self.listing()[i as int],
    {
        &self.names[i]
    }

    /// The value of the `i`-th name in insertion order.
    pub fn value_at(&self, i: usize) -> (value: &V)
        requires
            self.wf(),
            i < self.listing().len(),
        ensures
            *value == self.values()[i as int],
            self@.contains_key(self.listing()[i as int]),
            *value == self@[self.listing()[i as int]],
    {
        assert(self.listing().contains(self.listing()[i as int]));
        &self.values[i]
    }

    /// Stores `value` under `name`, in place of what was stored there before.
    pub fn insert(&mut self, name: String, value: V)
        requires
            old(self).wf(),
        ensures
            final(self).wf(),
            final(self)@ == old(self)@.insert(name@, value),
            final(self).listing() == if old(self)@.contains_key(name@) {
                old(self).listing()
            } else {
                old(self).listing().push(name@)
            },
    {
        let ghost before = self.listing();
        let ghost values_before = self.values();
        match position(&self.names, name.as_str()) {
            Some(i) => {
                assert(before[i as int] == name@);
                self.values.set(i, value);
                assert(self@ =~= old(self)@.insert(name@, value)) by {
                    assert forall|k: Seq<char>| before.contains(k) implies #[trigger] self@[k]
                        == old(self)@.insert(name@, value)[k] by {
                        let j = before.index_of(k);
                        if k == name@ {
                            assert(j == i);
                        }
                    }
                }
            },
            None => {
                self.names.push(name);
                self.values.push(value);
                let ghost after = self.listing();
                assert(after =~= before.push(name@));
                assert(self@ =~= old(self)@.insert(name@, value)) by {
                    assert forall|k: Seq<char>|
                        after.contains(k) <==> (before.contains(k) || k == name@) by {
                        if after.contains(k) {
                            let j = after.index_of(k);
                            if j < before.len() {
                                assert(before[j] == k);
                            }
                        }
                        if before.contains(k) {
                            let j = before.index_of(k);
                            assert(after[j] == k);
                        }
                        if k == name@ {
                            assert(after[before.len() as int] == k);
                        }
                    }
                    assert forall|k: Seq<char>| after.contains(k) implies #[trigger] self@[k]
                        == old(self)@.insert(name@, value)[k] by {
                        let j = after.index_of(k);
                        if k == name@ {
                            assert(after[before.len() as int] == k);
                            assert(j == before.len());
                        } else {
                            assert(before[j] == k);
                            assert(before.contains(k));
                            assert(before.index_of(k) == j);
                        }
                    }
                }
            },
        }
    }

    /// Stores `value` under `name` if the table has an entry for it, and says
    /// whether it has.
    pub fn replace(&mut self, name: &str, value: V) -> (found: bool)
        requires
            old(self).wf(),
        ensures
            final(self).wf(),
            found == old(self)@.contains_key(name@),
            final(self)@ == if found {
                old(self)@.insert(name@, value)
            } else {
                old(self)@
            },
            final(self).listing() == old(self).listing(),
    {
        let ghost before = self.listing();
        match position(&self.names, name) {
            Some(i) => {
                assert(before[i as int] == name@);
                self.values.set(i, value);
                assert(self@ =~= old(self)@.insert(name@, value)) by {
                    assert forall|k: Seq<char>| before.contains(k) implies #[trigger] self@[k]
                        == old(self)@.insert(name@, value)[k] by {
                        let j = before.index_of(k);
                        if k == name@ {
                            assert(j == i);
                        }
                    }
                }
                true
            },
            None => false,
        }
    }
}

} // verus!
