//! A map from names to values that keeps its entries in the order of names.
//!
//! The entries live in a vector whose names strictly ascend, so a name occurs
//! at most once and the first entry holds the least name.

use crate::utils::text::{lemma_name_lt_irreflexive, lemma_name_lt_transitive, name_lt, rank, Rank};
use vstd::prelude::*;

verus! {

/// The names of `entries` strictly ascend.
pub open spec fn ascending<V>(entries: Seq<(Seq<char>, V)>) -> bool {
    forall|i: int, j: int|
        0 <= i < j < entries.len() ==> name_lt(#[trigger] entries[i].0, #[trigger] entries[j].0)
}

/// `name` is the name of some entry.
pub open spec fn has_name<V>(entries: Seq<(Seq<char>, V)>, name: Seq<char>) -> bool {
    exists|i: int| 0 <= i < entries.len() && #[trigger] entries[i].0 == name
}

/// The place of an entry that is called `name`.
pub open spec fn place_of<V>(entries: Seq<(Seq<char>, V)>, name: Seq<char>) -> int {
    choose|i: int| 0 <= i < entries.len() && #[trigger] entries[i].0 == name
}

/// The finite map that `entries` spell out.
pub open spec fn lookup<V>(entries: Seq<(Seq<char>, V)>) -> Map<Seq<char>, V> {
    Map::new(
        |name: Seq<char>| has_name(entries, name),
        |name: Seq<char>| entries[place_of(entries, name)].1,
    )
}

/// In ascending entries a name has one place only.
pub proof fn lemma_place_is_unique<V>(entries: Seq<(Seq<char>, V)>, i: int)
    requires
        ascending(entries),
        0 <= i < entries.len(),
    ensures
        has_name(entries, entries[i].0),
        place_of(entries, entries[i].0) == i,
        lookup(entries).contains_key(entries[i].0),
        lookup(entries)[entries[i].0] == entries[i].1,
{
    let name = entries[i].0;
    let p = place_of(entries, name);
    assert(0 <= p < entries.len() && entries[p].0 == name);
    lemma_name_lt_irreflexive(name);
    if p < i {
        assert(name_lt(entries[p].0, entries[i].0));
    } else if i < p {
        assert(name_lt(entries[i].0, entries[p].0));
    }
}

/// Putting a new name at its place in the order adds it to the map.
pub proof fn lemma_insert_at_place<V>(
    entries: Seq<(Seq<char>, V)>,
    at: int,
    name: Seq<char>,
    value: V,
)
    requires
        ascending(entries),
        0 <= at <= entries.len(),
        forall|j: int| 0 <= j < at ==> name_lt(#[trigger] entries[j].0, name),
        forall|j: int| at <= j < entries.len() ==> name_lt(name, #[trigger] entries[j].0),
    ensures
        ascending(entries.insert(at, (name, value))),
        lookup(entries.insert(at, (name, value))) == lookup(entries).insert(name, value),
{
    let grown = entries.insert(at, (name, value));
    assert forall|i: int, j: int| 0 <= i < j < grown.len() implies name_lt(
        #[trigger] grown[i].0,
        #[trigger] grown[j].0,
    ) by {
        if i == at {
            assert(grown[j] == entries[j - 1]);
        } else if j == at {
            assert(grown[i] == entries[i]);
        } else {
            let a = if i < at { i } else { i - 1 };
            let b = if j < at { j } else { j - 1 };
            assert(grown[i] == entries[a]);
            assert(grown[j] == entries[b]);
            assert(name_lt(entries[a].0, entries[b].0));
        }
    }
    assert forall|k: Seq<char>| #[trigger]
        lookup(grown).contains_key(k) == lookup(entries).insert(name, value).contains_key(k) by {
        if has_name(grown, k) {
            let p = place_of(grown, k);
            if p != at {
                let q = if p < at { p } else { p - 1 };
                assert(entries[q].0 == k);
            }
        }
        if k == name {
            assert(grown[at].0 == k);
        } else if has_name(entries, k) {
            let q = place_of(entries, k);
            let p = if q < at { q } else { q + 1 };
            assert(grown[p].0 == k);
        }
    }
    assert forall|k: Seq<char>| #[trigger] lookup(grown).contains_key(k) implies lookup(grown)[k]
        == lookup(entries).insert(name, value)[k] by {
        assert(has_name(grown, k));
        let p = place_of(grown, k);
        assert(grown[p].0 == k);
        lemma_place_is_unique(grown, p);
        if p != at {
            let q = if p < at { p } else { p - 1 };
            assert(grown[p] == entries[q]);
            lemma_place_is_unique(entries, q);
            lemma_name_lt_irreflexive(name);
        }
    }
    assert(lookup(grown) =~= lookup(entries).insert(name, value));
}

/// Giving the entry at `at` another value rebinds its name in the map.
pub proof fn lemma_update_at_place<V>(entries: Seq<(Seq<char>, V)>, at: int, value: V)
    requires
        ascending(entries),
        0 <= at < entries.len(),
    ensures
        ascending(entries.update(at, (entries[at].0, value))),
        lookup(entries.update(at, (entries[at].0, value))) == lookup(entries).insert(
            entries[at].0,
            value,
        ),
{
    let name = entries[at].0;
    let changed = entries.update(at, (name, value));
    assert forall|i: int, j: int| 0 <= i < j < changed.len() implies name_lt(
        #[trigger] changed[i].0,
        #[trigger] changed[j].0,
    ) by {
        assert(changed[i].0 == entries[i].0);
        assert(changed[j].0 == entries[j].0);
    }
    assert forall|k: Seq<char>| #[trigger]
        lookup(changed).contains_key(k) == lookup(entries).insert(name, value).contains_key(k) by {
        if has_name(changed, k) {
            let p = place_of(changed, k);
            assert(entries[p].0 == k);
        }
        if has_name(entries, k) {
            let q = place_of(entries, k);
            assert(changed[q].0 == k);
        }
        if k == name {
            assert(changed[at].0 == k);
        }
    }
    assert forall|k: Seq<char>| #[trigger] lookup(changed).contains_key(k) implies lookup(
        changed,
    )[k] == lookup(entries).insert(name, value)[k] by {
        assert(has_name(changed, k));
        let p = place_of(changed, k);
        assert(changed[p].0 == k);
        lemma_place_is_unique(changed, p);
        if p != at {
            assert(changed[p] == entries[p]);
            lemma_place_is_unique(entries, p);
            lemma_place_is_unique(entries, at);
        }
    }
    assert(lookup(changed) =~= lookup(entries).insert(name, value));
}

/// A name below every entry, or above every entry before it and below the
/// rest, is no entry's name.
pub proof fn lemma_gap_has_no_name<V>(entries: Seq<(Seq<char>, V)>, at: int, name: Seq<char>)
    requires
        0 <= at <= entries.len(),
        forall|j: int| 0 <= j < at ==> name_lt(#[trigger] entries[j].0, name),
        forall|j: int| at <= j < entries.len() ==> name_lt(name, #[trigger] entries[j].0),
    ensures
        !has_name(entries, name),
{
    lemma_name_lt_irreflexive(name);
}

/// `name` is one of `names` and sorts before all the others.
pub open spec fn is_least(names: Set<Seq<char>>, name: Seq<char>) -> bool {
    &&& names.contains(name)
    &&& forall|other: Seq<char>| #[trigger]
        names.contains(other) ==> other == name || name_lt(name, other)
}

/// The one of `names` that sorts before all the others, where there is one.
pub open spec fn least_name(names: Set<Seq<char>>) -> Seq<char> {
    choose|name: Seq<char>| is_least(names, name)
}

/// A set of names has one least name at most.
pub proof fn lemma_least_is_unique(names: Set<Seq<char>>, name: Seq<char>)
    requires
        is_least(names, name),
    ensures
        least_name(names) == name,
{
    let chosen = least_name(names);
    assert(is_least(names, chosen));
    if chosen != name {
        assert(names.contains(chosen));
        assert(names.contains(name));
        lemma_name_lt_transitive(name, chosen, name);
        lemma_name_lt_irreflexive(name);
    }
}

/// What the pairs spell, each with the text of its name.
pub open spec fn named<V>(pairs: Seq<(String, V)>) -> Seq<(Seq<char>, V)> {
    pairs.map_values(|pair: (String, V)| (pair.0@, pair.1))
}

/// The map that binds each name to the value of the last pair that has it.
pub open spec fn bindings<V>(pairs: Seq<(Seq<char>, V)>) -> Map<Seq<char>, V>
    decreases pairs.len(),
{
    if pairs.len() == 0 {
        Map::empty()
    } else {
        bindings(pairs.drop_last()).insert(pairs.last().0, pairs.last().1)
    }
}

/// Ascending entries without their last entry spell the same map without
/// the last name.
pub proof fn lemma_lookup_of_front<V>(entries: Seq<(Seq<char>, V)>)
    requires
        ascending(entries),
        entries.len() > 0,
    ensures
        ascending(entries.drop_last()),
        !lookup(entries.drop_last()).contains_key(entries.last().0),
        lookup(entries) == lookup(entries.drop_last()).insert(entries.last().0, entries.last().1),
{
    let front = entries.drop_last();
    let last = entries.last();
    assert forall|i: int, j: int| 0 <= i < j < front.len() implies name_lt(
        #[trigger] front[i].0,
        #[trigger] front[j].0,
    ) by {
        assert(front[i] == entries[i]);
        assert(front[j] == entries[j]);
    }
    assert forall|j: int| 0 <= j < front.len() implies name_lt(#[trigger] front[j].0, last.0) by {
        assert(front[j] == entries[j]);
        assert(name_lt(entries[j].0, entries[entries.len() - 1].0));
    }
    lemma_gap_has_no_name(front, front.len() as int, last.0);
    lemma_insert_at_place(front, front.len() as int, last.0, last.1);
    assert(front.insert(front.len() as int, last) =~= entries);
}

/// Ascending entries spell a map with as many names as there are entries.
pub proof fn lemma_lookup_len<V>(entries: Seq<(Seq<char>, V)>)
    requires
        ascending(entries),
    ensures
        lookup(entries).dom().finite(),
        lookup(entries).dom().len() == entries.len(),
    decreases entries.len(),
{
    if entries.len() == 0 {
        assert(lookup(entries).dom() =~= Set::<Seq<char>>::empty());
    } else {
        lemma_lookup_of_front(entries);
        lemma_lookup_len(entries.drop_last());
        assert(lookup(entries).dom() =~= lookup(entries.drop_last()).dom().insert(
            entries.last().0,
        ));
    }
}

/// A map from names to values of type `V`, kept in the order of names.
#[derive(Debug)]
pub struct NameMap<V> {
    slots: Vec<(String, V)>,
}

impl<V> View for NameMap<V> {
    type V = Map<Seq<char>, V>;

    /// What each name is bound to.
    open spec fn view(&self) -> Map<Seq<char>, V> {
        lookup(self.entries())
    }
}

impl<V> NameMap<V> {
    /// The entries from the least name to the greatest.
    pub closed spec fn entries(&self) -> Seq<(Seq<char>, V)> {
        Seq::new(self.slots@.len(), |i: int| (self.slots@[i].0@, self.slots@[i].1))
    }

    #[verifier::type_invariant]
    spec fn names_ascend(&self) -> bool {
        ascending(self.entries())
    }

    /// A map without entries.
    pub fn new() -> (m: Self)
        ensures
            m.entries() == Seq::<(Seq<char>, V)>::empty(),
            m@ == Map::<Seq<char>, V>::empty(),
    {
        let m = NameMap { slots: Vec::new() };
        assert(m.entries() =~= Seq::<(Seq<char>, V)>::empty());
        assert(m@ =~= Map::<Seq<char>, V>::empty());
        m
    }

    /// The number of entries.
    pub fn len(&self) -> (n: usize)
        ensures
            n == self.entries().len(),
            ascending(self.entries()),
            self@.dom().finite(),
            n == self@.dom().len(),
    {
        proof {
            use_type_invariant(self);
            lemma_lookup_len(self.entries());
        }
        self.slots.len()
    }

    /// Whether the map has no entry.
    pub fn is_empty(&self) -> (b: bool)
        ensures
            b == (self.entries().len() == 0),
            b == (self@ == Map::<Seq<char>, V>::empty()),
    {
        proof {
            if self.entries().len() == 0 {
                assert(self@ =~= Map::<Seq<char>, V>::empty());
            } else {
                use_type_invariant(self);
                lemma_place_is_unique(self.entries(), 0);
            }
        }
        self.slots.len() == 0
    }

    /// The entry at place `i`, counted from the least name, if there is one.
    pub fn entry_at(&self, i: usize) -> (r: Option<(&String, &V)>)
        ensures
            match r {
                Some((name, value)) => {
                    &&& i < self.entries().len()
                    &&& name@ == self.entries()[i as int].0
                    &&& *value == self.entries()[i as int].1
                    &&& self@.contains_key(name@)
                    &&& self@[name@] == *value
                },
                None => i >= self.entries().len(),
            },
    {
        if i < self.slots.len() {
            proof {
                use_type_invariant(self);
                lemma_place_is_unique(self.entries(), i as int);
            }
            Some((&self.slots[i].0, &self.slots[i].1))
        } else {
            None
        }
    }

    /// Where `name` stands in the order: the place of its entry and `true`, or
    /// the place where an entry of that name would go and `false`.
    fn locate(&self, name: &str) -> (r: (usize, bool))
        ensures
            r.0 <= self.entries().len(),
            forall|j: int| 0 <= j < r.0 ==> name_lt(#[trigger] self.entries()[j].0, name@),
            r.1 ==> r.0 < self.entries().len() && self.entries()[r.0 as int].0 == name@,
            !r.1 ==> forall|j: int|
                r.0 <= j < self.entries().len() ==> name_lt(name@, #[trigger] self.entries()[j].0),
            r.1 == self@.contains_key(name@),
    {
        proof {
            use_type_invariant(self);
        }
        let mut i: usize = 0;
        while i < self.slots.len()
            invariant
                i <= self.slots@.len(),
                self.slots@.len() == self.entries().len(),
                ascending(self.entries()),
                forall|j: int| 0 <= j < i ==> name_lt(#[trigger] self.entries()[j].0, name@),
            decreases self.slots@.len() - i,
        {
            let standing = rank(self.slots[i].0.as_str(), name);
            match standing {
                Rank::Before => {
                    i = i + 1;
                },
                Rank::Same => {
                    proof {
                        lemma_place_is_unique(self.entries(), i as int);
                    }
                    return (i, true);
                },
                Rank::After => {
                    proof {
                        assert forall|j: int| i <= j < self.entries().len() implies name_lt(
                            name@,
                            #[trigger] self.entries()[j].0,
                        ) by {
                            if i < j {
                                assert(name_lt(self.entries()[i as int].0, self.entries()[j].0));
                                lemma_name_lt_transitive(
                                    name@,
                                    self.entries()[i as int].0,
                                    self.entries()[j].0,
                                );
                            }
                        }
                        lemma_gap_has_no_name(self.entries(), i as int, name@);
                    }
                    return (i, false);
                },
            }
        }
        proof {
            lemma_gap_has_no_name(self.entries(), i as int, name@);
        }
        (i, false)
    }

    /// Whether `name` is bound.
    pub fn contains(&self, name: &str) -> (b: bool)
        ensures
            b == self@.contains_key(name@),
    {
        self.locate(name).1
    }

    /// The value that `name` is bound to, if any.
    pub fn get(&self, name: &str) -> (r: Option<&V>)
        ensures
            match r {
                Some(value) => self@.contains_key(name@) && *value == self@[name@],
                None => !self@.contains_key(name@),
            },
    {
        let (at, found) = self.locate(name);
        if found {
            proof {
                use_type_invariant(self);
                lemma_place_is_unique(self.entries(), at as int);
            }
            Some(&self.slots[at].1)
        } else {
            None
        }
    }

    /// The entry with the least name, if the map has any entry.
    pub fn first(&self) -> (r: Option<(&String, &V)>)
        ensures
            match r {
                Some((name, value)) => {
                    &&& is_least(self@.dom(), name@)
                    &&& name@ == least_name(self@.dom())
                    &&& self@[name@] == *value
                },
                None => self@ == Map::<Seq<char>, V>::empty(),
            },
    {
        if self.slots.len() == 0 {
            assert(self@ =~= Map::<Seq<char>, V>::empty());
            None
        } else {
            proof {
                use_type_invariant(self);
                lemma_place_is_unique(self.entries(), 0);
                let least = self.entries()[0].0;
                assert forall|other: Seq<char>| #[trigger]
                    self@.dom().contains(other) implies other == least || name_lt(least, other) by {
                    assert(has_name(self.entries(), other));
                    let p = place_of(self.entries(), other);
                    if p > 0 {
                        assert(name_lt(self.entries()[0].0, self.entries()[p].0));
                    }
                }
                lemma_least_is_unique(self@.dom(), least);
            }
            Some((&self.slots[0].0, &self.slots[0].1))
        }
    }

    /// Binds `name` to `value`; a value that `name` was bound to is dropped.
    pub fn insert(&mut self, name: String, value: V)
        ensures
            final(self)@ == old(self)@.insert(name@, value),
    {
        let (at, found) = self.locate(name.as_str());
        proof {
            use_type_invariant(&*self);
            if found {
                lemma_update_at_place(self.entries(), at as int, value);
                assert(self.entries().update(at as int, (name@, value)) =~= Seq::new(
                    self.slots@.len(),
                    |i: int|
                        (
                            self.slots@.update(at as int, (name, value))[i].0@,
                            self.slots@.update(at as int, (name, value))[i].1,
                        ),
                ));
            } else {
                lemma_insert_at_place(self.entries(), at as int, name@, value);
                assert(self.entries().insert(at as int, (name@, value)) =~= Seq::new(
                    (self.slots@.len() + 1) as nat,
                    |i: int|
                        (
                            self.slots@.insert(at as int, (name, value))[i].0@,
                            self.slots@.insert(at as int, (name, value))[i].1,
                        ),
                ));
            }
        }
        let mut slots: Vec<(String, V)> = Vec::new();
        proof {
            assert(Seq::new(0, |i: int| (slots@[i].0@, slots@[i].1)) =~= Seq::<
                (Seq<char>, V),
            >::empty());
        }
        core::mem::swap(&mut self.slots, &mut slots);
        if found {
            slots.set(at, (name, value));
        } else {
            slots.insert(at, (name, value));
        }
        core::mem::swap(&mut self.slots, &mut slots);
    }

    /// The map that binds each name to the value of the last of `pairs` that
    /// has it.
    pub fn from_pairs(pairs: Vec<(String, V)>) -> (m: Self)
        ensures
            m@ == bindings(named(pairs@)),
    {
        let ghost all = named(pairs@);
        let mut rest = pairs;
        let mut m = Self::new();
        while rest.len() > 0
            invariant
                named(rest@) == all.take(rest@.len() as int),
                rest@.len() <= all.len(),
                bindings(all) == bindings(named(rest@)).union_prefer_right(m@),
            decreases rest@.len(),
        {
            let ghost before = named(rest@);
            let ghost bound = m@;
            match rest.pop() {
                Some((name, value)) => {
                    proof {
                        assert(named(rest@) =~= before.drop_last());
                        assert(before.last() == (name@, value));
                        assert(named(rest@) =~= all.take(rest@.len() as int));
                    }
                    if !m.contains(name.as_str()) {
                        m.insert(name, value);
                    }
                    assert(bindings(before) =~= bindings(before.drop_last()).insert(
                        name@,
                        value,
                    ));
                    assert(bindings(before).union_prefer_right(bound) =~= bindings(
                        before.drop_last(),
                    ).union_prefer_right(m@));
                },
                None => {},
            }
        }
        assert(bindings(named(rest@)) =~= Map::<Seq<char>, V>::empty());
        assert(bindings(all) =~= m@);
        m
    }

    /// The entries from the least name to the greatest.
    pub fn into_pairs(self) -> (pairs: Vec<(String, V)>)
        ensures
            named(pairs@) == self.entries(),
            ascending(named(pairs@)),
            lookup(named(pairs@)) == self@,
    {
        proof {
            use_type_invariant(&self);
            assert(named(self.slots@) =~= self.entries());
        }
        self.slots
    }

    /// The map that holds the entries of `over` and, for every other name,
    /// the entry of `self`.
    pub fn merge(self, over: Self) -> (merged: Self)
        ensures
            merged@ == self@.union_prefer_right(over@),
    {
        proof {
            use_type_invariant(&over);
        }
        let ghost base = self@;
        let ghost all = over.entries();
        let mut merged = self;
        let mut rest = over.slots;
        assert(named(rest@) =~= all);
        while rest.len() > 0
            invariant
                ascending(named(rest@)),
                base.union_prefer_right(lookup(all)) == merged@.union_prefer_right(
                    lookup(named(rest@)),
                ),
            decreases rest@.len(),
        {
            let ghost before = named(rest@);
            let ghost held = merged@;
            match rest.pop() {
                Some((name, value)) => {
                    proof {
                        assert(named(rest@) =~= before.drop_last());
                        assert(before.last() == (name@, value));
                        lemma_lookup_of_front(before);
                    }
                    merged.insert(name, value);
                    assert(held.union_prefer_right(lookup(before)) =~= merged@.union_prefer_right(
                        lookup(before.drop_last()),
                    ));
                },
                None => {},
            }
        }
        assert(lookup(named(rest@)) =~= Map::<Seq<char>, V>::empty());
        assert(merged@.union_prefer_right(Map::<Seq<char>, V>::empty()) =~= merged@);
        merged
    }
}

} // verus!
