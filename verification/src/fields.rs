//! Small maps that remember the order in which their keys first arrived:
//! `TextMap` from text to text, and `FieldTable` from known header fields to
//! text.

use vstd::prelude::*;
use crate::protocol::RequestField;
use crate::text::same_text;

verus! {

/// No key occurs twice among the entries.
pub open spec fn distinct_keys<K, V>(e: Seq<(K, V)>) -> bool {
    forall|i: int, j: int| 0 <= i < j < e.len() ==> e[i].0 != e[j].0
}

/// The position of the entry with key `k`, if there is one.
pub open spec fn position<K, V>(e: Seq<(K, V)>, k: K) -> Option<int> {
    if exists|i: int| 0 <= i < e.len() && e[i].0 == k {
        Some(choose|i: int| 0 <= i < e.len() && e[i].0 == k)
    } else {
        None
    }
}

/// The mapping that the entries stand for; of two entries with one key the
/// later one counts.
pub open spec fn to_map<K, V>(e: Seq<(K, V)>) -> Map<K, V>
    decreases e.len(),
{
    if e.len() == 0 {
        Map::empty()
    } else {
        to_map(e.drop_last()).insert(e.last().0, e.last().1)
    }
}

/// The entries after `k` is set to `v`: the entry with key `k` is replaced
/// where it stands, or a new entry is added at the end.
pub open spec fn upsert<K, V>(e: Seq<(K, V)>, k: K, v: V) -> Seq<(K, V)> {
    match position(e, k) {
        Some(i) => e.update(i, (k, v)),
        None => e.push((k, v)),
    }
}

/// With distinct keys, the mapping holds exactly the entries.
pub proof fn lemma_to_map<K, V>(e: Seq<(K, V)>)
    requires
        distinct_keys(e),
    ensures
        forall|i: int| 0 <= i < e.len() ==> to_map(e).contains_key(#[trigger] e[i].0) && to_map(
            e,
        )[e[i].0] == e[i].1,
        forall|k: K| #[trigger]
            to_map(e).contains_key(k) ==> exists|i: int| 0 <= i < e.len() && e[i].0 == k,
    decreases e.len(),
{
    if e.len() > 0 {
        let front = e.drop_last();
        lemma_to_map(front);
        assert forall|k: K| #[trigger] to_map(e).contains_key(k) implies exists|i: int|
            0 <= i < e.len() && e[i].0 == k by {
            if k == e.last().0 {
                assert(e[e.len() - 1].0 == k);
            } else {
                assert(to_map(front).contains_key(k));
                let i = choose|i: int| 0 <= i < front.len() && front[i].0 == k;
                assert(e[i].0 == k);
            }
        }
        assert forall|i: int| 0 <= i < e.len() implies to_map(e).contains_key(#[trigger] e[i].0)
            && to_map(e)[e[i].0] == e[i].1 by {
            if i < e.len() - 1 {
                assert(front[i] == e[i]);
                assert(to_map(front).contains_key(front[i].0));
            }
        }
    }
}

/// Setting a key keeps the keys distinct, and the mapping becomes the old one
/// with that key set.
pub proof fn lemma_upsert<K, V>(e: Seq<(K, V)>, k: K, v: V)
    requires
        distinct_keys(e),
    ensures
        distinct_keys(upsert(e, k, v)),
        to_map(upsert(e, k, v)) == to_map(e).insert(k, v),
{
    let u = upsert(e, k, v);
    match position(e, k) {
        Some(i) => {
            assert(0 <= i < e.len() && e[i].0 == k);
            assert forall|a: int, b: int| 0 <= a < b < u.len() implies u[a].0 != u[b].0 by {
                assert(u[a].0 == e[a].0);
                assert(u[b].0 == e[b].0);
            }
        },
        None => {
            assert forall|a: int, b: int| 0 <= a < b < u.len() implies u[a].0 != u[b].0 by {
                if b == e.len() {
                    assert(e[a].0 != k);
                }
            }
        },
    }
    lemma_to_map(e);
    lemma_to_map(u);
    let m = to_map(e).insert(k, v);
    assert forall|x: K| to_map(u).contains_key(x) <==> m.contains_key(x) by {
        if to_map(u).contains_key(x) {
            let i = choose|i: int| 0 <= i < u.len() && u[i].0 == x;
            if x != k {
                assert(e[i].0 == x);
            }
        }
        if m.contains_key(x) && x != k {
            let i = choose|i: int| 0 <= i < e.len() && e[i].0 == x;
            assert(u[i].0 == x);
        }
        if x == k {
            match position(e, k) {
                Some(i) => {
                    assert(u[i].0 == k);
                },
                None => {
                    assert(u[u.len() - 1].0 == k);
                },
            }
        }
    }
    assert forall|x: K| to_map(u).contains_key(x) implies to_map(u)[x] == m[x] by {
        let i = choose|i: int| 0 <= i < u.len() && u[i].0 == x;
        assert(to_map(u)[u[i].0] == u[i].1);
        if x != k {
            assert(e[i].0 == x);
            assert(to_map(e)[e[i].0] == e[i].1);
        }
    }
    assert(to_map(u) =~= m);
}

/// A map from text to text. Its entries stand in the order in which their
/// keys were first set.
#[derive(Debug)]
pub struct TextMap {
    entries: Vec<(String, String)>,
}

impl View for TextMap {
    type V = Map<Seq<char>, Seq<char>>;

    open spec fn view(&self) -> Map<Seq<char>, Seq<char>> {
        to_map(self.entries())
    }
}

impl TextMap {
    /// The entries, in order, as pairs of texts.
    pub closed spec fn entries(&self) -> Seq<(Seq<char>, Seq<char>)> {
        Seq::new(self.entries@.len(), |i: int| (self.entries@[i].0@, self.entries@[i].1@))
    }

    #[verifier::type_invariant]
    spec fn keys_are_distinct(&self) -> bool {
        distinct_keys(self.entries())
    }

    /// An empty map.
    pub fn new() -> (m: TextMap)
        ensures
            m.entries() == Seq::<(Seq<char>, Seq<char>)>::empty(),
            m@ == Map::<Seq<char>, Seq<char>>::empty(),
    {
        let m = TextMap { entries: Vec::new() };
        assert(m.entries() =~= Seq::empty());
        m
    }

    /// The number of entries.
    pub fn len(&self) -> (n: usize)
        ensures
            n == self.entries().len(),
    {
        self.entries.len()
    }

    /// Is the map empty?
    pub fn is_empty(&self) -> (r: bool)
        ensures
            r == (self.entries().len() == 0),
            r == (self@ == Map::<Seq<char>, Seq<char>>::empty()),
    {
        proof {
            use_type_invariant(self);
            lemma_to_map(self.entries());
            if self.entries().len() > 0 {
                assert(self@.contains_key(self.entries()[0].0));
            }
        }
        self.entries.len() == 0
    }

    fn find(&self, key: &str) -> (r: Option<usize>)
        ensures
            match r {
                Some(i) => i < self.entries().len() && self.entries()[i as int].0 == key@,
                None => forall|j: int| 0 <= j < self.entries().len() ==> self.entries()[j].0 != key@,
            },
    {
        let mut i: usize = 0;
        while i < self.entries.len()
            invariant
                i <= self.entries@.len(),
                forall|j: int| 0 <= j < i ==> self.entries()[j].0 != key@,
            decreases self.entries@.len() - i,
        {
            if same_text(self.entries[i].0.as_str(), key) {
                return Some(i);
            }
            i += 1;
        }
        None
    }

    /// Set `key` to `value`. An entry with that key is replaced where it
    /// stands; otherwise a new entry is added after the others.
    pub fn insert(&mut self, key: String, value: String)
        ensures
            final(self).entries() == upsert(old(self).entries(), key@, value@),
            final(self)@ == old(self)@.insert(key@, value@),
    {
        proof {
            use_type_invariant(&*self);
            lemma_upsert(self.entries(), key@, value@);
        }
        let ghost before = self.entries();
        let found = self.find(key.as_str());
        // The entries are taken out, changed, and put back.
        let mut entries: Vec<(String, String)> = Vec::new();
        core::mem::swap(&mut self.entries, &mut entries);
        match found {
            Some(i) => {
                proof {
                    let p = position(before, key@).unwrap();
                    assert(0 <= p < before.len() && before[p].0 == key@);
                    assert(before[i as int].0 == key@);
                    assert(p == i);
                }
                entries.set(i, (key, value));
            },
            None => {
                entries.push((key, value));
            },
        }
        proof {
            let after = Seq::new(entries@.len(), |i: int| (entries@[i].0@, entries@[i].1@));
            assert(after =~= upsert(before, key@, value@));
        }
        core::mem::swap(&mut self.entries, &mut entries);
        assert(self.entries() =~= upsert(before, key@, value@));
    }

    /// The value that `key` is set to.
    pub fn get(&self, key: &str) -> (r: Option<&String>)
        ensures
            match r {
                Some(v) => self@.contains_key(key@) && self@[key@] == v@,
                None => !self@.contains_key(key@),
            },
    {
        proof {
            use_type_invariant(self);
            lemma_to_map(self.entries());
        }
        match self.find(key) {
            Some(i) => {
                assert(self@.contains_key(self.entries()[i as int].0));
                Some(&self.entries[i].1)
            },
            None => None,
        }
    }

    /// The key of the entry at position `i`.
    pub fn key_at(&self, i: usize) -> (k: &String)
        requires
            i < self.entries().len(),
        ensures
            k@ == self.entries()[i as int].0,
    {
        &self.entries[i].0
    }

    /// The value of the entry at position `i`.
    pub fn value_at(&self, i: usize) -> (v: &String)
        requires
            i < self.entries().len(),
        ensures
            v@ == self.entries()[i as int].1,
    {
        &self.entries[i].1
    }
}

/// A map from header fields to text. Its entries stand in the order in which
/// their fields were first set.
#[derive(Debug)]
pub struct FieldTable {
    entries: Vec<(RequestField, String)>,
}

impl View for FieldTable {
    type V = Map<RequestField, Seq<char>>;

    open spec fn view(&self) -> Map<RequestField, Seq<char>> {
        to_map(self.entries())
    }
}

impl FieldTable {
    /// The entries, in order, each a field and the text of its value.
    pub closed spec fn entries(&self) -> Seq<(RequestField, Seq<char>)> {
        Seq::new(self.entries@.len(), |i: int| (self.entries@[i].0, self.entries@[i].1@))
    }

    #[verifier::type_invariant]
    spec fn fields_are_distinct(&self) -> bool {
        distinct_keys(self.entries())
    }

    /// An empty table.
    pub fn new() -> (m: FieldTable)
        ensures
            m.entries() == Seq::<(RequestField, Seq<char>)>::empty(),
            m@ == Map::<RequestField, Seq<char>>::empty(),
    {
        let m = FieldTable { entries: Vec::new() };
        assert(m.entries() =~= Seq::empty());
        m
    }

    /// The number of entries.
    pub fn len(&self) -> (n: usize)
        ensures
            n == self.entries().len(),
    {
        self.entries.len()
    }

    fn find(&self, field: RequestField) -> (r: Option<usize>)
        ensures
            match r {
                Some(i) => i < self.entries().len() && self.entries()[i as int].0 == field,
                None => forall|j: int| 0 <= j < self.entries().len() ==> self.entries()[j].0 != field,
            },
    {
        let mut i: usize = 0;
        while i < self.entries.len()
            invariant
                i <= self.entries@.len(),
                forall|j: int| 0 <= j < i ==> self.entries()[j].0 != field,
            decreases self.entries@.len() - i,
        {
            if self.entries[i].0 == field {
                return Some(i);
            }
            i += 1;
        }
        None
    }

    /// Set `field` to `value`. An entry for that field is replaced where it
    /// stands; otherwise a new entry is added after the others.
    pub fn insert(&mut self, field: RequestField, value: String)
        ensures
            final(self).entries() == upsert(old(self).entries(), field, value@),
            final(self)@ == old(self)@.insert(field, value@),
    {
        proof {
            use_type_invariant(&*self);
            lemma_upsert(self.entries(), field, value@);
        }
        let ghost before = self.entries();
        let found = self.find(field);
        // The entries are taken out, changed, and put back.
        let mut entries: Vec<(RequestField, String)> = Vec::new();
        core::mem::swap(&mut self.entries, &mut entries);
        match found {
            Some(i) => {
                proof {
                    let p = position(before, field).unwrap();
                    assert(0 <= p < before.len() && before[p].0 == field);
                    assert(before[i as int].0 == field);
                    assert(p == i);
                }
                entries.set(i, (field, value));
            },
            None => {
                entries.push((field, value));
            },
        }
        proof {
            let after = Seq::new(entries@.len(), |i: int| (entries@[i].0, entries@[i].1@));
            assert(after =~= upsert(before, field, value@));
        }
        core::mem::swap(&mut self.entries, &mut entries);
        assert(self.entries() =~= upsert(before, field, value@));
    }

    /// The value that `field` is set to.
    pub fn get(&self, field: RequestField) -> (r: Option<&String>)
        ensures
            match r {
                Some(v) => self@.contains_key(field) && self@[field] == v@,
                None => !self@.contains_key(field),
            },
    {
        proof {
            use_type_invariant(self);
            lemma_to_map(self.entries());
        }
        match self.find(field) {
            Some(i) => {
                assert(self@.contains_key(self.entries()[i as int].0));
                Some(&self.entries[i].1)
            },
            None => None,
        }
    }

    /// The field of the entry at position `i`.
    pub fn field_at(&self, i: usize) -> (f: RequestField)
        requires
            i < self.entries().len(),
        ensures
            f == self.entries()[i as int].0,
    {
        self.entries[i].0
    }

    /// The value of the entry at position `i`.
    pub fn value_at(&self, i: usize) -> (v: &String)
        requires
            i < self.entries().len(),
        ensures
            v@ == self.entries()[i as int].1,
    {
        &self.entries[i].1
    }
}

} // verus!
