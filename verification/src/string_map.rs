use vstd::prelude::*;

use crate::text::text_eq;

verus! {

/// A map from strings to strings that keeps its entries in insertion order.
///
/// It stands where a `HashMap<String, String>` would: vstd's contracts for
/// `HashMap` state nothing usable about `String` keys, so the map is kept as
/// a vector of distinct keys with a `Map` view.
///
/// Keys are distinct. Inserting an existing key replaces its value in place;
/// inserting a new key appends an entry. Lookups compare keys character by
/// character.
#[derive(Debug)]
pub struct StringMap {
    entries: Vec<(String, String)>,
}

/// The key/value pairs of a sequence of string entries, as character sequences.
pub open spec fn entry_views(s: Seq<(String, String)>) -> Seq<(Seq<char>, Seq<char>)> {
    s.map_values(|e: (String, String)| (e.0@, e.1@))
}

/// No key occurs twice in a sequence of entries.
pub open spec fn keys_distinct(s: Seq<(Seq<char>, Seq<char>)>) -> bool {
    forall|i: int, j: int| 0 <= i < s.len() && 0 <= j < s.len() && i != j ==> s[i].0 != s[j].0
}

/// Some entry of the sequence has key `k`.
pub open spec fn has_key(s: Seq<(Seq<char>, Seq<char>)>, k: Seq<char>) -> bool {
    exists|i: int| 0 <= i < s.len() && s[i].0 == k
}

/// The map that a sequence of entries with distinct keys stands for.
pub open spec fn entries_map(s: Seq<(Seq<char>, Seq<char>)>) -> Map<Seq<char>, Seq<char>> {
    Map::new(
        |k: Seq<char>| has_key(s, k),
        |k: Seq<char>| s[choose|i: int| 0 <= i < s.len() && s[i].0 == k].1,
    )
}

/// With distinct keys, the entry at index `i` is what the map holds for its key.
pub proof fn lemma_entries_map_at(s: Seq<(Seq<char>, Seq<char>)>, i: int)
    requires
        keys_distinct(s),
        0 <= i < s.len(),
    ensures
        entries_map(s).contains_key(s[i].0),
        entries_map(s)[s[i].0] == s[i].1,
{
    let k = s[i].0;
    assert(has_key(s, k));
    let j = choose|j: int| 0 <= j < s.len() && s[j].0 == k;
    assert(j == i);
}

/// Replacing the value of the entry at index `i` updates the map at its key.
proof fn lemma_entries_map_update(
    s: Seq<(Seq<char>, Seq<char>)>,
    i: int,
    v: Seq<char>,
)
    requires
        keys_distinct(s),
        0 <= i < s.len(),
    ensures
        keys_distinct(s.update(i, (s[i].0, v))),
        entries_map(s.update(i, (s[i].0, v))) =~= entries_map(s).insert(s[i].0, v),
{
    let k = s[i].0;
    let t = s.update(i, (k, v));
    assert(keys_distinct(t));
    assert forall|key: Seq<char>| has_key(t, key) <==> has_key(s, key) by {
        if has_key(t, key) {
            let j = choose|j: int| 0 <= j < t.len() && t[j].0 == key;
            assert(s[j].0 == key);
        }
        if has_key(s, key) {
            let j = choose|j: int| 0 <= j < s.len() && s[j].0 == key;
            assert(t[j].0 == key);
        }
    }
    assert forall|key: Seq<char>| #[trigger]
        entries_map(t).contains_key(key) implies entries_map(t)[key] == entries_map(s).insert(
            k,
            v,
        )[key] by {
        let j = choose|j: int| 0 <= j < t.len() && t[j].0 == key;
        lemma_entries_map_at(t, j);
        if j != i {
            lemma_entries_map_at(s, j);
        }
    }
}

/// Appending an entry with a new key inserts it into the map.
proof fn lemma_entries_map_push(s: Seq<(Seq<char>, Seq<char>)>, k: Seq<char>, v: Seq<char>)
    requires
        keys_distinct(s),
        !has_key(s, k),
    ensures
        keys_distinct(s.push((k, v))),
        entries_map(s.push((k, v))) =~= entries_map(s).insert(k, v),
{
    let t = s.push((k, v));
    assert(keys_distinct(t));
    assert forall|key: Seq<char>| has_key(t, key) <==> (has_key(s, key) || key == k) by {
        if has_key(t, key) {
            let j = choose|j: int| 0 <= j < t.len() && t[j].0 == key;
            if j < s.len() {
                assert(s[j].0 == key);
            }
        }
        if has_key(s, key) {
            let j = choose|j: int| 0 <= j < s.len() && s[j].0 == key;
            assert(t[j].0 == key);
        }
        if key == k {
            assert(t[s.len() as int].0 == key);
        }
    }
    assert forall|key: Seq<char>| #[trigger]
        entries_map(t).contains_key(key) implies entries_map(t)[key] == entries_map(s).insert(
            k,
            v,
        )[key] by {
        let j = choose|j: int| 0 <= j < t.len() && t[j].0 == key;
        lemma_entries_map_at(t, j);
        if j < s.len() {
            lemma_entries_map_at(s, j);
        }
    }
}

impl StringMap {
    /// The entries, in order, as character sequences.
    pub closed spec fn entries_view(self) -> Seq<(Seq<char>, Seq<char>)> {
        entry_views(self.entries@)
    }

    #[verifier::type_invariant]
    closed spec fn inv(self) -> bool {
        keys_distinct(entry_views(self.entries@))
    }

    /// An empty map.
    pub fn new() -> (r: StringMap)
        ensures
            r@ == Map::<Seq<char>, Seq<char>>::empty(),
            r.entries_view().len() == 0,
    {
        let r = StringMap { entries: Vec::new() };
        assert(entry_views(r.entries@) =~= Seq::<(Seq<char>, Seq<char>)>::empty());
        assert(r@ =~= Map::<Seq<char>, Seq<char>>::empty());
        r
    }

    /// The number of entries. The entries have distinct keys and make up the
    /// map that `self` stands for.
    pub fn len(&self) -> (r: usize)
        ensures
            r == self.entries_view().len(),
            keys_distinct(self.entries_view()),
            self@ == entries_map(self.entries_view()),
    {
        proof {
            use_type_invariant(self);
        }
        self.entries.len()
    }

    /// The key and value of the entry at position `i`.
    pub fn entry(&self, i: usize) -> (r: (&String, &String))
        requires
            i < self.entries_view().len(),
        ensures
            r.0@ == self.entries_view()[i as int].0,
            r.1@ == self.entries_view()[i as int].1,
    {
        let e = &self.entries[i];
        (&e.0, &e.1)
    }

    /// The position of the entry with key `k`, if any.
    fn position(&self, k: &str) -> (r: Option<usize>)
        ensures
            match r {
                Some(i) => i < self.entries_view().len() && self.entries_view()[i as int].0 == k@,
                None => !has_key(self.entries_view(), k@),
            },
    {
        let n = self.entries.len();
        let mut i: usize = 0;
        while i < n
            invariant
                n == self.entries@.len(),
                i <= n,
                forall|j: int| 0 <= j < i ==> self.entries_view()[j].0 != k@,
            decreases n - i,
        {
            if text_eq(self.entries[i].0.as_str(), k) {
                return Some(i);
            }
            i = i + 1;
        }
        None
    }

    /// Whether some entry has key `k`.
    pub fn contains_key(&self, k: &str) -> (r: bool)
        ensures
            r == self@.contains_key(k@),
    {
        self.position(k).is_some()
    }

    /// The value stored under key `k`, if any.
    pub fn get(&self, k: &str) -> (r: Option<&String>)
        ensures
            match r {
                Some(v) => self@.contains_key(k@) && v@ == self@[k@],
                None => !self@.contains_key(k@),
            },
    {
        proof {
            use_type_invariant(self);
        }
        match self.position(k) {
            Some(i) => {
                proof {
                    lemma_entries_map_at(self.entries_view(), i as int);
                }
                Some(&self.entries[i].1)
            },
            None => None,
        }
    }

    /// Stores `v` under `k`: an existing entry for `k` keeps its position and
    /// takes the new value, otherwise a new entry is appended.
    pub fn insert(&mut self, k: String, v: String)
        ensures
            final(self)@ == old(self)@.insert(k@, v@),
            has_key(old(self).entries_view(), k@) ==> final(self).entries_view().len()
                == old(self).entries_view().len(),
            !has_key(old(self).entries_view(), k@) ==> final(self).entries_view() == old(
                self,
            ).entries_view().push((k@, v@)),
    {
        proof {
            use_type_invariant(&*self);
        }
        let ghost s = self.entries_view();
        match self.position(k.as_str()) {
            Some(i) => {
                let mut entries: Vec<(String, String)> = Vec::new();
                std::mem::swap(&mut entries, &mut self.entries);
                entries.set(i, (k, v));
                proof {
                    lemma_entries_map_update(s, i as int, v@);
                    assert(entry_views(entries@) =~= s.update(i as int, (s[i as int].0, v@)));
                }
                self.entries = entries;
            },
            None => {
                let mut entries: Vec<(String, String)> = Vec::new();
                std::mem::swap(&mut entries, &mut self.entries);
                entries.push((k, v));
                proof {
                    lemma_entries_map_push(s, k@, v@);
                    assert(entry_views(entries@) =~= s.push((k@, v@)));
                }
                self.entries = entries;
            },
        }
    }

    /// Stores `v` under `k` only when `k` has no entry yet.
    pub fn insert_if_absent(&mut self, k: String, v: String)
        ensures
            final(self)@ == (if old(self)@.contains_key(k@) {
                old(self)@
            } else {
                old(self)@.insert(k@, v@)
            }),
    {
        proof {
            use_type_invariant(&*self);
        }
        if !self.contains_key(k.as_str()) {
            self.insert(k, v);
        }
    }

    /// A copy of the map with the same entries in the same order.
    pub fn copy(&self) -> (r: StringMap)
        ensures
            r@ == self@,
            r.entries_view() == self.entries_view(),
    {
        proof {
            use_type_invariant(self);
        }
        let n = self.entries.len();
        let mut entries: Vec<(String, String)> = Vec::new();
        let mut i: usize = 0;
        while i < n
            invariant
                n == self.entries@.len(),
                i <= n,
                entries@.len() == i,
                entry_views(entries@) =~= self.entries_view().subrange(0, i as int),
            decreases n - i,
        {
            let k = self.entries[i].0.clone();
            let v = self.entries[i].1.clone();
            let ghost before = entries@;
            entries.push((k, v));
            proof {
                assert forall|j: int| 0 <= j < i + 1 implies #[trigger] entry_views(entries@)[j]
                    == self.entries_view().subrange(0, i + 1)[j] by {
                    if j < i {
                        assert(entry_views(before)[j] == self.entries_view().subrange(0, i as int)[j]);
                    }
                }
            }
            i = i + 1;
        }
        assert(self.entries_view().subrange(0, n as int) =~= self.entries_view());
        StringMap { entries }
    }
}

impl View for StringMap {
    type V = Map<Seq<char>, Seq<char>>;

    closed spec fn view(&self) -> Map<Seq<char>, Seq<char>> {
        entries_map(entry_views(self.entries@))
    }
}

} // verus!
