use vstd::prelude::*;

verus! {

/// What a sequence of `(key, value)` entries means when read front to back:
/// a later entry for a key replaces an earlier one.
pub open spec fn entries_map<V>(s: Seq<(String, V)>) -> Map<Seq<char>, V>
    decreases s.len(),
{
    if s.len() == 0 {
        Map::empty()
    } else {
        entries_map(s.drop_last()).insert(s.last().0@, s.last().1)
    }
}

/// Index of the last entry in `s[0..end]` whose key is `k`, if there is one.
pub open spec fn last_index_of<V>(s: Seq<(String, V)>, k: Seq<char>, end: int) -> Option<int>
    decreases end,
{
    if end <= 0 {
        None
    } else if s[end - 1].0@ == k {
        Some(end - 1)
    } else {
        last_index_of(s, k, end - 1)
    }
}

/// The map of a sequence holds a key exactly when some entry has it, and then
/// holds the value of the last such entry.
pub proof fn lemma_entries_map_lookup<V>(s: Seq<(String, V)>, k: Seq<char>)
    ensures
        match last_index_of(s, k, s.len() as int) {
            Some(i) => 0 <= i < s.len() && s[i].0@ == k && entries_map(s).contains_key(k)
                && entries_map(s)[k] == s[i].1,
            None => !entries_map(s).contains_key(k) && forall|j: int|
                0 <= j < s.len() ==> #[trigger] s[j].0@ != k,
        },
    decreases s.len(),
{
    if s.len() > 0 {
        let p = s.drop_last();
        lemma_entries_map_lookup(p, k);
        if s.last().0@ != k {
            assert(forall|j: int| 0 <= j < p.len() ==> #[trigger] p[j] == s[j]);
            lemma_last_index_prefix(s, p, k, p.len() as int);
            if last_index_of(s, k, s.len() as int) is None {
                assert forall|j: int| 0 <= j < s.len() implies #[trigger] s[j].0@ != k by {
                    if j < p.len() {
                        assert(p[j] == s[j]);
                    }
                }
            }
        }
    }
}

proof fn lemma_last_index_prefix<V>(s: Seq<(String, V)>, p: Seq<(String, V)>, k: Seq<char>, e: int)
    requires
        p.len() <= s.len(),
        forall|j: int| 0 <= j < p.len() ==> #[trigger] p[j] == s[j],
        0 <= e <= p.len(),
    ensures
        last_index_of(p, k, e) == last_index_of(s, k, e),
    decreases e,
{
    if e > 0 {
        lemma_last_index_prefix(s, p, k, e - 1);
    }
}

/// Removing every entry for `k` removes `k` from the map and keeps the rest.
pub open spec fn without_key<V>(s: Seq<(String, V)>, k: Seq<char>) -> Seq<(String, V)>
    decreases s.len(),
{
    if s.len() == 0 {
        s
    } else if s.last().0@ == k {
        without_key(s.drop_last(), k)
    } else {
        without_key(s.drop_last(), k).push(s.last())
    }
}

pub proof fn lemma_without_key<V>(s: Seq<(String, V)>, k: Seq<char>)
    ensures
        entries_map(without_key(s, k)) == entries_map(s).remove(k),
    decreases s.len(),
{
    if s.len() > 0 {
        let p = s.drop_last();
        lemma_without_key(p, k);
        if s.last().0@ == k {
            assert(entries_map(s).remove(k) =~= entries_map(p).remove(k));
        } else {
            let w = without_key(p, k).push(s.last());
            assert(w.drop_last() =~= without_key(p, k));
            assert(entries_map(w) =~= entries_map(s).remove(k));
        }
    }
}

/// A table from text keys to values, held as a vector of entries.
pub struct KeyedTable<V> {
    entries: Vec<(String, V)>,
}

impl<V> View for KeyedTable<V> {
    type V = Map<Seq<char>, V>;

    closed spec fn view(&self) -> Map<Seq<char>, V> {
        entries_map(self.entries@)
    }
}

impl<V> KeyedTable<V> {
    pub fn new() -> (t: Self)
        ensures
            t@ == Map::<Seq<char>, V>::empty(),
    {
        KeyedTable { entries: Vec::new() }
    }

    /// Builds a table from entries; a later entry for a key replaces an earlier one.
    pub fn from_entries(entries: Vec<(String, V)>) -> (t: Self)
        ensures
            t@ == entries_map(entries@),
    {
        KeyedTable { entries }
    }

    /// The entries of the table, whose map is the table's view.
    pub fn as_entries(&self) -> (r: &Vec<(String, V)>)
        ensures
            entries_map(r@) == self@,
    {
        &self.entries
    }

    fn find(&self, key: &str) -> (r: Option<usize>)
        ensures
            match r {
                Some(i) => i < self.entries@.len() && last_index_of(
                    self.entries@,
                    key@,
                    self.entries@.len() as int,
                ) == Some(i as int),
                None => last_index_of(self.entries@, key@, self.entries@.len() as int) is None,
            },
    {
        let k = String::from_str(key);
        let mut i = self.entries.len();
        while i > 0
            invariant
                i <= self.entries@.len(),
                k@ == key@,
                last_index_of(self.entries@, key@, self.entries@.len() as int)
                    == last_index_of(self.entries@, key@, i as int),
            decreases i,
        {
            if self.entries[i - 1].0 == k {
                return Some(i - 1);
            }
            i = i - 1;
        }
        None
    }

    /// The value stored under `key`, if any.
    pub fn get(&self, key: &str) -> (r: Option<&V>)
        ensures
            match r {
                Some(v) => self@.contains_key(key@) && *v == self@[key@],
                None => !self@.contains_key(key@),
            },
    {
        proof {
            lemma_entries_map_lookup(self.entries@, key@);
        }
        match self.find(key) {
            Some(i) => Some(&self.entries[i].1),
            None => None,
        }
    }

    /// Whether a value is stored under `key`.
    pub fn contains_key(&self, key: &str) -> (r: bool)
        ensures
            r == self@.contains_key(key@),
    {
        self.get(key).is_some()
    }

    /// Removes `key` and its value.
    pub fn remove(&mut self, key: &str)
        ensures
            final(self)@ == old(self)@.remove(key@),
    {
        let k = String::from_str(key);
        let ghost s = self.entries@;
        let mut i: usize = 0;
        let ghost mut j: int = 0;
        while i < self.entries.len()
            invariant
                k@ == key@,
                0 <= j <= s.len(),
                i <= self.entries@.len(),
                self.entries@.subrange(0, i as int) == without_key(s.take(j), key@),
                self.entries@.subrange(i as int, self.entries@.len() as int) =~= s.skip(j),
            decreases self.entries@.len() - i,
        {
            let ghost cur = self.entries@;
            proof {
                assert(s.skip(j).len() > 0);
                assert(cur.len() - i == s.len() - j);
                assert forall|t: int| 0 <= t < cur.len() - i implies #[trigger] cur[i + t]
                    == s[j + t] by {
                    assert(cur.subrange(i as int, cur.len() as int)[t] == s.skip(j)[t]);
                }
                assert(cur[i as int] == cur.subrange(i as int, cur.len() as int)[0]);
                assert(s.take(j + 1).drop_last() =~= s.take(j));
                assert(s.take(j + 1).last() == s[j]);
            }
            if self.entries[i].0 == k {
                self.entries.remove(i);
                proof {
                    assert(self.entries@.subrange(0, i as int) =~= cur.subrange(0, i as int));
                    let ne = self.entries@;
                    assert forall|t: int| 0 <= t < ne.len() - i implies
                        #[trigger] ne.subrange(i as int, ne.len() as int)[t] == s.skip(j + 1)[t] by {
                        assert(cur[i + (t + 1)] == s[j + (t + 1)]);
                    }
                    assert(self.entries@.subrange(i as int, self.entries@.len() as int)
                        =~= s.skip(j + 1));
                    j = j + 1;
                }
            } else {
                proof {
                    assert(cur.subrange(0, i + 1) =~= cur.subrange(0, i as int).push(s[j]));
                    assert forall|t: int| 0 <= t < cur.len() - (i + 1) implies
                        #[trigger] cur.subrange(i + 1, cur.len() as int)[t] == s.skip(j + 1)[t] by {
                        assert(cur[i + (t + 1)] == s[j + (t + 1)]);
                    }
                    assert(cur.subrange(i + 1, cur.len() as int) =~= s.skip(j + 1));
                    j = j + 1;
                }
                i = i + 1;
            }
        }
        proof {
            assert(s.skip(j).len() == 0);
            assert(j == s.len());
            assert(s.take(j) =~= s);
            assert(self.entries@ =~= self.entries@.subrange(0, i as int));
            lemma_without_key(s, key@);
        }
    }

    /// Stores `value` under `key`, replacing any value stored there before.
    pub fn insert(&mut self, key: String, value: V)
        ensures
            final(self)@ == old(self)@.insert(key@, value),
    {
        self.remove(key.as_str());
        let ghost before = self.entries@;
        self.entries.push((key, value));
        proof {
            assert(self.entries@.drop_last() =~= before);
        }
    }
}

} // verus!
