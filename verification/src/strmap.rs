use vstd::prelude::*;

verus! {

/// A map keyed by text, in which a later entry for a key replaces the
/// earlier ones, as inserting into a `HashMap<String, V>` does.
pub struct StrMap<V> {
    entries: Vec<(String, V)>,
}

/// The map that inserting `entries` one after another, in order, builds.
pub open spec fn entries_map<V>(entries: Seq<(String, V)>) -> Map<Seq<char>, V>
    decreases entries.len(),
{
    if entries.len() == 0 {
        Map::empty()
    } else {
        entries_map(entries.drop_last()).insert(entries.last().0@, entries.last().1)
    }
}

/// The key `k` is in the map of `entries` exactly when some entry has it.
pub proof fn lemma_entries_map_dom<V>(entries: Seq<(String, V)>, k: Seq<char>)
    ensures
        entries_map(entries).contains_key(k) <==> exists|i: int|
            0 <= i < entries.len() && (#[trigger] entries[i]).0@ == k,
    decreases entries.len(),
{
    if entries.len() > 0 {
        let rest = entries.drop_last();
        lemma_entries_map_dom(rest, k);
        if entries_map(entries).contains_key(k) {
            if entries.last().0@ != k {
                let i = choose|i: int| 0 <= i < rest.len() && (#[trigger] rest[i]).0@ == k;
                assert(entries[i] == rest[i]);
            } else {
                assert(entries[entries.len() - 1].0@ == k);
            }
        } else {
            assert forall|i: int| 0 <= i < entries.len() implies (#[trigger] entries[i]).0@ != k by {
                if i < entries.len() - 1 {
                    assert(entries[i] == rest[i]);
                }
            }
        }
    }
}

/// The value of `k` in the map of `entries` is that of the last entry with
/// key `k`.
pub proof fn lemma_entries_map_last<V>(entries: Seq<(String, V)>, i: int)
    requires
        0 <= i < entries.len(),
        forall|j: int| i < j < entries.len() ==> (#[trigger] entries[j]).0@ != entries[i].0@,
    ensures
        entries_map(entries).contains_key(entries[i].0@),
        entries_map(entries)[entries[i].0@] == entries[i].1,
    decreases entries.len(),
{
    if i < entries.len() - 1 {
        let rest = entries.drop_last();
        assert(rest[i] == entries[i]);
        assert forall|j: int| i < j < rest.len() implies (#[trigger] rest[j]).0@ != rest[i].0@ by {
            assert(rest[j] == entries[j]);
        }
        lemma_entries_map_last(rest, i);
        assert(entries[entries.len() - 1].0@ != entries[i].0@);
    }
}

/// The pairs of texts that a list of string pairs holds.
pub open spec fn pairs_view(pairs: Seq<(String, String)>) -> Seq<(Seq<char>, Seq<char>)> {
    pairs.map_values(|p: (String, String)| (p.0@, p.1@))
}

/// The map that inserting text pairs one after another, in order, builds.
pub open spec fn text_pairs_map(pairs: Seq<(Seq<char>, Seq<char>)>) -> Map<Seq<char>, Seq<char>>
    decreases pairs.len(),
{
    if pairs.len() == 0 {
        Map::empty()
    } else {
        text_pairs_map(pairs.drop_last()).insert(pairs.last().0, pairs.last().1)
    }
}

/// Whether no pair after pair `i` has its key.
pub open spec fn is_last_with_key(pairs: Seq<(Seq<char>, Seq<char>)>, i: int) -> bool {
    forall|j: int| i < j < pairs.len() ==> (#[trigger] pairs[j]).0 != pairs[i].0
}

/// A key is in the map built from pairs exactly when some pair has it, and
/// it maps to the value of the last pair that has it.
pub proof fn lemma_text_pairs_map_keys(pairs: Seq<(Seq<char>, Seq<char>)>, k: Seq<char>)
    ensures
        text_pairs_map(pairs).contains_key(k) <==> exists|i: int| 0 <= i < pairs.len() && (#[trigger] pairs[i]).0 == k,
    decreases pairs.len(),
{
    if pairs.len() > 0 {
        let rest = pairs.drop_last();
        lemma_text_pairs_map_keys(rest, k);
        if text_pairs_map(pairs).contains_key(k) {
            if pairs.last().0 != k {
                let i = choose|i: int| 0 <= i < rest.len() && (#[trigger] rest[i]).0 == k;
                assert(pairs[i] == rest[i]);
            } else {
                assert(pairs[pairs.len() - 1].0 == k);
            }
        } else {
            assert forall|i: int| 0 <= i < pairs.len() implies (#[trigger] pairs[i]).0 != k by {
                if i < pairs.len() - 1 {
                    assert(pairs[i] == rest[i]);
                }
            }
        }
    }
}

/// The value of a key in the map built from pairs is that of the last pair
/// with that key.
pub proof fn lemma_text_pairs_map_last(pairs: Seq<(Seq<char>, Seq<char>)>, i: int)
    requires
        0 <= i < pairs.len(),
        is_last_with_key(pairs, i),
    ensures
        text_pairs_map(pairs).contains_key(pairs[i].0),
        text_pairs_map(pairs)[pairs[i].0] == pairs[i].1,
    decreases pairs.len(),
{
    if i < pairs.len() - 1 {
        let rest = pairs.drop_last();
        assert(rest[i] == pairs[i]);
        assert forall|j: int| i < j < rest.len() implies (#[trigger] rest[j]).0 != rest[i].0 by {
            assert(rest[j] == pairs[j]);
        }
        lemma_text_pairs_map_last(rest, i);
        assert(pairs[pairs.len() - 1].0 != pairs[i].0);
    }
}

/// The texts that a map of strings holds.
pub open spec fn text_view(m: Map<Seq<char>, String>) -> Map<Seq<char>, Seq<char>> {
    m.map_values(|s: String| s@)
}

/// Building a map of strings and then reading its texts gives the map built
/// from the texts of the pairs.
pub proof fn lemma_text_view_of_pairs(pairs: Seq<(String, String)>)
    ensures
        text_view(entries_map(pairs)) == text_pairs_map(pairs_view(pairs)),
    decreases pairs.len(),
{
    if pairs.len() > 0 {
        lemma_text_view_of_pairs(pairs.drop_last());
        assert(pairs_view(pairs).drop_last() =~= pairs_view(pairs.drop_last()));
        assert(text_view(entries_map(pairs)) =~= text_pairs_map(pairs_view(pairs)));
    } else {
        assert(text_view(entries_map(pairs)) =~= text_pairs_map(pairs_view(pairs)));
    }
}

impl<V> View for StrMap<V> {
    type V = Map<Seq<char>, V>;

    closed spec fn view(&self) -> Map<Seq<char>, V> {
        entries_map(self.entries@)
    }
}

impl<V> StrMap<V> {
    /// An empty map.
    pub fn new() -> (m: Self)
        ensures
            m@ == Map::<Seq<char>, V>::empty(),
    {
        StrMap { entries: Vec::new() }
    }

    /// The map that inserting the pairs in order builds: for a key that
    /// occurs more than once, the last pair wins.
    pub fn from_pairs(pairs: Vec<(String, V)>) -> (m: Self)
        ensures
            m@ == entries_map(pairs@),
    {
        StrMap { entries: pairs }
    }

    /// Maps `key` to `value`, replacing what it was mapped to.
    pub fn insert(&mut self, key: String, value: V)
        ensures
            final(self)@ == old(self)@.insert(key@, value),
    {
        let ghost k = key@;
        self.entries.push((key, value));
        proof {
            assert(self.entries@.drop_last() == old(self).entries@);
        }
    }

    /// What `key` is mapped to, if anything.
    pub fn get(&self, key: &str) -> (r: Option<&V>)
        ensures
            match r {
                Some(v) => self@.contains_key(key@) && *v == self@[key@],
                None => !self@.contains_key(key@),
            },
    {
        let k = key.to_owned();
        let mut i = self.entries.len();
        while i > 0
            invariant
                i <= self.entries@.len(),
                k@ == key@,
                forall|j: int| i <= j < self.entries@.len() ==> (#[trigger] self.entries@[j]).0@ != key@,
            decreases i,
        {
            i = i - 1;
            if self.entries[i].0 == k {
                proof {
                    lemma_entries_map_last(self.entries@, i as int);
                }
                return Some(&self.entries[i].1);
            }
        }
        proof {
            lemma_entries_map_dom(self.entries@, key@);
        }
        None
    }

    /// Whether `key` is mapped to anything.
    pub fn contains_key(&self, key: &str) -> (b: bool)
        ensures
            b == self@.contains_key(key@),
    {
        self.get(key).is_some()
    }
}

/// What a map gives back for a key after `key` was mapped to `value`: the
/// value for that key, and for any other key what it gave before.
pub proof fn lemma_read_after_write<V>(m: Map<Seq<char>, V>, key: Seq<char>, value: V, other: Seq<char>)
    ensures
        m.insert(key, value).contains_key(key),
        m.insert(key, value)[key] == value,
        other != key ==> (m.insert(key, value).contains_key(other) == m.contains_key(other)),
        other != key && m.contains_key(other) ==> m.insert(key, value)[other] == m[other],
{
}

} // verus!
