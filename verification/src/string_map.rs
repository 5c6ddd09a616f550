//! A small map from strings to strings.
//!
//! The entries are kept in insertion order in a vector, with no key held
//! twice. The view is the mathematical map from key characters to value
//! characters.

use vstd::prelude::*;
use vstd::string::StringExecFns;

verus! {

/// A key and its value, as characters.
pub type PairView = (Seq<char>, Seq<char>);

/// The characters of a stored entry.
pub open spec fn pair_view(entry: (String, String)) -> PairView {
    (entry.0@, entry.1@)
}

/// The characters of each entry of a list.
pub open spec fn pairs_view(entries: Seq<(String, String)>) -> Seq<PairView> {
    entries.map_values(|entry: (String, String)| pair_view(entry))
}

/// The map that a list of pairs denotes. Where a key stands twice, the later
/// pair counts.
pub open spec fn pairs_to_map(pairs: Seq<PairView>) -> Map<Seq<char>, Seq<char>>
    decreases pairs.len(),
{
    if pairs.len() == 0 {
        Map::empty()
    } else {
        pairs_to_map(pairs.drop_last()).insert(pairs.last().0, pairs.last().1)
    }
}

/// No key stands twice in the list.
pub open spec fn distinct_keys(pairs: Seq<PairView>) -> bool {
    forall|i: int, j: int| 0 <= i < j < pairs.len() ==> pairs[i].0 != pairs[j].0
}

/// A key is in the denoted map exactly when some pair carries it.
pub proof fn lemma_pairs_to_map_dom(pairs: Seq<PairView>, key: Seq<char>)
    ensures
        pairs_to_map(pairs).contains_key(key) <==> exists|i: int|
            0 <= i < pairs.len() && #[trigger] pairs[i].0 == key,
    decreases pairs.len(),
{
    if pairs.len() > 0 {
        let front = pairs.drop_last();
        lemma_pairs_to_map_dom(front, key);
        if pairs_to_map(pairs).contains_key(key) {
            if pairs.last().0 == key {
                assert(pairs[pairs.len() - 1].0 == key);
            } else {
                let i = choose|i: int| 0 <= i < front.len() && #[trigger] front[i].0 == key;
                assert(pairs[i].0 == key);
            }
        }
        if exists|i: int| 0 <= i < pairs.len() && #[trigger] pairs[i].0 == key {
            let i = choose|i: int| 0 <= i < pairs.len() && #[trigger] pairs[i].0 == key;
            if i < pairs.len() - 1 {
                assert(front[i].0 == key);
            }
        }
    }
}

/// With distinct keys, each pair's key maps to that pair's value.
pub proof fn lemma_pairs_to_map_value(pairs: Seq<PairView>, i: int)
    requires
        distinct_keys(pairs),
        0 <= i < pairs.len(),
    ensures
        pairs_to_map(pairs).contains_key(pairs[i].0),
        pairs_to_map(pairs)[pairs[i].0] == pairs[i].1,
    decreases pairs.len(),
{
    if i < pairs.len() - 1 {
        let front = pairs.drop_last();
        assert(distinct_keys(front)) by {
            assert forall|a: int, b: int| 0 <= a < b < front.len() implies front[a].0
                != front[b].0 by {
                assert(pairs[a].0 != pairs[b].0);
            }
        }
        lemma_pairs_to_map_value(front, i);
        assert(pairs[i].0 != pairs[pairs.len() - 1].0);
    }
}

/// The denoted map has finitely many keys; with distinct keys, as many as
/// there are pairs.
pub proof fn lemma_pairs_to_map_len(pairs: Seq<PairView>)
    ensures
        pairs_to_map(pairs).dom().finite(),
        distinct_keys(pairs) ==> pairs_to_map(pairs).dom().len() == pairs.len(),
    decreases pairs.len(),
{
    if pairs.len() > 0 {
        let front = pairs.drop_last();
        lemma_pairs_to_map_len(front);
        if distinct_keys(pairs) {
            assert(distinct_keys(front)) by {
                assert forall|a: int, b: int| 0 <= a < b < front.len() implies front[a].0
                    != front[b].0 by {
                    assert(pairs[a].0 != pairs[b].0);
                }
            }
            lemma_pairs_to_map_dom(front, pairs.last().0);
            if pairs_to_map(front).contains_key(pairs.last().0) {
                let i = choose|i: int|
                    0 <= i < front.len() && #[trigger] front[i].0 == pairs.last().0;
                assert(pairs[i].0 != pairs[pairs.len() - 1].0);
            }
        }
    }
}

/// A map from strings to strings. Its view is the map from the characters of
/// each key to the characters of its value.
pub struct StringMap {
    entries: Vec<(String, String)>,
}

impl View for StringMap {
    type V = Map<Seq<char>, Seq<char>>;

    closed spec fn view(&self) -> Map<Seq<char>, Seq<char>> {
        pairs_to_map(pairs_view(self.entries@))
    }
}

impl StringMap {
    #[verifier::type_invariant]
    spec fn no_key_twice(&self) -> bool {
        distinct_keys(pairs_view(self.entries@))
    }

    /// The entries in the order in which their keys were first stored. No key
    /// stands twice among them, and they denote the map.
    pub fn entries(&self) -> (entries: &Vec<(String, String)>)
        ensures
            distinct_keys(pairs_view(entries@)),
            pairs_to_map(pairs_view(entries@)) == self@,
    {
        proof {
            use_type_invariant(self);
        }
        &self.entries
    }

    /// An empty map.
    pub fn new() -> (map: StringMap)
        ensures
            map@ == Map::<Seq<char>, Seq<char>>::empty(),
    {
        let map = StringMap { entries: Vec::new() };
        assert(pairs_view(map.entries@) =~= Seq::<PairView>::empty());
        map
    }

    /// The number of keys.
    pub fn len(&self) -> (n: usize)
        ensures
            n == self@.dom().len(),
            self@.dom().finite(),
    {
        proof {
            use_type_invariant(self);
            lemma_pairs_to_map_len(pairs_view(self.entries@));
        }
        self.entries.len()
    }

    /// Whether the map holds no key.
    pub fn is_empty(&self) -> (empty: bool)
        ensures
            empty == (self@ == Map::<Seq<char>, Seq<char>>::empty()),
    {
        proof {
            use_type_invariant(self);
            lemma_pairs_to_map_len(pairs_view(self.entries@));
            if self.entries@.len() == 0 {
                assert(self@ =~= Map::<Seq<char>, Seq<char>>::empty());
            }
        }
        self.entries.len() == 0
    }

    /// The position of `key` among the entries, if it is held.
    fn position(&self, key: &str) -> (found: Option<usize>)
        ensures
            match found {
                Some(i) => i < self.entries@.len() && self.entries@[i as int].0@ == key@,
                None => forall|j: int| 0 <= j < self.entries@.len() ==> self.entries@[j].0@ != key@,
            },
    {
        let wanted = String::from_str(key);
        let mut i: usize = 0;
        while i < self.entries.len()
            invariant
                i <= self.entries@.len(),
                wanted@ == key@,
                forall|j: int| 0 <= j < i ==> self.entries@[j].0@ != key@,
            decreases self.entries@.len() - i,
        {
            if self.entries[i].0 == wanted {
                return Some(i);
            }
            i = i + 1;
        }
        None
    }

    /// The value stored under `key`, if there is one.
    pub fn get(&self, key: &str) -> (value: Option<&String>)
        ensures
            match value {
                Some(v) => self@.contains_key(key@) && self@[key@] == v@,
                None => !self@.contains_key(key@),
            },
    {
        let ghost pairs = pairs_view(self.entries@);
        proof {
            use_type_invariant(self);
            lemma_pairs_to_map_dom(pairs, key@);
        }
        match self.position(key) {
            Some(i) => {
                proof {
                    assert(pairs[i as int] == pair_view(self.entries@[i as int]));
                    lemma_pairs_to_map_value(pairs, i as int);
                }
                Some(&self.entries[i].1)
            },
            None => {
                proof {
                    if pairs_to_map(pairs).contains_key(key@) {
                        let j = choose|j: int| 0 <= j < pairs.len() && #[trigger] pairs[j].0 == key@;
                        assert(pairs[j] == pair_view(self.entries@[j]));
                    }
                }
                None
            },
        }
    }

    /// Whether a value is stored under `key`.
    pub fn contains_key(&self, key: &str) -> (held: bool)
        ensures
            held == self@.contains_key(key@),
    {
        self.get(key).is_some()
    }

    /// Stores `value` under `key`, replacing what was stored there.
    pub fn insert(&mut self, key: String, value: String)
        ensures
            final(self)@ == old(self)@.insert(key@, value@),
    {
        let ghost before = pairs_view(self.entries@);
        let ghost pair = (key@, value@);
        proof {
            use_type_invariant(&*self);
        }
        let found = self.position(key.as_str());
        let mut entries: Vec<(String, String)> = Vec::new();
        std::mem::swap(&mut entries, &mut self.entries);
        assert(pairs_view(entries@) == before);
        let ghost at: int;
        match found {
            Some(i) => {
                proof {
                    at = i as int;
                    assert(before[at] == pair_view(entries@[at]));
                }
                entries.set(i, (key, value));
                assert(pairs_view(entries@) =~= before.update(at, pair));
            },
            None => {
                proof {
                    at = before.len() as int;
                    assert forall|j: int| 0 <= j < before.len() implies before[j].0 != pair.0 by {
                        assert(before[j] == pair_view(entries@[j]));
                    }
                }
                entries.push((key, value));
                assert(pairs_view(entries@) =~= before.push(pair));
            },
        }
        proof {
            lemma_replaced_or_pushed(before, pairs_view(entries@), pair, at);
        }
        self.entries = entries;
    }
}

/// Replacing the pair at `at`, which carries the same key, or appending the
/// pair where no pair carries its key (`at` is then the length), keeps the
/// keys distinct and stores the pair's value under its key.
proof fn lemma_replaced_or_pushed(before: Seq<PairView>, after: Seq<PairView>, pair: PairView, at: int)
    requires
        distinct_keys(before),
        0 <= at <= before.len(),
        at < before.len() ==> before[at].0 == pair.0 && after == before.update(at, pair),
        at == before.len() ==> after == before.push(pair) && forall|j: int|
            0 <= j < before.len() ==> before[j].0 != pair.0,
    ensures
        distinct_keys(after),
        pairs_to_map(after) == pairs_to_map(before).insert(pair.0, pair.1),
{
    let goal = pairs_to_map(before).insert(pair.0, pair.1);
    if at == before.len() {
        assert(after.drop_last() =~= before);
    } else {
        assert(distinct_keys(after)) by {
            assert forall|a: int, b: int| 0 <= a < b < after.len() implies after[a].0
                != after[b].0 by {
                assert(before[a].0 != before[b].0);
            }
        }
        assert forall|k: Seq<char>| pairs_to_map(after).contains_key(k) <==> goal.contains_key(
            k,
        ) by {
            lemma_pairs_to_map_dom(after, k);
            lemma_pairs_to_map_dom(before, k);
            if pairs_to_map(after).contains_key(k) {
                let j = choose|j: int| 0 <= j < after.len() && #[trigger] after[j].0 == k;
                if j != at {
                    assert(before[j].0 == k);
                }
            }
            if goal.contains_key(k) && k != pair.0 {
                let j = choose|j: int| 0 <= j < before.len() && #[trigger] before[j].0 == k;
                assert(after[j].0 == k);
            }
            if k == pair.0 {
                assert(after[at].0 == k);
            }
        }
        assert forall|k: Seq<char>| pairs_to_map(after).contains_key(k) implies pairs_to_map(
            after,
        )[k] == goal[k] by {
            lemma_pairs_to_map_dom(after, k);
            let j = choose|j: int| 0 <= j < after.len() && #[trigger] after[j].0 == k;
            lemma_pairs_to_map_value(after, j);
            if j != at {
                assert(before[j].0 == k);
                lemma_pairs_to_map_value(before, j);
            }
        }
        assert(pairs_to_map(after) =~= goal);
    }
}

} // verus!
