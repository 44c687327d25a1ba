//! Labels and annotations: texts under distinct keys.
use crate::text::{copy_pairs, same};
use vstd::prelude::*;

verus! {

/// The map that a list of pairs stands for: of two pairs with one key, the later one counts.
pub open spec fn map_of(pairs: Seq<(Seq<char>, Seq<char>)>) -> Map<Seq<char>, Seq<char>>
    decreases pairs.len(),
{
    if pairs.len() == 0 {
        Map::empty()
    } else {
        map_of(pairs.drop_last()).insert(pairs.last().0, pairs.last().1)
    }
}

/// No two pairs have one key.
pub open spec fn distinct(pairs: Seq<(Seq<char>, Seq<char>)>) -> bool {
    forall|i: int, j: int|
        0 <= i < j < pairs.len() ==> (#[trigger] pairs[i]).0 != (#[trigger] pairs[j]).0
}

/// `pairs` lists the entries of `map`, each once.
pub open spec fn lists(pairs: Seq<(Seq<char>, Seq<char>)>, map: Map<Seq<char>, Seq<char>>) -> bool {
    distinct(pairs) && map_of(pairs) == map
}

/// The keys of the map are those of the pairs.
proof fn keys_of_map(pairs: Seq<(Seq<char>, Seq<char>)>, key: Seq<char>)
    ensures
        map_of(pairs).contains_key(key) <==> exists|i: int|
            0 <= i < pairs.len() && (#[trigger] pairs[i]).0 == key,
    decreases pairs.len(),
{
    if pairs.len() > 0 {
        let front = pairs.drop_last();
        keys_of_map(front, key);
        if map_of(pairs).contains_key(key) {
            if key == pairs.last().0 {
                assert(pairs[pairs.len() - 1].0 == key);
            } else {
                let i = choose|i: int| 0 <= i < front.len() && (#[trigger] front[i]).0 == key;
                assert(pairs[i].0 == key);
            }
        }
        if exists|i: int| 0 <= i < pairs.len() && (#[trigger] pairs[i]).0 == key {
            let i = choose|i: int| 0 <= i < pairs.len() && (#[trigger] pairs[i]).0 == key;
            if i < front.len() {
                assert(front[i].0 == key);
            }
        }
    }
}

/// Each of distinct pairs is an entry of the map.
proof fn entries_of_map(pairs: Seq<(Seq<char>, Seq<char>)>, i: int)
    requires
        distinct(pairs),
        0 <= i < pairs.len(),
    ensures
        map_of(pairs).contains_key(pairs[i].0),
        map_of(pairs)[pairs[i].0] == pairs[i].1,
    decreases pairs.len(),
{
    let front = pairs.drop_last();
    if i < front.len() {
        assert(distinct(front)) by {
            assert forall|j: int, k: int| 0 <= j < k < front.len() implies (
            #[trigger] front[j]).0 != (#[trigger] front[k]).0 by {
                assert(pairs[j].0 != pairs[k].0);
            }
        }
        entries_of_map(front, i);
        assert(front[i] == pairs[i]);
        assert(pairs[i].0 != pairs[pairs.len() - 1].0);
    }
}

/// Replacing the value of a key among distinct pairs inserts it into the map.
proof fn replace_in_map(pairs: Seq<(Seq<char>, Seq<char>)>, at: int, value: Seq<char>)
    requires
        distinct(pairs),
        0 <= at < pairs.len(),
    ensures
        distinct(pairs.update(at, (pairs[at].0, value))),
        map_of(pairs.update(at, (pairs[at].0, value))) == map_of(pairs).insert(pairs[at].0, value),
{
    let key = pairs[at].0;
    let after = pairs.update(at, (key, value));
    assert forall|i: int, j: int| 0 <= i < j < after.len() implies (#[trigger] after[i]).0 != (
    #[trigger] after[j]).0 by {
        assert(pairs[i].0 != pairs[j].0);
    }
    assert forall|k: Seq<char>|
        map_of(after).contains_key(k) == #[trigger] map_of(pairs).insert(key, value).contains_key(
            k,
        ) by {
        keys_of_map(after, k);
        keys_of_map(pairs, k);
        if map_of(pairs).contains_key(k) {
            let i = choose|i: int| 0 <= i < pairs.len() && (#[trigger] pairs[i]).0 == k;
            assert(after[i].0 == k);
        }
        if map_of(after).contains_key(k) {
            let i = choose|i: int| 0 <= i < after.len() && (#[trigger] after[i]).0 == k;
            assert(pairs[i].0 == k);
        }
        if k == key {
            assert(after[at].0 == k);
        }
    }
    assert forall|k: Seq<char>| map_of(after).contains_key(k) implies #[trigger] map_of(after)[k]
        == map_of(pairs).insert(key, value)[k] by {
        keys_of_map(after, k);
        let i = choose|i: int| 0 <= i < after.len() && (#[trigger] after[i]).0 == k;
        entries_of_map(after, i);
        entries_of_map(pairs, i);
    }
    assert(map_of(after) =~= map_of(pairs).insert(key, value));
}

/// Texts under distinct keys.
#[derive(Debug)]
pub struct Labels {
    entries: Vec<(String, String)>,
}

impl View for Labels {
    type V = Map<Seq<char>, Seq<char>>;

    closed spec fn view(&self) -> Map<Seq<char>, Seq<char>> {
        map_of(self.entries.deep_view())
    }
}

impl Labels {
    #[verifier::type_invariant]
    spec fn keys_are_distinct(self) -> bool {
        distinct(self.entries.deep_view())
    }

    /// No labels.
    pub fn new() -> (r: Labels)
        ensures
            (r@ == Map::<Seq<char>, Seq<char>>::empty()),
    {
        let entries: Vec<(String, String)> = Vec::new();
        assert(entries.deep_view() =~= Seq::empty());
        Labels { entries }
    }

    /// These labels with `value` under `key`.
    pub fn with(self, key: String, value: String) -> (r: Labels)
        ensures
            r@ == self@.insert(key@, value@),
    {
        proof {
            use_type_invariant(&self);
        }
        let ghost before = self.entries.deep_view();
        let mut entries = self.entries;
        let mut i: usize = 0;
        while i < entries.len()
            invariant
                i <= entries@.len(),
                entries.deep_view() == before,
                distinct(before),
                self@ == map_of(before),
                forall|j: int| 0 <= j < i ==> (#[trigger] before[j]).0 != key@,
            decreases entries@.len() - i,
        {
            assert(before[i as int] == (entries@[i as int].0@, entries@[i as int].1@));
            if same(entries[i].0.as_str(), key.as_str()) {
                entries.set(i, (key, value));
                proof {
                    assert(entries.deep_view() =~= before.update(i as int, (key@, value@)));
                    replace_in_map(before, i as int, value@);
                }
                return Labels { entries };
            }
            i = i + 1;
        }
        let ghost all = before.push((key@, value@));
        entries.push((key, value));
        proof {
            assert(entries.deep_view() =~= all);
            assert(all.drop_last() =~= before);
            assert(all.last() == (key@, value@));
            assert forall|a: int, b: int| 0 <= a < b < all.len() implies (#[trigger] all[a]).0 != (
            #[trigger] all[b]).0 by {
                assert(all[a] == before[a]);
                if b < before.len() {
                    assert(all[b] == before[b]);
                }
            }
        }
        Labels { entries }
    }

    /// The labels of a list of pairs: of two pairs with one key, the later one counts.
    pub fn from_pairs(pairs: Vec<(String, String)>) -> (r: Labels)
        ensures
            r@ == map_of(pairs.deep_view()),
    {
        let mut labels = Labels::new();
        let mut i: usize = 0;
        assert(pairs.deep_view().take(0) =~= Seq::empty());
        while i < pairs.len()
            invariant
                i <= pairs@.len(),
                labels@ == map_of(pairs.deep_view().take(i as int)),
            decreases pairs@.len() - i,
        {
            proof {
                let now = pairs.deep_view().take(i + 1);
                assert(now.drop_last() =~= pairs.deep_view().take(i as int));
                assert(now.last() == (pairs@[i as int].0@, pairs@[i as int].1@));
            }
            labels = labels.with(pairs[i].0.clone(), pairs[i].1.clone());
            i = i + 1;
        }
        assert(pairs.deep_view().take(pairs@.len() as int) =~= pairs.deep_view());
        labels
    }

    /// The labels as a list, in no particular order.
    pub fn to_pairs(&self) -> (r: Vec<(String, String)>)
        ensures
            lists(r.deep_view(), self@),
    {
        proof {
            use_type_invariant(self);
        }
        copy_pairs(&self.entries)
    }
}

impl Clone for Labels {
    fn clone(&self) -> (r: Self)
        ensures
            r@ == self@,
    {
        proof {
            use_type_invariant(self);
        }
        Labels { entries: copy_pairs(&self.entries) }
    }
}

/// A list of the labels of a list with distinct keys has each of its pairs.
proof fn pair_is_listed(
    pairs: Seq<(Seq<char>, Seq<char>)>,
    listed: Seq<(Seq<char>, Seq<char>)>,
    i: int,
)
    requires
        distinct(pairs),
        lists(listed, map_of(pairs)),
        0 <= i < pairs.len(),
    ensures
        listed.contains(pairs[i]),
{
    entries_of_map(pairs, i);
    keys_of_map(listed, pairs[i].0);
    let j = choose|j: int| 0 <= j < listed.len() && (#[trigger] listed[j]).0 == pairs[i].0;
    entries_of_map(listed, j);
    assert(listed[j] == pairs[i]);
}

/// Distinct pairs are each in their list once.
proof fn pairs_are_counted(pairs: Seq<(Seq<char>, Seq<char>)>, pair: (Seq<char>, Seq<char>))
    requires
        distinct(pairs),
    ensures
        pairs.to_multiset().count(pair) == if pairs.contains(pair) {
            1nat
        } else {
            0nat
        },
{
    assert forall|i: int, j: int|
        0 <= i < pairs.len() && 0 <= j < pairs.len() && i != j implies pairs[i] != pairs[j] by {
        if i < j {
            assert(pairs[i].0 != pairs[j].0);
        } else {
            assert(pairs[j].0 != pairs[i].0);
        }
    }
    assert(pairs.no_duplicates());
    pairs.lemma_multiset_has_no_duplicates();
    pairs.to_multiset_ensures();
}

/// A list of the labels of a list with distinct keys has the same pairs, maybe in another order.
pub proof fn labels_keep_distinct_pairs(
    pairs: Seq<(Seq<char>, Seq<char>)>,
    listed: Seq<(Seq<char>, Seq<char>)>,
)
    requires
        distinct(pairs),
        lists(listed, map_of(pairs)),
    ensures
        listed.to_multiset() == pairs.to_multiset(),
{
    assert forall|pair: (Seq<char>, Seq<char>)|
        listed.to_multiset().count(pair) == pairs.to_multiset().count(pair) by {
        pairs_are_counted(pairs, pair);
        pairs_are_counted(listed, pair);
        if pairs.contains(pair) {
            pair_is_listed(pairs, listed, pairs.index_of(pair));
        }
        if listed.contains(pair) {
            pair_is_listed(listed, pairs, listed.index_of(pair));
        }
    }
    assert(listed.to_multiset() =~= pairs.to_multiset());
}

} // verus!
