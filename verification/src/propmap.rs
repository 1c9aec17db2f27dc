//! A map from property names to their values.
use vstd::prelude::*;

use crate::text::same_text;
use crate::widget::opt_text;

verus! {

/// The map that a list of distinct-keyed pairs stands for.
pub open spec fn pairs_map(e: Seq<(String, String)>) -> Map<Seq<char>, Seq<char>> {
    Map::new(
        |k: Seq<char>| exists|i: int| 0 <= i < e.len() && e[i].0@ == k,
        |k: Seq<char>| e[choose|i: int| 0 <= i < e.len() && e[i].0@ == k].1@,
    )
}

/// Whether no two pairs have the same key.
pub open spec fn keys_distinct(e: Seq<(String, String)>) -> bool {
    forall|i: int, j: int| 0 <= i < e.len() && 0 <= j < e.len() && i != j ==> e[i].0@ != e[j].0@
}

/// Where `key` stands among the pairs, if it does.
fn position(entries: &Vec<(String, String)>, key: &String) -> (r: Option<usize>)
    ensures
        match r {
            Some(i) => i < entries@.len() && entries@[i as int].0@ == key@,
            None => forall|i: int| 0 <= i < entries@.len() ==> entries@[i].0@ != key@,
        },
{
    let mut i: usize = 0;
    while i < entries.len()
        invariant
            0 <= i <= entries@.len(),
            forall|j: int| 0 <= j < i ==> entries@[j].0@ != key@,
        decreases entries@.len() - i,
    {
        if same_text(&entries[i].0, key) {
            return Some(i);
        }
        i += 1;
    }
    None
}

/// Setting one pair to (`key`, `value`), in place of the pair with that key or
/// after the last, updates the map at `key` alone.
proof fn lemma_updated_map(
    old_e: Seq<(String, String)>,
    new_e: Seq<(String, String)>,
    key: Seq<char>,
    value: Seq<char>,
    pos: int,
)
    requires
        keys_distinct(old_e),
        0 <= pos < new_e.len(),
        new_e[pos].0@ == key,
        new_e[pos].1@ == value,
        pos < old_e.len() ==> old_e[pos].0@ == key,
        pos == old_e.len() ==> forall|j: int| 0 <= j < old_e.len() ==> old_e[j].0@ != key,
        pos <= old_e.len(),
        new_e.len() == if pos < old_e.len() { old_e.len() } else { old_e.len() + 1 },
        forall|j: int| 0 <= j < old_e.len() && j != pos ==> new_e[j] == old_e[j],
    ensures
        keys_distinct(new_e),
        pairs_map(new_e) == pairs_map(old_e).insert(key, value),
{
    let target = pairs_map(old_e).insert(key, value);
    assert(keys_distinct(new_e)) by {
        assert forall|i: int, j: int|
            0 <= i < new_e.len() && 0 <= j < new_e.len() && i != j implies new_e[i].0@ != new_e[j].0@ by {
            if i != pos && j != pos {
                assert(old_e[i].0@ != old_e[j].0@);
            } else if i == pos {
                if pos < old_e.len() {
                    assert(old_e[pos].0@ != old_e[j].0@);
                } else {
                    assert(old_e[j].0@ != key);
                }
            } else {
                if pos < old_e.len() {
                    assert(old_e[pos].0@ != old_e[i].0@);
                } else {
                    assert(old_e[i].0@ != key);
                }
            }
        }
    }
    assert forall|k: Seq<char>| pairs_map(new_e).dom().contains(k) <==> target.dom().contains(k) by {
        if pairs_map(new_e).dom().contains(k) {
            let j: int = choose|j: int| 0 <= j < new_e.len() && new_e[j].0@ == k;
            if j != pos {
                assert(old_e[j].0@ == k);
            }
        }
        if pairs_map(old_e).dom().contains(k) {
            let j: int = choose|j: int| 0 <= j < old_e.len() && old_e[j].0@ == k;
            if j != pos {
                assert(new_e[j].0@ == k);
            }
        }
        if k == key {
            assert(new_e[pos].0@ == k);
        }
    }
    assert(pairs_map(new_e).dom() =~= target.dom());
    assert forall|k: Seq<char>| target.dom().contains(k) implies pairs_map(new_e)[k] == target[k] by {
        if k == key {
            lemma_pair_lookup(new_e, pos);
        } else {
            let j: int = choose|j: int| 0 <= j < old_e.len() && old_e[j].0@ == k;
            lemma_pair_lookup(old_e, j);
            assert(j != pos);
            lemma_pair_lookup(new_e, j);
        }
    }
    assert(pairs_map(new_e) =~= target);
}

/// Properties by name, each name once, in the order in which they were added.
#[derive(Debug)]
pub struct Props {
    entries: Vec<(String, String)>,
}

impl View for Props {
    type V = Map<Seq<char>, Seq<char>>;

    closed spec fn view(&self) -> Map<Seq<char>, Seq<char>> {
        pairs_map(self.entries@)
    }
}

/// With distinct keys, the pair at `i` gives the value of its key.
proof fn lemma_pair_lookup(e: Seq<(String, String)>, i: int)
    requires
        keys_distinct(e),
        0 <= i < e.len(),
    ensures
        pairs_map(e).contains_key(e[i].0@),
        pairs_map(e)[e[i].0@] == e[i].1@,
{
    let k = e[i].0@;
    assert(0 <= i < e.len() && e[i].0@ == k);
    let j: int = choose|j: int| 0 <= j < e.len() && e[j].0@ == k;
    assert(j == i);
}

impl Props {
    #[verifier::type_invariant]
    closed spec fn distinct(self) -> bool {
        keys_distinct(self.entries@)
    }

    /// No properties.
    pub fn new() -> (p: Props)
        ensures
            p@ == Map::<Seq<char>, Seq<char>>::empty(),
    {
        let p = Props { entries: Vec::new() };
        assert(p@ =~= Map::<Seq<char>, Seq<char>>::empty());
        p
    }


    /// Sets the value of `key`, replacing any value it had.
    pub fn insert(&mut self, key: String, value: String)
        ensures
            final(self)@ == old(self)@.insert(key@, value@),
    {
        proof {
            use_type_invariant(&*self);
        }
        let ghost old_e = self.entries@;
        let mut entries = Vec::new();
        std::mem::swap(&mut entries, &mut self.entries);
        match position(&entries, &key) {
            Some(i) => {
                entries.set(i, (key, value));
                proof {
                    lemma_updated_map(old_e, entries@, key@, value@, i as int);
                }
            },
            None => {
                entries.push((key, value));
                proof {
                    lemma_updated_map(old_e, entries@, key@, value@, old_e.len() as int);
                }
            },
        }
        self.entries = entries;
    }

    /// The value of `key`, if it has one.
    pub fn get(&self, key: &str) -> (r: Option<String>)
        ensures
            opt_text(r) == (if self@.contains_key(key@) {
                Some(self@[key@])
            } else {
                None
            }),
    {
        proof {
            use_type_invariant(self);
        }
        let k = key.to_owned();
        match position(&self.entries, &k) {
            Some(i) => {
                proof {
                    lemma_pair_lookup(self.entries@, i as int);
                }
                Some(self.entries[i].1.clone())
            },
            None => None,
        }
    }

    /// The number of properties.
    pub fn len(&self) -> (n: usize)
        ensures
            n == self@.dom().len(),
    {
        proof {
            use_type_invariant(self);
            lemma_pairs_len(self.entries@);
        }
        self.entries.len()
    }

    /// The properties as (name, value) pairs, in the order in which they were added.
    pub fn pairs(&self) -> (r: &Vec<(String, String)>)
        ensures
            keys_distinct(r@),
            pairs_map(r@) == self@,
    {
        proof {
            use_type_invariant(self);
        }
        &self.entries
    }
}

/// With distinct keys, there are as many keys as pairs.
proof fn lemma_pairs_len(e: Seq<(String, String)>)
    requires
        keys_distinct(e),
    ensures
        pairs_map(e).dom().finite(),
        pairs_map(e).dom().len() == e.len(),
    decreases e.len(),
{
    if e.len() == 0 {
        assert(pairs_map(e).dom() =~= Set::<Seq<char>>::empty());
    } else {
        let f = e.drop_last();
        assert(keys_distinct(f));
        lemma_pairs_len(f);
        let k = e.last().0@;
        assert(pairs_map(e).dom() =~= pairs_map(f).dom().insert(k)) by {
            assert forall|x: Seq<char>| pairs_map(e).dom().contains(x) implies pairs_map(f).dom().contains(x) || x == k by {
                let j: int = choose|j: int| 0 <= j < e.len() && e[j].0@ == x;
                if j < f.len() {
                    assert(f[j].0@ == x);
                }
            }
            assert forall|x: Seq<char>| pairs_map(f).dom().contains(x) implies pairs_map(e).dom().contains(x) by {
                let j: int = choose|j: int| 0 <= j < f.len() && f[j].0@ == x;
                assert(e[j].0@ == x);
            }
            assert(e[e.len() - 1].0@ == k);
        }
        assert(!pairs_map(f).dom().contains(k)) by {
            if pairs_map(f).dom().contains(k) {
                let j: int = choose|j: int| 0 <= j < f.len() && f[j].0@ == k;
                assert(e[j].0@ == e[e.len() - 1].0@);
            }
        }
    }
}

} // verus!
