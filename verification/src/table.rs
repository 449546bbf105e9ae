//! A small table keyed by strings, kept as a vector of pairs in which no key
//! occurs twice.

use vstd::prelude::*;
use vstd::string::*;
use crate::text::same_text;

verus! {

/// The map that a sequence of pairs stands for: a later pair with the same
/// key wins.
pub open spec fn table_map<V>(s: Seq<(String, V)>) -> Map<Seq<char>, V>
    decreases s.len(),
{
    if s.len() == 0 {
        Map::empty()
    } else {
        table_map(s.drop_last()).insert(s.last().0@, s.last().1)
    }
}

/// Whether no key occurs twice.
pub open spec fn unique_keys<V>(s: Seq<(String, V)>) -> bool {
    forall|i: int, j: int| 0 <= i < j < s.len() ==> (#[trigger] s[i]).0@ != (#[trigger] s[j]).0@
}

/// A key is in the map exactly if some pair has it; where no key occurs
/// twice, the map gives the value of that pair.
pub proof fn lemma_table_lookup<V>(s: Seq<(String, V)>, key: Seq<char>)
    ensures
        table_map(s).contains_key(key) <==> exists|i: int|
            0 <= i < s.len() && (#[trigger] s[i]).0@ == key,
        unique_keys(s) ==> forall|i: int|
            0 <= i < s.len() && (#[trigger] s[i]).0@ == key ==> table_map(s)[key] == s[i].1,
    decreases s.len(),
{
    if s.len() > 0 {
        let front = s.drop_last();
        lemma_table_lookup(front, key);
        if table_map(s).contains_key(key) {
            if s.last().0@ == key {
                assert(s[s.len() - 1].0@ == key);
            } else {
                let i = choose|i: int| 0 <= i < front.len() && (#[trigger] front[i]).0@ == key;
                assert(s[i].0@ == key);
            }
        }
        if exists|i: int| 0 <= i < s.len() && (#[trigger] s[i]).0@ == key {
            let i = choose|i: int| 0 <= i < s.len() && (#[trigger] s[i]).0@ == key;
            if i < s.len() - 1 {
                assert(front[i].0@ == key);
            }
        }
        if unique_keys(s) {
            assert(unique_keys(front)) by {
                assert forall|i: int, j: int| 0 <= i < j < front.len() implies (#[trigger] front[i]).0@
                    != (#[trigger] front[j]).0@ by {
                    assert(s[i].0@ != s[j].0@);
                }
            }
            assert forall|i: int| 0 <= i < s.len() && (#[trigger] s[i]).0@ == key implies table_map(
                s,
            )[key] == s[i].1 by {
                if i < s.len() - 1 {
                    assert(front[i].0@ == key);
                    assert(s[i].0@ != s[s.len() - 1].0@);
                }
            }
        }
    }
}

/// Replacing the value of the one pair that has a key is an insertion into
/// the map.
pub proof fn lemma_table_update<V>(s: Seq<(String, V)>, i: int, entry: (String, V))
    requires
        0 <= i < s.len(),
        s[i].0@ == entry.0@,
        unique_keys(s),
    ensures
        table_map(s.update(i, entry)) == table_map(s).insert(entry.0@, entry.1),
        unique_keys(s.update(i, entry)),
    decreases s.len(),
{
    let t = s.update(i, entry);
    assert(unique_keys(t)) by {
        assert forall|a: int, b: int| 0 <= a < b < t.len() implies (#[trigger] t[a]).0@ != (
        #[trigger] t[b]).0@ by {
            assert(s[a].0@ != s[b].0@);
        }
    }
    if i == s.len() - 1 {
        assert(t.drop_last() =~= s.drop_last());
        assert(table_map(t) =~= table_map(s).insert(entry.0@, entry.1));
    } else {
        let front = s.drop_last();
        assert(unique_keys(front)) by {
            assert forall|a: int, b: int| 0 <= a < b < front.len() implies (#[trigger] front[a]).0@
                != (#[trigger] front[b]).0@ by {
                assert(s[a].0@ != s[b].0@);
            }
        }
        lemma_table_update(front, i, entry);
        assert(t.drop_last() =~= front.update(i, entry));
        assert(t.last() == s.last());
        assert(s[i].0@ != s[s.len() - 1].0@);
        assert(table_map(t) =~= table_map(s).insert(entry.0@, entry.1));
    }
}

/// Tells whether no key occurs twice.
pub fn keys_are_unique<V>(table: &Vec<(String, V)>) -> (unique: bool)
    ensures
        unique == unique_keys(table@),
{
    let mut j: usize = 0;
    while j < table.len()
        invariant
            j <= table.len(),
            forall|a: int, b: int|
                0 <= a < b < j ==> (#[trigger] table@[a]).0@ != (#[trigger] table@[b]).0@,
        decreases table.len() - j,
    {
        let mut i: usize = 0;
        while i < j
            invariant
                i <= j < table.len(),
                forall|a: int| 0 <= a < i ==> (#[trigger] table@[a]).0@ != table@[j as int].0@,
            decreases j - i,
        {
            if same_text(table[i].0.as_str(), table[j].0.as_str()) {
                return false;
            }
            i += 1;
        }
        j += 1;
    }
    true
}

/// Finds the pair with a key.
pub fn position_of<V>(table: &Vec<(String, V)>, key: &str) -> (at: Option<usize>)
    ensures
        match at {
            Some(i) => i < table.len() && table@[i as int].0@ == key@,
            None => forall|j: int| 0 <= j < table.len() ==> (#[trigger] table@[j]).0@ != key@,
        },
        at is Some <==> table_map(table@).contains_key(key@),
{
    let mut i: usize = 0;
    while i < table.len()
        invariant
            i <= table.len(),
            forall|j: int| 0 <= j < i ==> (#[trigger] table@[j]).0@ != key@,
        decreases table.len() - i,
    {
        if same_text(table[i].0.as_str(), key) {
            proof {
                lemma_table_lookup(table@, key@);
            }
            return Some(i);
        }
        i += 1;
    }
    proof {
        lemma_table_lookup(table@, key@);
    }
    None
}

/// Looks a key up.
pub fn find<'a, V>(table: &'a Vec<(String, V)>, key: &str) -> (found: Option<&'a V>)
    requires
        unique_keys(table@),
    ensures
        match found {
            Some(v) => table_map(table@).contains_key(key@) && table_map(table@)[key@] == *v,
            None => !table_map(table@).contains_key(key@),
        },
{
    match position_of(table, key) {
        Some(i) => {
            proof {
                lemma_table_lookup(table@, key@);
            }
            Some(&table[i].1)
        },
        None => None,
    }
}

/// Sets the value of a key, replacing the one it had.
pub fn put<V>(table: &mut Vec<(String, V)>, key: String, value: V)
    requires
        unique_keys(old(table)@),
    ensures
        unique_keys(final(table)@),
        table_map(final(table)@) == table_map(old(table)@).insert(key@, value),
{
    match position_of(table, key.as_str()) {
        Some(i) => {
            proof {
                lemma_table_update(table@, i as int, (key, value));
            }
            table.set(i, (key, value));
        },
        None => {
            let ghost before = table@;
            table.push((key, value));
            proof {
                assert(table@.drop_last() =~= before);
            }
        },
    }
}

} // verus!
