//! Lists of named texts that behave as maps: no name occurs twice, and
//! setting a name replaces its earlier text.
use vstd::prelude::*;
use crate::text::str_eq;

verus! {

/// No name occurs twice.
pub open spec fn keys_distinct(inputs: Seq<(String, String)>) -> bool {
    forall|i: int, j: int|
        0 <= i < inputs.len() && 0 <= j < inputs.len() && i != j ==> #[trigger] inputs[i].0@
            != #[trigger] inputs[j].0@
}

/// The text of `key`, if it is set.
pub open spec fn pair_value(inputs: Seq<(String, String)>, key: Seq<char>) -> Option<Seq<char>>
    decreases inputs.len(),
{
    if inputs.len() == 0 {
        None
    } else if inputs[0].0@ == key {
        Some(inputs[0].1@)
    } else {
        pair_value(inputs.drop_first(), key)
    }
}

proof fn lemma_pair_value_index(inputs: Seq<(String, String)>, key: Seq<char>, i: int)
    requires
        0 <= i < inputs.len(),
        inputs[i].0@ == key,
        forall|j: int| 0 <= j < i ==> inputs[j].0@ != key,
    ensures
        pair_value(inputs, key) == Some(inputs[i].1@),
    decreases i,
{
    if i > 0 {
        lemma_pair_value_index(inputs.drop_first(), key, i - 1);
    }
}

proof fn lemma_pair_value_absent(inputs: Seq<(String, String)>, key: Seq<char>)
    requires
        forall|j: int| 0 <= j < inputs.len() ==> inputs[j].0@ != key,
    ensures
        pair_value(inputs, key) is None,
    decreases inputs.len(),
{
    if inputs.len() > 0 {
        lemma_pair_value_absent(inputs.drop_first(), key);
    }
}

proof fn lemma_pair_value_found(inputs: Seq<(String, String)>, key: Seq<char>)
    requires
        pair_value(inputs, key) is Some,
    ensures
        exists|i: int| 0 <= i < inputs.len() && inputs[i].0@ == key,
    decreases inputs.len(),
{
    if inputs[0].0@ != key {
        lemma_pair_value_found(inputs.drop_first(), key);
        let i = choose|i: int| 0 <= i < inputs.drop_first().len() && inputs.drop_first()[i].0@ == key;
        assert(inputs[i + 1].0@ == key);
    }
}

/// The map that a list of named texts stands for.
pub open spec fn pairs_map(pairs: Seq<(String, String)>) -> Map<Seq<char>, Seq<char>> {
    Map::new(|k: Seq<char>| pair_value(pairs, k) is Some, |k: Seq<char>| pair_value(pairs, k)->0)
}

proof fn lemma_first_index(s: Seq<(String, String)>, k: Seq<char>, m: int)
    requires
        0 <= m < s.len(),
        s[m].0@ == k,
    ensures
        exists|f: int|
            0 <= f < s.len() && s[f].0@ == k && forall|g: int| 0 <= g < f ==> s[g].0@ != k,
    decreases m,
{
    if exists|g: int| 0 <= g < m && s[g].0@ == k {
        let g = choose|g: int| 0 <= g < m && s[g].0@ == k;
        lemma_first_index(s, k, g);
    } else {
        assert(forall|g: int| 0 <= g < m ==> s[g].0@ != k);
    }
}

proof fn lemma_pair_value_push(s: Seq<(String, String)>, key: String, value: String, k: Seq<char>)
    requires
        k != key@,
    ensures
        pair_value(s.push((key, value)), k) == pair_value(s, k),
    decreases s.len(),
{
    if s.len() > 0 {
        assert(s.push((key, value)).drop_first() == s.drop_first().push((key, value)));
        assert(s.push((key, value))[0] == s[0]);
        lemma_pair_value_push(s.drop_first(), key, value, k);
        assert(pair_value(s.drop_first().push((key, value)), k) == pair_value(s.drop_first(), k));
    } else {
        assert(s.push((key, value)).drop_first() =~= Seq::<(String, String)>::empty());
        assert(pair_value(Seq::<(String, String)>::empty(), k) is None);
    }
}

/// Sets `key` to `value`, replacing an earlier text of `key`.
pub fn insert_pair(pairs: &mut Vec<(String, String)>, key: String, value: String)
    requires
        keys_distinct(old(pairs)@),
    ensures
        keys_distinct(final(pairs)@),
        forall|k: Seq<char>|
            #[trigger] pair_value(final(pairs)@, k) == if k == key@ {
                Some(value@)
            } else {
                pair_value(old(pairs)@, k)
            },
        pairs_map(final(pairs)@) == pairs_map(old(pairs)@).insert(key@, value@),
    {
        let ghost before = pairs@;
        let mut i: usize = 0;
        while i < pairs.len()
            invariant
                pairs@ == before,
                before == old(pairs)@,
                keys_distinct(before),
                i <= before.len(),
                forall|j: int| 0 <= j < i ==> before[j].0@ != key@,
            decreases before.len() - i,
        {
            if pairs[i].0 == key {
                pairs.set(i, (key, value));
                proof {
                    let after = pairs@;
                    assert forall|k: Seq<char>|
                        #[trigger] pair_value(after, k) == if k == key@ {
                            Some(value@)
                        } else {
                            pair_value(before, k)
                        } by {
                        if k == key@ {
                            lemma_pair_value_index(after, k, i as int);
                        } else if pair_value(before, k) is Some {
                            lemma_pair_value_found(before, k);
                            let m = choose|m: int| 0 <= m < before.len() && before[m].0@ == k;
                            lemma_first_index(before, k, m);
                            let f = choose|f: int|
                                0 <= f < before.len() && before[f].0@ == k && forall|g: int|
                                    0 <= g < f ==> before[g].0@ != k;
                            lemma_pair_value_index(before, k, f);
                            assert(f != i);
                            assert(after[f] == before[f]);
                            assert forall|g: int| 0 <= g < f implies after[g].0@ != k by {
                                if g != i {
                                    assert(after[g] == before[g]);
                                }
                            }
                            lemma_pair_value_index(after, k, f);
                        } else {
                            assert forall|g: int| 0 <= g < after.len() implies after[g].0@ != k by {
                                if g != i {
                                    assert(after[g] == before[g]);
                                    if before[g].0@ == k {
                                        lemma_first_index(before, k, g);
                                        let f = choose|f: int|
                                            0 <= f < before.len() && before[f].0@ == k
                                                && forall|h: int| 0 <= h < f ==> before[h].0@ != k;
                                        lemma_pair_value_index(before, k, f);
                                    }
                                }
                            }
                            lemma_pair_value_absent(after, k);
                        }
                    }
                    assert forall|a: int, b: int|
                        0 <= a < after.len() && 0 <= b < after.len() && a != b implies #[trigger] after[a].0@
                        != #[trigger] after[b].0@ by {
                        assert(after[i as int].0@ == before[i as int].0@);
                        if a != i as int {
                            assert(after[a] == before[a]);
                        }
                        if b != i as int {
                            assert(after[b] == before[b]);
                        }
                    }
                }
                return;
            }
            i = i + 1;
        }
        assert(i == before.len());
        pairs.push((key, value));
        proof {
            let after = pairs@;
            assert forall|k: Seq<char>|
                #[trigger] pair_value(after, k) == if k == key@ {
                    Some(value@)
                } else {
                    pair_value(before, k)
                } by {
                if k == key@ {
                    lemma_pair_value_index(after, k, before.len() as int);
                } else {
                    lemma_pair_value_push(before, key, value, k);
                }
            }
            assert forall|a: int, b: int|
                0 <= a < after.len() && 0 <= b < after.len() && a != b implies #[trigger] after[a].0@
                != #[trigger] after[b].0@ by {
                if a < before.len() {
                    assert(after[a] == before[a]);
                } else {
                    assert(before[b].0@ != key@);
                }
                if b < before.len() {
                    assert(after[b] == before[b]);
                } else {
                    assert(before[a].0@ != key@);
                }
            }
        }
}

/// The text of `key`, if it is set.
pub fn find_pair<'a>(pairs: &'a Vec<(String, String)>, key: &str) -> (r: Option<&'a String>)
    ensures
        match r {
            Some(v) => pair_value(pairs@, key@) == Some(v@),
            None => pair_value(pairs@, key@) is None,
        },
{
    let mut i: usize = 0;
    while i < pairs.len()
        invariant
            i <= pairs@.len(),
            forall|j: int| 0 <= j < i ==> #[trigger] pairs@[j].0@ != key@,
        decreases pairs@.len() - i,
    {
        if str_eq(pairs[i].0.as_str(), key) {
            proof {
                lemma_pair_value_index(pairs@, key@, i as int);
            }
            return Some(&pairs[i].1);
        }
        i = i + 1;
    }
    proof {
        assert forall|j: int| 0 <= j < pairs@.len() implies pairs@[j].0@ != key@ by {
            assert(j < i);
        }
        lemma_pair_value_absent(pairs@, key@);
    }
    None
}

} // verus!
