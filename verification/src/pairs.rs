//! Texts by name, held as a list of pairs.

use vstd::prelude::*;

use crate::text::str_eq;

verus! {

/// The texts a list of pairs stands for: the last pair of a name counts, and
/// the order does not matter.
pub open spec fn pairs_view(pairs: Seq<(String, String)>) -> Map<Seq<char>, Seq<char>>
    decreases pairs.len(),
{
    if pairs.len() == 0 {
        Map::empty()
    } else {
        pairs_view(pairs.drop_last()).insert(pairs.last().0@, pairs.last().1@)
    }
}

proof fn lemma_pairs_keys(pairs: Seq<(String, String)>, key: Seq<char>)
    ensures
        pairs_view(pairs).contains_key(key) <==> exists|j: int|
            0 <= j < pairs.len() && (#[trigger] pairs[j]).0@ == key,
    decreases pairs.len(),
{
    if pairs.len() > 0 {
        lemma_pairs_keys(pairs.drop_last(), key);
        assert(forall|j: int|
            0 <= j < pairs.len() - 1 ==> pairs.drop_last()[j] == #[trigger] pairs[j]);
    }
}

/// The text under the name `key`.
pub fn lookup<'a>(pairs: &'a Vec<(String, String)>, key: &str) -> (r: Option<&'a String>)
    ensures
        match r {
            Some(value) => pairs_view(pairs@).contains_key(key@) && pairs_view(pairs@)[key@]
                == value@,
            None => !pairs_view(pairs@).contains_key(key@),
        },
{
    let mut i: usize = pairs.len();
    assert(pairs@.take(i as int) == pairs@);
    while i > 0
        invariant
            i <= pairs.len(),
            pairs_view(pairs@).contains_key(key@) == pairs_view(
                pairs@.take(i as int),
            ).contains_key(key@),
            pairs_view(pairs@).contains_key(key@) ==> pairs_view(pairs@)[key@] == pairs_view(
                pairs@.take(i as int),
            )[key@],
        decreases i,
    {
        assert(pairs@.take(i as int).drop_last() == pairs@.take(i as int - 1));
        i -= 1;
        if str_eq(pairs[i].0.as_str(), key) {
            return Some(&pairs[i].1);
        }
    }
    None
}

/// A copy of the pairs.
pub fn clone_pairs(pairs: &Vec<(String, String)>) -> (r: Vec<(String, String)>)
    ensures
        pairs_view(r@) == pairs_view(pairs@),
{
    let mut out: Vec<(String, String)> = Vec::new();
    let mut i: usize = 0;
    while i < pairs.len()
        invariant
            i <= pairs.len(),
            pairs_view(out@) == pairs_view(pairs@.take(i as int)),
        decreases pairs.len() - i,
    {
        let ghost before = out@;
        out.push((pairs[i].0.clone(), pairs[i].1.clone()));
        i += 1;
        assert(out@.drop_last() == before);
        assert(pairs@.take(i as int).drop_last() == pairs@.take(i as int - 1));
    }
    assert(pairs@.take(i as int) == pairs@);
    out
}

fn pairs_within(a: &Vec<(String, String)>, b: &Vec<(String, String)>) -> (r: bool)
    ensures
        r == (forall|key: Seq<char>| #[trigger]
            pairs_view(a@).contains_key(key) ==> pairs_view(b@).contains_key(key) && pairs_view(
                b@,
            )[key] == pairs_view(a@)[key]),
{
    let mut i: usize = 0;
    while i < a.len()
        invariant
            i <= a.len(),
            forall|j: int|
                0 <= j < i ==> pairs_view(b@).contains_key((#[trigger] a@[j]).0@) && pairs_view(
                    b@,
                )[a@[j].0@] == pairs_view(a@)[a@[j].0@],
        decreases a.len() - i,
    {
        let key = a[i].0.as_str();
        proof {
            lemma_pairs_keys(a@, key@);
        }
        assert(a@[i as int].0@ == key@);
        let held = match (lookup(a, key), lookup(b, key)) {
            (Some(x), Some(y)) => str_eq(x.as_str(), y.as_str()),
            _ => false,
        };
        if !held {
            assert(pairs_view(a@).contains_key(key@));
            return false;
        }
        i += 1;
    }
    assert forall|key: Seq<char>| #[trigger] pairs_view(a@).contains_key(key) implies pairs_view(
        b@,
    ).contains_key(key) && pairs_view(b@)[key] == pairs_view(a@)[key] by {
        lemma_pairs_keys(a@, key);
    }
    true
}

/// Whether two lists of pairs stand for the same texts.
pub fn same_pairs(a: &Vec<(String, String)>, b: &Vec<(String, String)>) -> (r: bool)
    ensures
        r == (pairs_view(a@) == pairs_view(b@)),
{
    if pairs_within(a, b) && pairs_within(b, a) {
        assert(pairs_view(a@) =~= pairs_view(b@));
        true
    } else {
        false
    }
}

} // verus!
