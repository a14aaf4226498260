//! Association lists keyed by strings: the storage shape used for token
//! balances, agreements and claim markers.
use vstd::prelude::*;

verus! {

/// The value stored under `k`, looking from the most recent entry backwards.
pub open spec fn assoc<V>(s: Seq<(String, V)>, k: Seq<char>) -> Option<V>
    decreases s.len(),
{
    if s.len() == 0 {
        None
    } else if s.last().0@ == k {
        Some(s.last().1)
    } else {
        assoc(s.drop_last(), k)
    }
}

/// No key occurs twice.
pub open spec fn unique_keys<V>(s: Seq<(String, V)>) -> bool {
    forall|i: int, j: int| 0 <= i < j < s.len() ==> s[i].0@ != s[j].0@
}

/// The set of keys present.
pub open spec fn has_key<V>(s: Seq<(String, V)>, k: Seq<char>) -> bool {
    exists|i: int| 0 <= i < s.len() && s[i].0@ == k
}

pub proof fn lemma_assoc_at<V>(s: Seq<(String, V)>, i: int)
    requires
        unique_keys(s),
        0 <= i < s.len(),
    ensures
        assoc(s, s[i].0@) == Some(s[i].1),
    decreases s.len(),
{
    if i < s.len() - 1 {
        lemma_assoc_at(s.drop_last(), i);
    }
}

pub proof fn lemma_assoc_none<V>(s: Seq<(String, V)>, k: Seq<char>)
    ensures
        assoc(s, k) is None <==> !has_key(s, k),
    decreases s.len(),
{
    if s.len() > 0 {
        lemma_assoc_none(s.drop_last(), k);
        if has_key(s, k) && s.last().0@ != k {
            let i = choose|i: int| 0 <= i < s.len() && s[i].0@ == k;
            assert(s.drop_last()[i].0@ == k);
        }
        if has_key(s.drop_last(), k) {
            let i = choose|i: int| 0 <= i < s.len() - 1 && s.drop_last()[i].0@ == k;
            assert(s[i].0@ == k);
        }
        if s.last().0@ == k {
            assert(s[s.len() - 1].0@ == k);
        }
    }
}

pub proof fn lemma_assoc_push<V>(s: Seq<(String, V)>, x: (String, V), k: Seq<char>)
    ensures
        assoc(s.push(x), k) == (if x.0@ == k { Some(x.1) } else { assoc(s, k) }),
{
    assert(s.push(x).drop_last() =~= s);
}

pub proof fn lemma_assoc_update<V>(s: Seq<(String, V)>, i: int, v: V, k: Seq<char>)
    requires
        unique_keys(s),
        0 <= i < s.len(),
    ensures
        assoc(s.update(i, (s[i].0, v)), k) == (if k == s[i].0@ { Some(v) } else { assoc(s, k) }),
    decreases s.len(),
{
    let t = s.update(i, (s[i].0, v));
    if i == s.len() - 1 {
        assert(t.drop_last() =~= s.drop_last());
        if k != s[i].0@ {
            assert(assoc(t, k) == assoc(t.drop_last(), k));
        }
    } else {
        assert(t.drop_last() =~= s.drop_last().update(i, (s[i].0, v)));
        lemma_assoc_update(s.drop_last(), i, v, k);
        assert(s[s.len() - 1].0@ != s[i].0@);
    }
}

pub proof fn lemma_assoc_remove<V>(s: Seq<(String, V)>, i: int, k: Seq<char>)
    requires
        unique_keys(s),
        0 <= i < s.len(),
    ensures
        assoc(s.remove(i), k) == (if k == s[i].0@ { None } else { assoc(s, k) }),
        unique_keys(s.remove(i)),
    decreases s.len(),
{
    let t = s.remove(i);
    if i == s.len() - 1 {
        assert(t =~= s.drop_last());
        if k == s[i].0@ {
            lemma_assoc_none(t, k);
        }
    } else {
        assert(t.drop_last() =~= s.drop_last().remove(i));
        assert(t.last() == s.last());
        lemma_assoc_remove(s.drop_last(), i, k);
        assert(s[s.len() - 1].0@ != s[i].0@);
    }
}

pub proof fn lemma_unique_push<V>(s: Seq<(String, V)>, x: (String, V))
    requires
        unique_keys(s),
        !has_key(s, x.0@),
    ensures
        unique_keys(s.push(x)),
{
    assert forall|i: int, j: int| 0 <= i < j < s.push(x).len() implies s.push(x)[i].0@ != s.push(
        x,
    )[j].0@ by {
        if j == s.len() {
            assert(s[i].0@ != x.0@);
        }
    }
}

pub proof fn lemma_assoc_update_all<V>(s: Seq<(String, V)>, i: int, v: V)
    requires
        unique_keys(s),
        0 <= i < s.len(),
    ensures
        unique_keys(s.update(i, (s[i].0, v))),
        forall|k: Seq<char>| #[trigger] assoc(s.update(i, (s[i].0, v)), k) == (if k == s[i].0@ { Some(v) } else { assoc(s, k) }),
{
    assert forall|k: Seq<char>| #[trigger] assoc(s.update(i, (s[i].0, v)), k) == (if k == s[i].0@ { Some(v) } else { assoc(s, k) }) by {
        lemma_assoc_update(s, i, v, k);
    }
}

pub proof fn lemma_assoc_remove_all<V>(s: Seq<(String, V)>, i: int)
    requires
        unique_keys(s),
        0 <= i < s.len(),
    ensures
        unique_keys(s.remove(i)),
        forall|k: Seq<char>| #[trigger] assoc(s.remove(i), k) == (if k == s[i].0@ { None } else { assoc(s, k) }),
{
    lemma_assoc_remove(s, i, s[i].0@);
    assert forall|k: Seq<char>| #[trigger] assoc(s.remove(i), k) == (if k == s[i].0@ { None } else { assoc(s, k) }) by {
        lemma_assoc_remove(s, i, k);
    }
}

/// Removes the entry under `k`, if any, and returns its value.
pub fn remove_key<V>(v: &mut Vec<(String, V)>, k: &String) -> (r: Option<V>)
    requires
        unique_keys(old(v)@),
    ensures
        unique_keys(final(v)@),
        r == assoc(old(v)@, k@),
        forall|j: Seq<char>| #[trigger] assoc(final(v)@, j) == (if j == k@ { None } else { assoc(old(v)@, j) }),
{
    match find_key(v, k) {
        Some(i) => {
            proof {
                lemma_assoc_remove_all(v@, i as int);
            }
            let (_, x) = v.remove(i);
            Some(x)
        },
        None => None,
    }
}

pub open spec fn keys_of<V>(s: Seq<(String, V)>) -> Seq<String> {
    s.map_values(|e: (String, V)| e.0)
}

/// The keys, in storage order.
pub fn keys<V>(v: &Vec<(String, V)>) -> (r: Vec<String>)
    ensures
        r@ == keys_of(v@),
{
    let ghost all = keys_of(v@);
    let mut r: Vec<String> = Vec::new();
    let mut i: usize = 0;
    while i < v.len()
        invariant
            i <= v@.len(),
            all == keys_of(v@),
            all.len() == v@.len(),
            r@ == all.take(i as int),
        decreases v@.len() - i,
    {
        let k = v[i].0.clone();
        assert(k == all[i as int]);
        r.push(k);
        i = i + 1;
        assert(r@ =~= all.take(i as int));
    }
    assert(r@ =~= all);
    r
}

/// Whether no key occurs twice.
pub fn has_unique_keys<V>(v: &Vec<(String, V)>) -> (r: bool)
    ensures
        r == unique_keys(v@),
{
    let mut i: usize = 0;
    while i < v.len()
        invariant
            i <= v@.len(),
            forall|a: int, b: int| 0 <= a < b < i ==> v@[a].0@ != v@[b].0@,
        decreases v@.len() - i,
    {
        let mut j: usize = 0;
        while j < i
            invariant
                i < v@.len(),
                j <= i,
                forall|a: int| 0 <= a < j ==> v@[a].0@ != v@[i as int].0@,
            decreases i - j,
        {
            if v[j].0 == v[i].0 {
                return false;
            }
            j = j + 1;
        }
        i = i + 1;
    }
    true
}

pub proof fn lemma_assoc_some<V>(s: Seq<(String, V)>, k: Seq<char>)
    requires
        unique_keys(s),
        assoc(s, k) is Some,
    ensures
        exists|i: int| 0 <= i < s.len() && s[i].0@ == k && s[i].1 == assoc(s, k)->Some_0,
{
    lemma_assoc_none(s, k);
    let i = choose|i: int| 0 <= i < s.len() && s[i].0@ == k;
    lemma_assoc_at(s, i);
}

/// Finds the position of `k`, if any.
pub fn find_key<V>(v: &Vec<(String, V)>, k: &String) -> (r: Option<usize>)
    requires
        unique_keys(v@),
    ensures
        r matches Some(i) ==> i < v@.len() && v@[i as int].0@ == k@ && assoc(v@, k@) == Some(
            v@[i as int].1,
        ),
        r is None ==> assoc(v@, k@) is None && !has_key(v@, k@),
{
    let mut i: usize = 0;
    while i < v.len()
        invariant
            i <= v@.len(),
            unique_keys(v@),
            forall|j: int| 0 <= j < i ==> v@[j].0@ != k@,
        decreases v@.len() - i,
    {
        if v[i].0 == *k {
            proof {
                lemma_assoc_at(v@, i as int);
            }
            return Some(i);
        }
        i = i + 1;
    }
    proof {
        lemma_assoc_none(v@, k@);
    }
    None
}

} // verus!
