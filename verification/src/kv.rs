//! Association lists: sequences of key/value pairs keyed by strings.
//!
//! Filter arguments, decoded payload fields, and decoded wire documents are
//! all association lists; the first pair with a matching key decides a
//! lookup.

use vstd::prelude::*;

use crate::text::str_eq;

verus! {

/// The value under the first pair whose key is `k`, if any.
pub open spec fn assoc_lookup<W>(d: Seq<(Seq<char>, W)>, k: Seq<char>) -> Option<W>
    decreases d.len(),
{
    if d.len() == 0 {
        None
    } else if d[0].0 == k {
        Some(d[0].1)
    } else {
        assoc_lookup(d.drop_first(), k)
    }
}

/// Whether no two pairs share a key.
pub open spec fn unique_keys<W>(d: Seq<(Seq<char>, W)>) -> bool {
    forall|i: int, j: int| 0 <= i < j < d.len() ==> d[i].0 != d[j].0
}

proof fn lemma_assoc_lookup_skip<W>(d: Seq<(Seq<char>, W)>, k: Seq<char>, i: int)
    requires
        0 <= i < d.len(),
        d[i].0 != k,
    ensures
        assoc_lookup(d.subrange(i, d.len() as int), k) == assoc_lookup(
            d.subrange(i + 1, d.len() as int),
            k,
        ),
{
    assert(d.subrange(i, d.len() as int).drop_first() =~= d.subrange(i + 1, d.len() as int));
}

/// A reference to the value under the first pair whose key is `key`, if any.
pub fn assoc_get<'a, V: DeepView>(d: &'a Vec<(String, V)>, key: &str) -> (r: Option<&'a V>)
    ensures
        r.deep_view() == assoc_lookup(d.deep_view(), key@),
{
    let ghost dv = d.deep_view();
    proof {
        assert(dv.subrange(0, dv.len() as int) =~= dv);
    }
    let mut i: usize = 0;
    while i < d.len()
        invariant
            i <= d.len(),
            dv == d.deep_view(),
            dv.len() == d.len(),
            assoc_lookup(dv, key@) == assoc_lookup(dv.subrange(i as int, dv.len() as int), key@),
        decreases d.len() - i,
    {
        proof {
            assert(dv[i as int] == (d@[i as int].0@, d@[i as int].1.deep_view()));
            assert(dv.subrange(i as int, dv.len() as int)[0] == dv[i as int]);
        }
        if str_eq(d[i].0.as_str(), key) {
            return Some(&d[i].1);
        }
        proof {
            lemma_assoc_lookup_skip(dv, key@, i as int);
        }
        i = i + 1;
    }
    proof {
        assert(dv.subrange(d.len() as int, dv.len() as int) =~= Seq::<(Seq<char>, V::V)>::empty());
    }
    None
}

/// A copy of an association list of strings.
pub fn clone_pairs(v: &Vec<(String, String)>) -> (r: Vec<(String, String)>)
    ensures
        r@ == v@,
{
    let mut r: Vec<(String, String)> = Vec::new();
    let mut i: usize = 0;
    while i < v.len()
        invariant
            i <= v.len(),
            r@ == v@.subrange(0, i as int),
        decreases v.len() - i,
    {
        let k = v[i].0.clone();
        let val = v[i].1.clone();
        r.push((k, val));
        proof {
            assert(r@ =~= v@.subrange(0, i as int + 1));
        }
        i = i + 1;
    }
    proof {
        assert(v@.subrange(0, v.len() as int) =~= v@);
    }
    r
}

} // verus!
