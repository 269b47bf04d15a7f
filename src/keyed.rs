use vstd::prelude::*;
use crate::model::Identified;

verus! {

/// No two entries of `s` share an identifier.
pub open spec fn unique_keys<T: Identified>(s: Seq<T>) -> bool {
    forall|i: int, j: int| 0 <= i < j < s.len() ==> #[trigger] s[i].key() != #[trigger] s[j].key()
}

/// Some entry of `s` has identifier `k`.
pub open spec fn has_key<T: Identified>(s: Seq<T>, k: Seq<char>) -> bool {
    exists|i: int| 0 <= i < s.len() && #[trigger] s[i].key() == k
}

/// The entries of `s` in order, each identifier kept at its first occurrence
/// only.
pub open spec fn first_by_key<T: Identified>(s: Seq<T>) -> Seq<T>
    decreases s.len(),
{
    if s.len() == 0 {
        Seq::empty()
    } else {
        let d = first_by_key(s.drop_last());
        if has_key(d, s.last().key()) {
            d
        } else {
            d.push(s.last())
        }
    }
}

/// `s` with every entry whose identifier is that of `e` replaced by `e`.
pub open spec fn replaced_by_key<T: Identified>(s: Seq<T>, e: T) -> Seq<T> {
    s.map_values(|x: T| if x.key() == e.key() { e } else { x })
}

/// `s` after replacing by identifier with each entry of `es`, in order.
pub open spec fn replaced_all<T: Identified>(s: Seq<T>, es: Seq<T>) -> Seq<T>
    decreases es.len(),
{
    if es.len() == 0 {
        s
    } else {
        replaced_by_key(replaced_all(s, es.drop_last()), es.last())
    }
}

/// The position of the first entry of `v` with identifier `k`.
pub fn find_by_key<T: Identified>(v: &Vec<T>, k: &String) -> (r: Option<usize>)
    ensures
        match r {
            Some(i) => i < v.len() && v@[i as int].key() == k@ && forall|j: int|
                0 <= j < i ==> #[trigger] v@[j].key() != k@,
            None => !has_key(v@, k@),
        },
{
    let mut i: usize = 0;
    while i < v.len()
        invariant
            i <= v.len(),
            forall|j: int| 0 <= j < i ==> #[trigger] v@[j].key() != k@,
        decreases v.len() - i,
    {
        if v[i].id().eq(k) {
            return Some(i);
        }
        i = i + 1;
    }
    None
}

/// Keeps the first entry of each identifier, in order.
pub fn dedup_by_key<T: Identified>(items: Vec<T>) -> (r: Vec<T>)
    ensures
        r@ == first_by_key(items@),
        unique_keys(r@),
{
    let ghost all = items@;
    let mut rest = items;
    let mut out: Vec<T> = Vec::new();
    let mut i: usize = 0;
    let n = rest.len();
    while i < n
        invariant
            n == all.len(),
            i <= n,
            rest@ == all.subrange(i as int, n as int),
            out@ == first_by_key(all.subrange(0, i as int)),
            unique_keys(out@),
        decreases n - i,
    {
        let e = rest.remove(0);
        assert(all.subrange(0, i + 1).drop_last() =~= all.subrange(0, i as int));
        assert(rest@ =~= all.subrange(i + 1, n as int));
        match find_by_key(&out, e.id()) {
            Some(_) => {},
            None => {
                out.push(e);
            },
        }
        i = i + 1;
    }
    assert(all.subrange(0, n as int) =~= all);
    out
}

/// Replaces in place the entry with `e`'s identifier by `e`; returns whether
/// there was one.
pub fn replace_by_key<T: Identified>(v: &mut Vec<T>, e: T) -> (found: bool)
    requires
        unique_keys(old(v)@),
    ensures
        final(v)@ == replaced_by_key(old(v)@, e),
        found == has_key(old(v)@, e.key()),
        unique_keys(final(v)@),
{
    let ghost before = v@;
    let ghost ek = e.key();
    proof {
        lemma_replaced_keys(before, e);
    }
    match find_by_key(v, e.id()) {
        Some(i) => {
            v.set(i, e);
            assert(v@ =~= replaced_by_key(before, e));
            true
        },
        None => {
            assert(before =~= replaced_by_key(before, e));
            false
        },
    }
}

/// Replacing by identifier keeps each position's identifier, and so keeps
/// identifiers unique.
pub proof fn lemma_replaced_keys<T: Identified>(s: Seq<T>, e: T)
    ensures
        replaced_by_key(s, e).len() == s.len(),
        forall|k: int| 0 <= k < s.len() ==> #[trigger] replaced_by_key(s, e)[k].key() == s[k].key(),
        unique_keys(s) ==> unique_keys(replaced_by_key(s, e)),
{
    let r = replaced_by_key(s, e);
    assert forall|k: int| 0 <= k < s.len() implies #[trigger] r[k].key() == s[k].key() by {}
    if unique_keys(s) {
        assert forall|i: int, j: int| 0 <= i < j < r.len() implies #[trigger] r[i].key() != #[trigger] r[j].key() by {
            assert(r[i].key() == s[i].key());
            assert(r[j].key() == s[j].key());
        }
    }
}

/// Replacing twice with the same entry gives what replacing once gives.
pub proof fn lemma_replace_idempotent<T: Identified>(s: Seq<T>, e: T)
    ensures
        replaced_by_key(replaced_by_key(s, e), e) == replaced_by_key(s, e),
{
    assert(replaced_by_key(replaced_by_key(s, e), e) =~= replaced_by_key(s, e));
}

/// Entry by entry, what a series of replacements leaves when the entries of
/// `es` have distinct identifiers: the entry of `es` with the same
/// identifier where there is one, the original entry otherwise.
pub proof fn lemma_replaced_all_pointwise<T: Identified>(s: Seq<T>, es: Seq<T>)
    requires
        unique_keys(es),
    ensures
        replaced_all(s, es).len() == s.len(),
        forall|k: int| 0 <= k < s.len() ==> #[trigger] replaced_all(s, es)[k].key() == s[k].key(),
        forall|k: int, c: T|
            #![trigger es.contains(c), replaced_all(s, es)[k]]
            0 <= k < s.len() && es.contains(c) && c.key() == s[k].key() ==> replaced_all(s, es)[k] == c,
        forall|k: int|
            0 <= k < s.len() && !has_key(es, s[k].key()) ==> #[trigger] replaced_all(s, es)[k] == s[k],
    decreases es.len(),
{
    if es.len() > 0 {
        let init = es.drop_last();
        let last = es.last();
        assert(unique_keys(init));
        lemma_replaced_all_pointwise(s, init);
        let r0 = replaced_all(s, init);
        lemma_replaced_keys(r0, last);
        let r = replaced_all(s, es);
        assert(r == replaced_by_key(r0, last));
        assert forall|k: int, c: T|
            #![trigger es.contains(c), r[k]]
            0 <= k < s.len() && es.contains(c) && c.key() == s[k].key() implies r[k] == c by {
            let j = choose|j: int| 0 <= j < es.len() && es[j] == c;
            if j < es.len() - 1 {
                assert(init[j] == c);
                assert(init.contains(c));
                assert(es[j].key() != es[es.len() - 1].key());
            }
        }
        assert forall|k: int| 0 <= k < s.len() && !has_key(es, s[k].key()) implies #[trigger] r[k] == s[k] by {
            assert(es[es.len() - 1].key() != s[k].key());
            if has_key(init, s[k].key()) {
                let j = choose|j: int| 0 <= j < init.len() && #[trigger] init[j].key() == s[k].key();
                assert(es[j].key() == s[k].key());
            }
        }
    }
}

/// Applying replacements with distinct identifiers in any order gives the
/// same sequence.
pub proof fn lemma_replaced_all_permutation<T: Identified>(s: Seq<T>, es1: Seq<T>, es2: Seq<T>)
    requires
        unique_keys(es1),
        unique_keys(es2),
        es1.to_multiset() == es2.to_multiset(),
    ensures
        replaced_all(s, es1) == replaced_all(s, es2),
{
    broadcast use vstd::seq_lib::to_multiset_contains;

    lemma_replaced_all_pointwise(s, es1);
    lemma_replaced_all_pointwise(s, es2);
    let r1 = replaced_all(s, es1);
    let r2 = replaced_all(s, es2);
    assert forall|k: int| 0 <= k < s.len() implies r1[k] == r2[k] by {
        if has_key(es1, s[k].key()) {
            let j = choose|j: int| 0 <= j < es1.len() && #[trigger] es1[j].key() == s[k].key();
            let c = es1[j];
            assert(es1.contains(c));
            assert(es1.to_multiset().count(c) > 0);
            assert(es2.contains(c));
        } else if has_key(es2, s[k].key()) {
            let j = choose|j: int| 0 <= j < es2.len() && #[trigger] es2[j].key() == s[k].key();
            let c = es2[j];
            assert(es2.contains(c));
            assert(es2.to_multiset().count(c) > 0);
            assert(es1.contains(c));
        }
    }
    assert(r1 =~= r2);
}

/// What [`first_by_key`] keeps has unique identifiers, and each entry of it
/// comes from the input.
pub proof fn lemma_first_by_key_unique<T: Identified>(s: Seq<T>)
    ensures
        unique_keys(first_by_key(s)),
    decreases s.len(),
{
    if s.len() > 0 {
        lemma_first_by_key_unique(s.drop_last());
        let d = first_by_key(s.drop_last());
        if !has_key(d, s.last().key()) {
            let r = d.push(s.last());
            assert forall|i: int, j: int| 0 <= i < j < r.len() implies #[trigger] r[i].key() != #[trigger] r[j].key() by {
                if j == r.len() - 1 {
                    assert(d[i].key() != s.last().key());
                } else {
                    assert(r[i] == d[i] && r[j] == d[j]);
                }
            }
        }
    }
}

} // verus!
