//! Ordered set difference between two branches' upgrade-path lists.

use vstd::prelude::*;

verus! {

/// The predicate selecting paths that do not occur in `src`.
pub open spec fn absent_from(src: Seq<Seq<char>>) -> spec_fn(Seq<char>) -> bool {
    |p: Seq<char>| !src.contains(p)
}

/// The paths of `tgt` that do not occur anywhere in `src`, in `tgt`'s
/// original relative order.
pub open spec fn spec_new_upgrades(src: Seq<Seq<char>>, tgt: Seq<Seq<char>>) -> Seq<Seq<char>> {
    tgt.filter(absent_from(src))
}

/// Whether some element of `v` equals `s`, compared character by character.
fn contains_string(v: &Vec<String>, s: &String) -> (r: bool)
    ensures
        r == v.deep_view().contains(s@),
{
    let mut i: usize = 0;
    while i < v.len()
        invariant
            i <= v.len(),
            forall|j: int| 0 <= j < i ==> v.deep_view()[j] != s@,
        decreases v.len() - i,
    {
        if v[i] == *s {
            assert(v.deep_view()[i as int] == s@);
            return true;
        }
        i += 1;
    }
    assert(forall|j: int| 0 <= j < v.deep_view().len() ==> v.deep_view()[j] != s@);
    false
}

/// The upgrade paths present in the target list `tgt` and absent from the
/// source list `src`, in `tgt`'s order.
pub fn diff_upgrades(src: &Vec<String>, tgt: &Vec<String>) -> (r: Vec<String>)
    ensures
        r.deep_view() == spec_new_upgrades(src.deep_view(), tgt.deep_view()),
{
    let ghost pred = absent_from(src.deep_view());
    let mut out: Vec<String> = Vec::new();
    let mut i: usize = 0;
    while i < tgt.len()
        invariant
            i <= tgt.len(),
            out.deep_view() == tgt.deep_view().take(i as int).filter(pred),
            pred == absent_from(src.deep_view()),
        decreases tgt.len() - i,
    {
        let ghost prefix = tgt.deep_view().take(i as int);
        if !contains_string(src, &tgt[i]) {
            out.push(tgt[i].clone());
        }
        proof {
            reveal(Seq::filter);
            let longer = tgt.deep_view().take(i + 1 as int);
            assert(longer.drop_last() =~= prefix);
            assert(longer.last() == tgt.deep_view()[i as int]);
            assert(out.deep_view() =~= longer.filter(pred));
        }
        i += 1;
    }
    proof {
        assert(tgt.deep_view().take(tgt.len() as int) =~= tgt.deep_view());
    }
    out
}

/// Every element of a filtered sequence is an element of the original.
proof fn lemma_filter_subset<A>(s: Seq<A>, pred: spec_fn(A) -> bool)
    ensures
        forall|i: int|
            0 <= i < s.filter(pred).len() ==> s.contains(#[trigger] s.filter(pred)[i]),
    decreases s.len(),
{
    reveal(Seq::filter);
    if s.len() > 0 {
        lemma_filter_subset(s.drop_last(), pred);
        assert forall|i: int| 0 <= i < s.filter(pred).len() implies s.contains(
            #[trigger] s.filter(pred)[i],
        ) by {
            let sub = s.drop_last().filter(pred);
            if i < sub.len() {
                let j = choose|j: int| 0 <= j < s.drop_last().len() && s.drop_last()[j] == sub[i];
                assert(s[j] == sub[i]);
            } else {
                assert(s.filter(pred)[i] == s.last());
                assert(s[s.len() - 1] == s.last());
            }
        }
    }
}

/// A path is in the diff exactly when it is in the target list and not in
/// the source list.
pub proof fn lemma_diff_membership(src: Seq<Seq<char>>, tgt: Seq<Seq<char>>, p: Seq<char>)
    ensures
        spec_new_upgrades(src, tgt).contains(p) <==> (tgt.contains(p) && !src.contains(p)),
{
    broadcast use vstd::seq_lib::group_filter_ensures;

    lemma_filter_subset(tgt, absent_from(src));
    if tgt.contains(p) && !src.contains(p) {
        let j = choose|j: int| 0 <= j < tgt.len() && tgt[j] == p;
        assert(absent_from(src)(tgt[j]));
        assert(tgt.filter(absent_from(src)).contains(tgt[j]));
    }
    if spec_new_upgrades(src, tgt).contains(p) {
        let i = choose|i: int|
            0 <= i < spec_new_upgrades(src, tgt).len() && spec_new_upgrades(src, tgt)[i] == p;
        assert(absent_from(src)(spec_new_upgrades(src, tgt)[i]));
    }
}

/// Diffing a snapshot against itself always yields the empty list.
pub proof fn lemma_diff_self_empty(paths: Seq<Seq<char>>)
    ensures
        spec_new_upgrades(paths, paths).len() == 0,
{
    broadcast use vstd::seq_lib::group_filter_ensures;

    lemma_filter_subset(paths, absent_from(paths));
    if spec_new_upgrades(paths, paths).len() > 0 {
        let x = spec_new_upgrades(paths, paths)[0];
        assert(paths.contains(x));
        assert(absent_from(paths)(x));
    }
}

} // verus!
