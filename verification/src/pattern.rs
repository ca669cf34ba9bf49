//! Move-pattern handling: building the pattern that selects upgrades for
//! the moved section, and partitioning the new-upgrade list with it.

use vstd::prelude::*;

verus! {

/// Whether the pattern text compiles as a regular expression. Whether a
/// pattern compiles depends on the pattern text alone.
pub uninterp spec fn regex_valid(pat: Seq<char>) -> bool;

/// Whether the regular expression `pat` matches anywhere in `text`. The
/// result depends on the pattern and the haystack alone.
pub uninterp spec fn regex_matches(pat: Seq<char>, text: Seq<char>) -> bool;

/// Relies on `regex::Regex::new` and `regex::Regex::is_match`: `new`
/// succeeds or fails by the pattern text alone, and `is_match` returns
/// whether the pattern matches anywhere in the haystack, a function of
/// pattern and haystack alone.
#[verifier::external_body]
fn regex_match(pat: &String, text: &String) -> (r: Option<bool>)
    ensures
        r is Some <==> regex_valid(pat@),
        r is Some ==> r->0 == regex_matches(pat@, text@),
{
    match regex::Regex::new(pat) {
        Ok(re) => Some(re.is_match(text)),
        Err(_) => None,
    }
}

/// Relies on `regex::Regex::new`: whether compilation succeeds depends
/// on the pattern text alone.
#[verifier::external_body]
fn regex_compiles(pat: &String) -> (r: bool)
    ensures
        r == regex_valid(pat@),
{
    regex::Regex::new(pat).is_ok()
}

/// The move fragments joined with `|`.
pub open spec fn join_fragments(parts: Seq<Seq<char>>) -> Seq<char>
    decreases parts.len(),
{
    if parts.len() == 0 {
        Seq::empty()
    } else if parts.len() == 1 {
        parts[0]
    } else {
        join_fragments(parts.drop_last()) + seq!['|'] + parts.last()
    }
}

/// The move pattern built from the given fragments: a non-capturing
/// group holding the fragments joined with `|`.
pub open spec fn spec_move_pattern(parts: Seq<Seq<char>>) -> Seq<char> {
    "(?:"@ + join_fragments(parts) + ")"@
}

/// The move pattern for the given fragments, ready for compilation.
pub fn build_move_pattern(parts: &Vec<String>) -> (r: String)
    ensures
        r@ == spec_move_pattern(parts.deep_view()),
{
    let ghost all = parts.deep_view();
    let mut out = String::from_str("(?:");
    let mut i: usize = 0;
    proof {
        assert(all.take(0) =~= Seq::<Seq<char>>::empty());
    }
    while i < parts.len()
        invariant
            all == parts.deep_view(),
            i <= parts.len(),
            out@ == "(?:"@ + join_fragments(all.take(i as int)),
        decreases parts.len() - i,
    {
        if i > 0 {
            out.append("|");
        }
        out.append(parts[i].as_str());
        proof {
            reveal_strlit("|");
            let longer = all.take(i + 1 as int);
            assert(longer.drop_last() =~= all.take(i as int));
            assert(longer.last() == all[i as int]);
            assert("|"@ =~= seq!['|']);
            if i == 0 {
                assert(join_fragments(longer) == all[i as int]);
            }
            assert(out@ =~= "(?:"@ + join_fragments(longer));
        }
        i += 1;
    }
    proof {
        assert(all.take(parts.len() as int) =~= all);
    }
    out.append(")");
    out
}

/// The predicate selecting upgrades diverted to the moved section: a
/// move pattern was given and it matches the path.
pub open spec fn is_moved(pat: Option<Seq<char>>) -> spec_fn(Seq<char>) -> bool {
    |p: Seq<char>|
        match pat {
            Some(q) => regex_matches(q, p),
            None => false,
        }
}

/// The predicate selecting upgrades kept in the transactional body.
pub open spec fn is_kept(pat: Option<Seq<char>>) -> spec_fn(Seq<char>) -> bool {
    |p: Seq<char>|
        match pat {
            Some(q) => !regex_matches(q, p),
            None => true,
        }
}

/// The body partition of the new-upgrade list: the paths the move
/// pattern does not select, in their original relative order.
pub open spec fn spec_main_upgrades(pat: Option<Seq<char>>, ups: Seq<Seq<char>>) -> Seq<
    Seq<char>,
> {
    ups.filter(is_kept(pat))
}

/// The moved partition of the new-upgrade list: the paths the move
/// pattern selects, in their original relative order.
pub open spec fn spec_moved_upgrades(pat: Option<Seq<char>>, ups: Seq<Seq<char>>) -> Seq<
    Seq<char>,
> {
    ups.filter(is_moved(pat))
}

/// A copy of `v`, element for element.
fn clone_strings(v: &Vec<String>) -> (r: Vec<String>)
    ensures
        r.deep_view() == v.deep_view(),
{
    let mut out: Vec<String> = Vec::new();
    let mut i: usize = 0;
    while i < v.len()
        invariant
            i <= v.len(),
            out.deep_view() == v.deep_view().take(i as int),
        decreases v.len() - i,
    {
        let ghost prev = out.deep_view();
        out.push(v[i].clone());
        proof {
            assert(out.deep_view() =~= prev.push(v.deep_view()[i as int]));
            assert(out.deep_view() =~= v.deep_view().take(i + 1 as int));
        }
        i += 1;
    }
    proof {
        assert(v.deep_view().take(v.len() as int) =~= v.deep_view());
    }
    out
}

/// Split the new-upgrade list into the transactional-body part and the
/// moved part, preserving relative order within each.
///
/// With no pattern, every upgrade stays in the body. With a pattern that
/// does not compile as a regular expression, `None` is returned and
/// nothing is partitioned.
pub fn partition_upgrades(pattern: &Option<String>, upgrades: &Vec<String>) -> (r: Option<
    (Vec<String>, Vec<String>),
>)
    ensures
        r is Some <==> (pattern is Some ==> regex_valid(pattern->0@)),
        r is Some ==> ({
            let pair = r->0;
            &&& pair.0.deep_view() == spec_main_upgrades(
                pattern.deep_view(),
                upgrades.deep_view(),
            )
            &&& pair.1.deep_view() == spec_moved_upgrades(
                pattern.deep_view(),
                upgrades.deep_view(),
            )
        }),
{
    let ghost pat = pattern.deep_view();
    let ghost all = upgrades.deep_view();
    match pattern {
        None => {
            let main = clone_strings(upgrades);
            let moved: Vec<String> = Vec::new();
            proof {
                reveal(Seq::filter);
                assert(all.filter(is_kept(pat)) =~= all) by {
                    lemma_filter_all_kept(all, is_kept(pat));
                }
                assert(all.filter(is_moved(pat)) =~= Seq::<Seq<char>>::empty()) by {
                    lemma_filter_none_kept(all, is_moved(pat));
                }
            }
            Some((main, moved))
        },
        Some(p) => {
            if !regex_compiles(p) {
                return None;
            }
            let mut main: Vec<String> = Vec::new();
            let mut moved: Vec<String> = Vec::new();
            let mut i: usize = 0;
            proof {
                assert(all.take(0) =~= Seq::<Seq<char>>::empty());
                reveal(Seq::filter);
            }
            while i < upgrades.len()
                invariant
                    pattern is Some && pattern->0 == p,
                    pat == pattern.deep_view(),
                    all == upgrades.deep_view(),
                    i <= upgrades.len(),
                    regex_valid(p@),
                    main.deep_view() == all.take(i as int).filter(is_kept(pat)),
                    moved.deep_view() == all.take(i as int).filter(is_moved(pat)),
                decreases upgrades.len() - i,
            {
                let hit = regex_match(p, &upgrades[i]).unwrap();
                let ghost prev_main = main.deep_view();
                let ghost prev_moved = moved.deep_view();
                if hit {
                    moved.push(upgrades[i].clone());
                } else {
                    main.push(upgrades[i].clone());
                }
                proof {
                    reveal(Seq::filter);
                    let longer = all.take(i + 1 as int);
                    assert(longer.drop_last() =~= all.take(i as int));
                    assert(longer.last() == all[i as int]);
                    if hit {
                        assert(moved.deep_view() =~= prev_moved.push(all[i as int]));
                    } else {
                        assert(main.deep_view() =~= prev_main.push(all[i as int]));
                    }
                    assert(main.deep_view() =~= longer.filter(is_kept(pat)));
                    assert(moved.deep_view() =~= longer.filter(is_moved(pat)));
                }
                i += 1;
            }
            proof {
                assert(all.take(upgrades.len() as int) =~= all);
            }
            Some((main, moved))
        },
    }
}

/// The two parts of the partition cover the whole new-upgrade list:
/// every upgrade lands in exactly one of the body and the moved section.
pub proof fn lemma_partition_complete(pat: Option<Seq<char>>, ups: Seq<Seq<char>>)
    ensures
        spec_main_upgrades(pat, ups).len() + spec_moved_upgrades(pat, ups).len() == ups.len(),
    decreases ups.len(),
{
    reveal(Seq::filter);
    if ups.len() > 0 {
        lemma_partition_complete(pat, ups.drop_last());
    }
}

/// Filtering with a predicate that every element satisfies keeps the
/// whole sequence.
proof fn lemma_filter_all_kept<A>(s: Seq<A>, pred: spec_fn(A) -> bool)
    requires
        forall|i: int| 0 <= i < s.len() ==> pred(#[trigger] s[i]),
    ensures
        s.filter(pred) == s,
    decreases s.len(),
{
    reveal(Seq::filter);
    if s.len() > 0 {
        lemma_filter_all_kept(s.drop_last(), pred);
        assert(s.filter(pred) =~= s);
    }
}

/// Filtering with a predicate that no element satisfies drops everything.
proof fn lemma_filter_none_kept<A>(s: Seq<A>, pred: spec_fn(A) -> bool)
    requires
        forall|i: int| 0 <= i < s.len() ==> !pred(#[trigger] s[i]),
    ensures
        s.filter(pred) == Seq::<A>::empty(),
    decreases s.len(),
{
    reveal(Seq::filter);
    if s.len() > 0 {
        lemma_filter_none_kept(s.drop_last(), pred);
        assert(s.filter(pred) =~= Seq::<A>::empty());
    }
}

} // verus!
