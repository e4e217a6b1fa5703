//! The order in which documents are reported.

use crate::text::{lex_le, str_le, views};
use vstd::prelude::*;
use vstd::seq_lib::{lemma_multiset_commutative, lemma_sorted_unique, to_multiset_build};

verus! {

/// Every text of `texts` comes no later than those behind it.
pub open spec fn ordered(texts: Seq<Seq<char>>) -> bool {
    forall|i: int, j: int| 0 <= i < j < texts.len() ==> lex_le(#[trigger] texts[i], #[trigger] texts[j])
}

/// `sorted` holds the texts of `original`, each as often as `original` does,
/// in lexicographic order.
pub open spec fn is_sorting_of(sorted: Seq<Seq<char>>, original: Seq<Seq<char>>) -> bool {
    ordered(sorted) && sorted.to_multiset() == original.to_multiset()
}

/// Different characters have different code points.
proof fn codes_differ(x: char, y: char)
    requires
        x != y,
    ensures
        x as u32 != y as u32,
{
}

/// Every text comes no later than itself.
pub proof fn lex_le_reflexive(a: Seq<char>)
    ensures
        lex_le(a, a),
    decreases a.len(),
{
    if a.len() > 0 {
        lex_le_reflexive(a.drop_first());
    }
}

/// Of two texts, one comes no later than the other.
pub proof fn lex_le_total(a: Seq<char>, b: Seq<char>)
    ensures
        lex_le(a, b) || lex_le(b, a),
    decreases a.len(),
{
    if a.len() > 0 && b.len() > 0 {
        if a[0] == b[0] {
            lex_le_total(a.drop_first(), b.drop_first());
        } else {
            codes_differ(a[0], b[0]);
        }
    }
}

/// Two texts that each come no later than the other are the same text.
pub proof fn lex_le_antisymmetric(a: Seq<char>, b: Seq<char>)
    requires
        lex_le(a, b),
        lex_le(b, a),
    ensures
        a == b,
    decreases a.len(),
{
    if a.len() == 0 || b.len() == 0 {
        assert(a =~= b);
    } else {
        lex_le_antisymmetric(a.drop_first(), b.drop_first());
        assert(a =~= seq![a[0]] + a.drop_first());
        assert(b =~= seq![b[0]] + b.drop_first());
    }
}

/// The order passes along: from `a` to `b` and from `b` to `c` gives from
/// `a` to `c`.
pub proof fn lex_le_transitive(a: Seq<char>, b: Seq<char>, c: Seq<char>)
    requires
        lex_le(a, b),
        lex_le(b, c),
    ensures
        lex_le(a, c),
    decreases a.len(),
{
    if a.len() > 0 && a[0] == b[0] && b[0] == c[0] {
        lex_le_transitive(a.drop_first(), b.drop_first(), c.drop_first());
    }
}

/// A list of texts has only one sorting: two ordered lists that hold the
/// same texts equally often are the same list. Sorting the same documents
/// twice, or sorting a sorted list again, therefore changes nothing.
pub proof fn sorting_is_unique(first: Seq<Seq<char>>, second: Seq<Seq<char>>)
    requires
        ordered(first),
        ordered(second),
        first.to_multiset() == second.to_multiset(),
    ensures
        first == second,
{
    let leq = |a: Seq<char>, b: Seq<char>| lex_le(a, b);
    assert forall|a: Seq<char>| #[trigger] leq(a, a) by {
        lex_le_reflexive(a);
    }
    assert forall|a: Seq<char>, b: Seq<char>| #[trigger] leq(a, b) && #[trigger] leq(b, a) implies a
        == b by {
        lex_le_antisymmetric(a, b);
    }
    assert forall|a: Seq<char>, b: Seq<char>, c: Seq<char>| #[trigger]
        leq(a, b) && #[trigger] leq(b, c) implies leq(a, c) by {
        lex_le_transitive(a, b, c);
    }
    assert forall|a: Seq<char>, b: Seq<char>| #[trigger] leq(a, b) || #[trigger] leq(b, a) by {
        lex_le_total(a, b);
    }
    lemma_sorted_unique(first, second, leq);
}

/// Merges two ordered lists into one.
fn merge(left: &Vec<String>, right: &Vec<String>) -> (out: Vec<String>)
    requires
        ordered(views(left@)),
        ordered(views(right@)),
    ensures
        is_sorting_of(views(out@), views(left@) + views(right@)),
{
    broadcast use vstd::multiset::group_multiset_axioms;

    let ghost l = views(left@);
    let ghost r = views(right@);
    let mut out: Vec<String> = Vec::new();
    let mut i: usize = 0;
    let mut j: usize = 0;
    proof {
        let none = Seq::<Seq<char>>::empty();
        assert(views(out@) =~= none);
        assert(l.take(0) =~= none);
        assert(r.take(0) =~= none);
        assert(none + none =~= none);
        lemma_multiset_commutative(none, none);
    }
    while i < left.len() || j < right.len()
        invariant
            l == views(left@),
            r == views(right@),
            ordered(l),
            ordered(r),
            i <= left.len(),
            j <= right.len(),
            ordered(views(out@)),
            views(out@).to_multiset() == l.take(i as int).to_multiset().add(
                r.take(j as int).to_multiset(),
            ),
            forall|k: int|
                0 <= k < out.len() && i < left.len() ==> lex_le(
                    #[trigger] views(out@)[k],
                    l[i as int],
                ),
            forall|k: int|
                0 <= k < out.len() && j < right.len() ==> lex_le(
                    #[trigger] views(out@)[k],
                    r[j as int],
                ),
        decreases left.len() - i + right.len() - j,
    {
        let ghost before = views(out@);
        let from_left = if i == left.len() {
            false
        } else if j == right.len() {
            true
        } else {
            str_le(left[i].as_str(), right[j].as_str())
        };
        if from_left {
            let ghost x = l[i as int];
            out.push(left[i].clone());
            proof {
                assert(views(out@) =~= before.push(x));
                assert(l.take(i + 1) =~= l.take(i as int).push(x));
                to_multiset_build(before, x);
                to_multiset_build(l.take(i as int), x);
                assert(views(out@).to_multiset() =~= l.take(i + 1).to_multiset().add(
                    r.take(j as int).to_multiset(),
                ));
                lex_le_reflexive(x);
                assert forall|k: int| 0 <= k < out.len() && i + 1 < left.len() implies lex_le(
                    #[trigger] views(out@)[k],
                    l[i + 1],
                ) by {
                    if k < before.len() {
                        assert(views(out@)[k] == before[k]);
                    }
                    lex_le_transitive(views(out@)[k], x, l[i + 1]);
                }
                assert forall|k: int| 0 <= k < out.len() && j < right.len() implies lex_le(
                    #[trigger] views(out@)[k],
                    r[j as int],
                ) by {
                    if k < before.len() {
                        assert(views(out@)[k] == before[k]);
                    }
                }
            }
            i += 1;
        } else {
            let ghost x = r[j as int];
            out.push(right[j].clone());
            proof {
                assert(views(out@) =~= before.push(x));
                assert(r.take(j + 1) =~= r.take(j as int).push(x));
                to_multiset_build(before, x);
                to_multiset_build(r.take(j as int), x);
                assert(views(out@).to_multiset() =~= l.take(i as int).to_multiset().add(
                    r.take(j + 1).to_multiset(),
                ));
                lex_le_reflexive(x);
                if i < left.len() {
                    lex_le_total(l[i as int], x);
                }
                assert forall|k: int| 0 <= k < out.len() && j + 1 < right.len() implies lex_le(
                    #[trigger] views(out@)[k],
                    r[j + 1],
                ) by {
                    if k < before.len() {
                        assert(views(out@)[k] == before[k]);
                    }
                    lex_le_transitive(views(out@)[k], x, r[j + 1]);
                }
                assert forall|k: int| 0 <= k < out.len() && i < left.len() implies lex_le(
                    #[trigger] views(out@)[k],
                    l[i as int],
                ) by {
                    if k < before.len() {
                        assert(views(out@)[k] == before[k]);
                    }
                }
            }
            j += 1;
        }
    }
    proof {
        assert(l.take(i as int) =~= l);
        assert(r.take(j as int) =~= r);
        lemma_multiset_commutative(l, r);
    }
    out
}

/// Sorts the strings of `strings` from `from` up to `to`.
fn sort_range(strings: &Vec<String>, from: usize, to: usize) -> (out: Vec<String>)
    requires
        from <= to <= strings.len(),
    ensures
        is_sorting_of(views(out@), views(strings@).subrange(from as int, to as int)),
    decreases to - from,
{
    let ghost all = views(strings@);
    if to - from <= 1 {
        let mut out: Vec<String> = Vec::new();
        if to - from == 1 {
            out.push(strings[from].clone());
        }
        proof {
            assert(views(out@) =~= all.subrange(from as int, to as int));
        }
        out
    } else {
        let middle: usize = from + (to - from) / 2;
        let left = sort_range(strings, from, middle);
        let right = sort_range(strings, middle, to);
        let out = merge(&left, &right);
        proof {
            let a = all.subrange(from as int, middle as int);
            let b = all.subrange(middle as int, to as int);
            assert(all.subrange(from as int, to as int) =~= a + b);
            lemma_multiset_commutative(views(left@), views(right@));
            lemma_multiset_commutative(a, b);
        }
        out
    }
}

/// Sorts `strings` lexicographically. Equal strings all stay.
pub fn sort_strings(strings: Vec<String>) -> (out: Vec<String>)
    ensures
        is_sorting_of(views(out@), views(strings@)),
{
    let out = sort_range(&strings, 0, strings.len());
    proof {
        assert(views(strings@).subrange(0, strings.len() as int) =~= views(strings@));
    }
    out
}

} // verus!
