//! Literal placeholder substitution: finding a pattern in a byte string,
//! replacing every non-overlapping occurrence left to right, and folding
//! a list of such replacements over a template.

use vstd::prelude::*;

use crate::text::append_bytes;
use crate::text::append_range;
use crate::text::copy_bytes;

verus! {

/// The pattern occurs in `s` at position `i`.
pub open spec fn matches_at(s: Seq<u8>, pat: Seq<u8>, i: int) -> bool {
    &&& 0 <= i
    &&& i + pat.len() <= s.len()
    &&& s.subrange(i, i + pat.len()) == pat
}

/// The first position at or after `i` where the (non-empty) pattern
/// occurs in `s`, if any.
pub open spec fn find_from(s: Seq<u8>, pat: Seq<u8>, i: int) -> Option<int>
    decreases s.len() - i,
{
    if i < 0 || pat.len() == 0 || i + pat.len() > s.len() {
        None
    } else if matches_at(s, pat, i) {
        Some(i)
    } else {
        find_from(s, pat, i + 1)
    }
}

/// A found position lies at or after the start of the search and marks
/// a real occurrence.
pub proof fn lemma_find_from_ge(s: Seq<u8>, pat: Seq<u8>, i: int)
    ensures
        find_from(s, pat, i) is Some ==> {
            let j = find_from(s, pat, i)->0;
            i <= j && matches_at(s, pat, j)
        },
    decreases s.len() - i,
{
    if i < 0 || pat.len() == 0 || i + pat.len() > s.len() {
    } else if matches_at(s, pat, i) {
    } else {
        lemma_find_from_ge(s, pat, i + 1);
    }
}

/// `s` from position `i` on, with every occurrence of the pattern
/// replaced, scanning left to right without overlap.
pub open spec fn replace_from(s: Seq<u8>, pat: Seq<u8>, to: Seq<u8>, i: int) -> Seq<u8>
    decreases s.len() - i
        when 0 <= i <= s.len() && 1 <= pat.len()
        via replace_from_dec
{
    match find_from(s, pat, i) {
        None => s.subrange(i, s.len() as int),
        Some(j) => s.subrange(i, j) + to + replace_from(s, pat, to, j + pat.len()),
    }
}

#[via_fn]
proof fn replace_from_dec(s: Seq<u8>, pat: Seq<u8>, to: Seq<u8>, i: int) {
    lemma_find_from_ge(s, pat, i);
}

/// `s` with every occurrence of the pattern replaced by `to`; an empty
/// pattern replaces nothing.
pub open spec fn replace_all(s: Seq<u8>, pat: Seq<u8>, to: Seq<u8>) -> Seq<u8> {
    if pat.len() == 0 {
        s
    } else {
        replace_from(s, pat, to, 0)
    }
}

/// The pattern compared against `s` at position `i`.
fn match_at(s: &Vec<u8>, pat: &Vec<u8>, i: usize) -> (r: bool)
    requires
        i + pat@.len() <= s@.len(),
    ensures
        r == matches_at(s@, pat@, i as int),
{
    let n = s.len();
    let mut k: usize = 0;
    while k < pat.len()
        invariant
            k <= pat@.len(),
            i + pat@.len() <= s@.len(),
            n == s@.len(),
            forall|t: int| 0 <= t < k ==> s@[i + t] == pat@[t],
        decreases pat@.len() - k,
    {
        if s[i + k] != pat[k] {
            proof {
                assert(s@.subrange(i as int, i + pat@.len())[k as int] == s@[i + k]);
            }
            return false;
        }
        k += 1;
    }
    proof {
        assert(s@.subrange(i as int, i + pat@.len()) =~= pat@);
    }
    true
}

/// The first occurrence of the (non-empty) pattern at or after `from`.
pub fn find_occurrence(s: &Vec<u8>, pat: &Vec<u8>, from: usize) -> (r: Option<usize>)
    requires
        from <= s@.len(),
        1 <= pat@.len(),
    ensures
        match r {
            Some(j) => from <= j && j + pat@.len() <= s@.len() && find_from(
                s@,
                pat@,
                from as int,
            ) == Some(j as int),
            None => find_from(s@, pat@, from as int) is None,
        },
{
    let mut i: usize = from;
    loop
        invariant
            from <= i <= s@.len(),
            1 <= pat@.len(),
            find_from(s@, pat@, from as int) == find_from(s@, pat@, i as int),
        decreases s@.len() - i,
    {
        if s.len() - i < pat.len() {
            return None;
        }
        if match_at(s, pat, i) {
            return Some(i);
        }
        proof {
            assert(find_from(s@, pat@, i as int) == find_from(s@, pat@, i + 1));
        }
        i += 1;
    }
}

/// `s` with every occurrence of `pat` replaced by `to`, scanning left
/// to right without overlap, as literal text replacement does.
pub fn replace_all_bytes(s: &Vec<u8>, pat: &Vec<u8>, to: &Vec<u8>) -> (r: Vec<u8>)
    ensures
        r@ == replace_all(s@, pat@, to@),
{
    if pat.len() == 0 {
        return copy_bytes(s);
    }
    let mut out: Vec<u8> = Vec::new();
    let mut pos: usize = 0;
    let n = s.len();
    loop
        invariant
            pos <= s@.len(),
            n == s@.len(),
            1 <= pat@.len(),
            replace_all(s@, pat@, to@) == out@ + replace_from(s@, pat@, to@, pos as int),
        decreases s@.len() - pos,
    {
        match find_occurrence(s, pat, pos) {
            None => {
                let n = s.len();
                append_range(&mut out, s, pos, n);
                return out;
            },
            Some(j) => {
                let ghost out0 = out@;
                append_range(&mut out, s, pos, j);
                append_bytes(&mut out, to);
                proof {
                    assert(out@ =~= out0 + (s@.subrange(pos as int, j as int) + to@));
                    assert(replace_from(s@, pat@, to@, pos as int) == (s@.subrange(
                        pos as int,
                        j as int,
                    ) + to@) + replace_from(s@, pat@, to@, j + pat@.len()));
                    assert(out0 + ((s@.subrange(pos as int, j as int) + to@) + replace_from(
                        s@,
                        pat@,
                        to@,
                        j + pat@.len(),
                    )) =~= (out0 + (s@.subrange(pos as int, j as int) + to@)) + replace_from(
                        s@,
                        pat@,
                        to@,
                        j + pat@.len(),
                    ));
                }
                proof {
                    assert(j + pat@.len() <= s@.len());
                }
                pos = j + pat.len();
            },
        }
    }
}

/// The views of a list of pattern/replacement pairs.
pub open spec fn pair_views(ps: Seq<(Vec<u8>, Vec<u8>)>) -> Seq<(Seq<u8>, Seq<u8>)> {
    ps.map_values(|p: (Vec<u8>, Vec<u8>)| (p.0@, p.1@))
}

/// The template after each pattern/replacement pair is applied in turn,
/// each pass replacing every occurrence of its pattern.
pub open spec fn substitute(template: Seq<u8>, pairs: Seq<(Seq<u8>, Seq<u8>)>) -> Seq<u8>
    decreases pairs.len(),
{
    if pairs.len() == 0 {
        template
    } else {
        substitute(replace_all(template, pairs[0].0, pairs[0].1), pairs.drop_first())
    }
}

/// Applies each pattern/replacement pair to the template in turn.
pub fn substitute_bytes(template: &Vec<u8>, pairs: &Vec<(Vec<u8>, Vec<u8>)>) -> (r: Vec<u8>)
    ensures
        r@ == substitute(template@, pair_views(pairs@)),
{
    let mut doc = copy_bytes(template);
    proof {
        assert(pair_views(pairs@).skip(0) =~= pair_views(pairs@));
    }
    let mut i: usize = 0;
    while i < pairs.len()
        invariant
            i <= pairs@.len(),
            substitute(template@, pair_views(pairs@)) == substitute(
                doc@,
                pair_views(pairs@).skip(i as int),
            ),
        decreases pairs@.len() - i,
    {
        let next = replace_all_bytes(&doc, &pairs[i].0, &pairs[i].1);
        proof {
            assert(pair_views(pairs@).skip(i as int).drop_first() =~= pair_views(pairs@).skip(
                i + 1,
            ));
            assert(pair_views(pairs@).skip(i as int)[0] == (pairs@[i as int].0@, pairs@[
                i as int].1@));
        }
        doc = next;
        i += 1;
    }
    proof {
        assert(pair_views(pairs@).skip(pairs@.len() as int) =~= Seq::<(Seq<u8>, Seq<u8>)>::empty());
    }
    doc
}

} // verus!
