//! What holds of fence retagging: no Python-tagged opener survives it, a
//! second pass changes nothing, and every opener of the input, Python-tagged
//! or generic, is found again as a generic opener at its shifted place.

use vstd::prelude::*;
use crate::fence::{
    generic_fence, lemma_generic_fence_chars, lemma_python_fence_chars, python_fence, retagged,
};
use crate::text::occurs_at;

verus! {

/// The number of Python-tagged fence openers in `text`.
pub open spec fn python_fence_count(text: Seq<char>) -> nat
    decreases text.len(),
{
    if text.len() == 0 {
        0
    } else if occurs_at(text, python_fence(), 0) {
        1 + python_fence_count(text.skip(1))
    } else {
        python_fence_count(text.skip(1))
    }
}

/// Where the character at index `at` of `text` stands after retagging: each
/// Python-tagged opener that ends at or before `at` is two characters longer
/// than the generic opener that replaces it.
pub open spec fn retagged_index(text: Seq<char>, at: int) -> int {
    at - 2 * python_fence_count(text.take(at))
}

/// No Python-tagged opener covers index `at` of `text` without starting there.
pub open spec fn between_fences(text: Seq<char>, at: int) -> bool {
    forall|p: int| at - 9 < p < at ==> !occurs_at(text, python_fence(), p)
}

/// From its `from`-th character on, the Python-tagged opener stands in `text`
/// at `at`.
spec fn tail_at(text: Seq<char>, at: int, from: int) -> bool
    decreases 9 - from,
{
    if from >= 9 {
        true
    } else {
        &&& 0 <= at < text.len()
        &&& text[at] == python_fence()[from]
        &&& tail_at(text, at + 1, from + 1)
    }
}

proof fn lemma_tail_after_skip(text: Seq<char>, by: int, at: int, from: int)
    requires
        0 <= by <= text.len(),
        0 <= at,
    ensures
        tail_at(text, at + by, from) <==> tail_at(text.skip(by), at, from),
    decreases 9 - from,
{
    if from < 9 {
        lemma_tail_after_skip(text, by, at + 1, from + 1);
    }
}

proof fn lemma_whole_tail(text: Seq<char>)
    ensures
        tail_at(text, 0, 0) <==> occurs_at(text, python_fence(), 0),
{
    reveal_with_fuel(tail_at, 10);
    lemma_python_fence_chars(text, 0);
}

proof fn lemma_occurs_after_skip(text: Seq<char>, pattern: Seq<char>, by: int, at: int)
    requires
        0 <= by <= text.len(),
        0 <= at,
    ensures
        occurs_at(text, pattern, at + by) <==> occurs_at(text.skip(by), pattern, at),
{
    if at + by + pattern.len() <= text.len() {
        assert(text.subrange(at + by, at + by + pattern.len()) =~= text.skip(by).subrange(
            at,
            at + pattern.len(),
        ));
    }
}

proof fn lemma_occurs_after_prefix(
    head: Seq<char>,
    rest: Seq<char>,
    pattern: Seq<char>,
    at: int,
)
    requires
        0 <= at,
    ensures
        occurs_at(head + rest, pattern, head.len() + at) <==> occurs_at(rest, pattern, at),
{
    assert((head + rest).skip(head.len() as int) =~= rest);
    lemma_occurs_after_skip(head + rest, pattern, head.len() as int, at);
}

proof fn lemma_occurs_in_prefix(text: Seq<char>, pattern: Seq<char>, upto: int, at: int)
    requires
        0 <= upto <= text.len(),
    ensures
        occurs_at(text.take(upto), pattern, at) <==> occurs_at(text, pattern, at) && at
            + pattern.len() <= upto,
{
    if 0 <= at && at + pattern.len() <= upto {
        assert(text.take(upto).subrange(at, at + pattern.len()) =~= text.subrange(
            at,
            at + pattern.len(),
        ));
    }
}

/// Two Python-tagged openers never overlap.
proof fn lemma_python_fences_apart(text: Seq<char>, first: int, second: int)
    requires
        occurs_at(text, python_fence(), first),
        first < second < first + 9,
    ensures
        !occurs_at(text, python_fence(), second),
        !occurs_at(text, generic_fence(), second),
{
    lemma_python_fence_chars(text, first);
    lemma_python_fence_chars(text, second);
    lemma_generic_fence_chars(text, second);
}

/// No Python-tagged opener starts inside a generic one or on it.
proof fn lemma_generic_fence_clear(text: Seq<char>, first: int, second: int)
    requires
        occurs_at(text, generic_fence(), first),
        first <= second < first + 7,
    ensures
        !occurs_at(text, python_fence(), second),
{
    lemma_generic_fence_chars(text, first);
    lemma_python_fence_chars(text, second);
}

/// An opener of either kind starts between fences.
proof fn lemma_opener_between_fences(text: Seq<char>, at: int)
    requires
        occurs_at(text, python_fence(), at) || occurs_at(text, generic_fence(), at),
    ensures
        between_fences(text, at),
{
    assert forall|p: int| at - 9 < p < at implies !occurs_at(text, python_fence(), p) by {
        if occurs_at(text, python_fence(), p) {
            lemma_python_fences_apart(text, p, at);
        }
    }
}

proof fn lemma_retagged_tail(text: Seq<char>, from: int)
    requires
        1 <= from <= 9,
        tail_at(retagged(text), 0, from),
    ensures
        tail_at(text, 0, from),
    decreases 9 - from,
{
    if from < 9 {
        let out = retagged(text);
        if occurs_at(text, python_fence(), 0) {
            reveal_with_fuel(tail_at, 3);
        } else {
            let rest = retagged(text.skip(1));
            assert(out.skip(1) =~= rest);
            lemma_tail_after_skip(out, 1, 0, from + 1);
            lemma_retagged_tail(text.skip(1), from + 1);
            lemma_tail_after_skip(text, 1, 0, from + 1);
        }
    }
}

/// After retagging, no Python-tagged fence opener stands anywhere.
pub proof fn lemma_retag_leaves_no_python_fence(text: Seq<char>, at: int)
    ensures
        !occurs_at(retagged(text), python_fence(), at),
    decreases text.len(),
{
    let out = retagged(text);
    if text.len() == 0 {
    } else if at < 0 {
    } else if occurs_at(text, python_fence(), 0) {
        let g = generic_fence();
        let rest = retagged(text.skip(9));
        if at >= 7 {
            lemma_retag_leaves_no_python_fence(text.skip(9), at - 7);
            lemma_occurs_after_prefix(g, rest, python_fence(), at - 7);
        } else {
            lemma_python_fence_chars(out, at);
        }
    } else {
        let head = seq![text[0]];
        let rest = retagged(text.skip(1));
        if at >= 1 {
            lemma_retag_leaves_no_python_fence(text.skip(1), at - 1);
            lemma_occurs_after_prefix(head, rest, python_fence(), at - 1);
        } else if occurs_at(out, python_fence(), 0) {
            lemma_whole_tail(out);
            reveal_with_fuel(tail_at, 2);
            assert(out.skip(1) =~= rest);
            lemma_tail_after_skip(out, 1, 0, 1);
            lemma_retagged_tail(text.skip(1), 1);
            lemma_tail_after_skip(text, 1, 0, 1);
            lemma_whole_tail(text);
        }
    }
}

/// A text without Python-tagged fence openers is left as it is.
pub proof fn lemma_retag_keeps_plain_text(text: Seq<char>)
    requires
        forall|at: int| !occurs_at(text, python_fence(), at),
    ensures
        retagged(text) == text,
    decreases text.len(),
{
    if text.len() > 0 {
        assert forall|at: int| !occurs_at(text.skip(1), python_fence(), at) by {
            if at >= 0 {
                lemma_occurs_after_skip(text, python_fence(), 1, at);
            }
        }
        lemma_retag_keeps_plain_text(text.skip(1));
    }
}

/// Retagging twice gives what retagging once gives.
pub proof fn lemma_retag_idempotent(text: Seq<char>)
    ensures
        retagged(retagged(text)) == retagged(text),
{
    assert forall|at: int| !occurs_at(retagged(text), python_fence(), at) by {
        lemma_retag_leaves_no_python_fence(text, at);
    }
    lemma_retag_keeps_plain_text(retagged(text));
}

/// Retagging can be done piece by piece on either side of an index that lies
/// between fences.
pub proof fn lemma_retag_splits(text: Seq<char>, at: int)
    requires
        0 <= at <= text.len(),
        between_fences(text, at),
    ensures
        retagged(text) == retagged(text.take(at)) + retagged(text.skip(at)),
    decreases text.len(),
{
    let left = text.take(at);
    if at == 0 {
        assert(text.skip(0) =~= text);
    } else {
        lemma_occurs_in_prefix(text, python_fence(), at, 0);
        if occurs_at(text, python_fence(), 0) {
            assert forall|p: int| at - 9 - 9 < p < at - 9 implies !occurs_at(
                text.skip(9),
                python_fence(),
                p,
            ) by {
                if p >= 0 {
                    lemma_occurs_after_skip(text, python_fence(), 9, p);
                }
            }
            lemma_retag_splits(text.skip(9), at - 9);
            assert(left.skip(9) =~= text.skip(9).take(at - 9));
            assert(text.skip(9).skip(at - 9) =~= text.skip(at));
        } else {
            assert forall|p: int| at - 1 - 9 < p < at - 1 implies !occurs_at(
                text.skip(1),
                python_fence(),
                p,
            ) by {
                if p >= 0 {
                    lemma_occurs_after_skip(text, python_fence(), 1, p);
                }
            }
            lemma_retag_splits(text.skip(1), at - 1);
            assert(left.skip(1) =~= text.skip(1).take(at - 1));
            assert(text.skip(1).skip(at - 1) =~= text.skip(at));
        }
    }
}

proof fn lemma_count_inside_fence(text: Seq<char>, upto: int)
    requires
        occurs_at(text, python_fence(), 0),
        1 <= upto <= 9,
    ensures
        python_fence_count(text.skip(1)) == python_fence_count(text.skip(upto)),
    decreases upto,
{
    if upto > 1 {
        lemma_count_inside_fence(text, upto - 1);
        let inner = text.skip(upto - 1);
        lemma_python_fences_apart(text, 0, upto - 1);
        lemma_occurs_after_skip(text, python_fence(), upto - 1, 0);
        assert(inner.skip(1) =~= text.skip(upto));
    }
}

/// Each Python-tagged opener shortens the text by two characters.
pub proof fn lemma_retagged_len(text: Seq<char>)
    ensures
        retagged(text).len() == text.len() - 2 * python_fence_count(text),
    decreases text.len(),
{
    if text.len() == 0 {
    } else if occurs_at(text, python_fence(), 0) {
        lemma_retagged_len(text.skip(9));
        lemma_count_inside_fence(text, 9);
    } else {
        lemma_retagged_len(text.skip(1));
    }
}

/// Every fence opener of the input, Python-tagged or generic, is a generic
/// opener of the output, at the index to which retagging moves it.
pub proof fn lemma_retag_maps_openers(text: Seq<char>, at: int)
    requires
        occurs_at(text, python_fence(), at) || occurs_at(text, generic_fence(), at),
    ensures
        occurs_at(retagged(text), generic_fence(), retagged_index(text, at)),
{
    let g = generic_fence();
    let tail = text.skip(at);
    let left = retagged(text.take(at));
    let right = retagged(tail);
    lemma_opener_between_fences(text, at);
    lemma_retag_splits(text, at);
    lemma_retagged_len(text.take(at));
    lemma_occurs_after_skip(text, python_fence(), at, 0);
    lemma_occurs_after_skip(text, g, at, 0);
    if occurs_at(tail, python_fence(), 0) {
        assert(right.subrange(0, 7) =~= g);
    } else {
        assert forall|p: int| 7 - 9 < p < 7 implies !occurs_at(tail, python_fence(), p) by {
            if p >= 0 {
                lemma_generic_fence_clear(tail, 0, p);
            }
        }
        lemma_retag_splits(tail, 7);
        assert forall|p: int| !occurs_at(g, python_fence(), p) by {}
        lemma_retag_keeps_plain_text(g);
        assert(right.subrange(0, 7) =~= g);
    }
    lemma_occurs_after_prefix(left, right, g, 0);
}

} // verus!
