//! Rewriting of code-fence openers: every fence opener tagged for Python
//! becomes an opener with the generic tag `code`.

use vstd::prelude::*;
use crate::text::{chars_of, occurs_at};

verus! {

/// The fence opener tagged for Python: three backticks and `python`.
pub open spec fn python_fence() -> Seq<char> {
    seq!['`', '`', '`', 'p', 'y', 't', 'h', 'o', 'n']
}

/// The fence opener with the generic tag: three backticks and `code`.
pub open spec fn generic_fence() -> Seq<char> {
    seq!['`', '`', '`', 'c', 'o', 'd', 'e']
}

/// `text` with every Python-tagged fence opener replaced by the generic one,
/// reading from the left; everything else is kept in order.
pub open spec fn retagged(text: Seq<char>) -> Seq<char>
    decreases text.len(),
{
    if text.len() == 0 {
        text
    } else if occurs_at(text, python_fence(), 0) {
        generic_fence() + retagged(text.skip(9))
    } else {
        seq![text[0]] + retagged(text.skip(1))
    }
}

/// A Python-tagged opener at `at`, character by character.
pub proof fn lemma_python_fence_chars(text: Seq<char>, at: int)
    ensures
        occurs_at(text, python_fence(), at) <==> {
            &&& 0 <= at
            &&& at + 9 <= text.len()
            &&& text[at] == '`'
            &&& text[at + 1] == '`'
            &&& text[at + 2] == '`'
            &&& text[at + 3] == 'p'
            &&& text[at + 4] == 'y'
            &&& text[at + 5] == 't'
            &&& text[at + 6] == 'h'
            &&& text[at + 7] == 'o'
            &&& text[at + 8] == 'n'
        },
{
    let p = python_fence();
    if 0 <= at && at + 9 <= text.len() {
        let w = text.subrange(at, at + 9);
        if text[at] == '`' && text[at + 1] == '`' && text[at + 2] == '`' && text[at + 3] == 'p'
            && text[at + 4] == 'y' && text[at + 5] == 't' && text[at + 6] == 'h' && text[at + 7]
            == 'o' && text[at + 8] == 'n' {
            assert(w =~= p);
        }
    }
}

/// A generic opener at `at`, character by character.
pub proof fn lemma_generic_fence_chars(text: Seq<char>, at: int)
    ensures
        occurs_at(text, generic_fence(), at) <==> {
            &&& 0 <= at
            &&& at + 7 <= text.len()
            &&& text[at] == '`'
            &&& text[at + 1] == '`'
            &&& text[at + 2] == '`'
            &&& text[at + 3] == 'c'
            &&& text[at + 4] == 'o'
            &&& text[at + 5] == 'd'
            &&& text[at + 6] == 'e'
        },
{
    let p = generic_fence();
    if 0 <= at && at + 7 <= text.len() {
        let w = text.subrange(at, at + 7);
        if text[at] == '`' && text[at + 1] == '`' && text[at + 2] == '`' && text[at + 3] == 'c'
            && text[at + 4] == 'o' && text[at + 5] == 'd' && text[at + 6] == 'e' {
            assert(w =~= p);
        }
    }
}

/// Whether a Python-tagged fence opener stands in `chars` at `at`.
pub fn opens_python_fence(chars: &Vec<char>, at: usize) -> (found: bool)
    ensures
        found == occurs_at(chars@, python_fence(), at as int),
{
    proof {
        lemma_python_fence_chars(chars@, at as int);
    }
    let n = chars.len();
    if n < 9 || at > n - 9 {
        return false;
    }
    chars[at] == '`' && chars[at + 1] == '`' && chars[at + 2] == '`' && chars[at + 3] == 'p'
        && chars[at + 4] == 'y' && chars[at + 5] == 't' && chars[at + 6] == 'h' && chars[at + 7]
        == 'o' && chars[at + 8] == 'n'
}

/// Replaces every Python-tagged fence opener in `text` by the generic opener.
pub fn retag_fences(text: &str) -> (out: String)
    ensures
        out@ == retagged(text@),
{
    let chars = chars_of(text);
    let n = chars.len();
    let mut out = String::new();
    let mut i: usize = 0;
    proof {
        assert(chars@.skip(0) =~= chars@);
    }
    while i < n
        invariant
            i <= n,
            n == chars@.len(),
            chars@ == text@,
            out@ + retagged(chars@.skip(i as int)) == retagged(chars@),
        decreases n - i,
    {
        let ghost rest = chars@.skip(i as int);
        let found = opens_python_fence(&chars, i);
        proof {
            assert(occurs_at(chars@, python_fence(), i as int) == occurs_at(
                rest,
                python_fence(),
                0,
            )) by {
                lemma_python_fence_chars(chars@, i as int);
                lemma_python_fence_chars(rest, 0);
            }
        }
        if found {
            proof {
                reveal_strlit("```code");
                assert(rest.skip(9) =~= chars@.skip(i + 9));
            }
            out.append("```code");
            i += 9;
        } else {
            out.push(chars[i]);
            proof {
                assert(rest.skip(1) =~= chars@.skip(i + 1));
            }
            i += 1;
        }
    }
    out
}

} // verus!
