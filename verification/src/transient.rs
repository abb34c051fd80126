//! Names for the transient Markdown file. Each run of the command has a
//! token of its own, and the name is made from it so that two runs never
//! share a file.

use vstd::prelude::*;

verus! {

/// What every transient file name starts with.
pub const TRANSIENT_STEM: &'static str = "_temp_";

/// What every transient file name ends with.
pub const TRANSIENT_EXTENSION: &'static str = ".md";

/// The sixteen hexadecimal digits, by value.
pub open spec fn hex_digits() -> Seq<char> {
    seq!['0', '1', '2', '3', '4', '5', '6', '7', '8', '9', 'a', 'b', 'c', 'd', 'e', 'f']
}

/// The last `width` hexadecimal digits of `value`, most significant first.
pub open spec fn hex_of(value: nat, width: nat) -> Seq<char>
    decreases width,
{
    if width == 0 {
        Seq::empty()
    } else {
        hex_of(value / 16, (width - 1) as nat).push(hex_digits()[(value % 16) as int])
    }
}

/// The transient file name for the run with the given token: the stem, the
/// token in sixteen hexadecimal digits, and the extension.
pub open spec fn transient_name_of(token: u64) -> Seq<char> {
    TRANSIENT_STEM@ + hex_of(token as nat, 16) + TRANSIENT_EXTENSION@
}

/// `value` is written in full by `width` hexadecimal digits.
pub open spec fn fits_hex(value: nat, width: nat) -> bool
    decreases width,
{
    if width == 0 {
        value == 0
    } else {
        fits_hex(value / 16, (width - 1) as nat)
    }
}

fn hex_digit(nibble: u8) -> (digit: char)
    requires
        nibble < 16,
    ensures
        digit == hex_digits()[nibble as int],
{
    match nibble {
        0 => '0',
        1 => '1',
        2 => '2',
        3 => '3',
        4 => '4',
        5 => '5',
        6 => '6',
        7 => '7',
        8 => '8',
        9 => '9',
        10 => 'a',
        11 => 'b',
        12 => 'c',
        13 => 'd',
        14 => 'e',
        _ => 'f',
    }
}

fn push_hex(out: &mut String, value: u64, width: u8)
    ensures
        final(out)@ == old(out)@ + hex_of(value as nat, width as nat),
    decreases width,
{
    if width > 0 {
        push_hex(out, value / 16, width - 1);
        out.push(hex_digit((value % 16) as u8));
    }
}

/// The transient file name for the run with the given token.
pub fn transient_name(token: u64) -> (name: String)
    ensures
        name@ == transient_name_of(token),
{
    let mut name = String::from_str(TRANSIENT_STEM);
    push_hex(&mut name, token, 16);
    name.append(TRANSIENT_EXTENSION);
    name
}

/// `hex_of` gives as many digits as it is asked for.
pub proof fn lemma_hex_len(value: nat, width: nat)
    ensures
        hex_of(value, width).len() == width,
    decreases width,
{
    if width > 0 {
        lemma_hex_len(value / 16, (width - 1) as nat);
    }
}

/// Two values that their digits write in full are the same when their
/// digits are.
pub proof fn lemma_hex_determines_value(first: nat, second: nat, width: nat)
    requires
        fits_hex(first, width),
        fits_hex(second, width),
        hex_of(first, width) == hex_of(second, width),
    ensures
        first == second,
    decreases width,
{
    if width > 0 {
        let lower = (width - 1) as nat;
        let a = hex_of(first / 16, lower);
        let b = hex_of(second / 16, lower);
        let da = hex_digits()[(first % 16) as int];
        let db = hex_digits()[(second % 16) as int];
        lemma_hex_len(first / 16, lower);
        lemma_hex_len(second / 16, lower);
        assert(b.push(db)[lower as int] == db);
        assert(a.push(da).drop_last() =~= a);
        assert(b.push(db).drop_last() =~= b);
        lemma_hex_determines_value(first / 16, second / 16, lower);
    }
}

/// Every token is written in full by sixteen hexadecimal digits.
pub proof fn lemma_token_fits(token: u64)
    ensures
        fits_hex(token as nat, 16),
{
    reveal_with_fuel(fits_hex, 17);
}

/// Runs with different tokens have different transient files.
pub proof fn lemma_transient_names_differ(first: u64, second: u64)
    requires
        first != second,
    ensures
        transient_name_of(first) != transient_name_of(second),
{
    let start = TRANSIENT_STEM@.len() as int;
    let a = hex_of(first as nat, 16);
    let b = hex_of(second as nat, 16);
    lemma_hex_len(first as nat, 16);
    lemma_hex_len(second as nat, 16);
    if transient_name_of(first) == transient_name_of(second) {
        assert(transient_name_of(first).subrange(start, start + 16) =~= a);
        assert(transient_name_of(second).subrange(start, start + 16) =~= b);
        lemma_token_fits(first);
        lemma_token_fits(second);
        lemma_hex_determines_value(first as nat, second as nat, 16);
    }
}

} // verus!
