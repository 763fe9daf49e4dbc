//! Text primitives: case folding, substring search and replacement, which
//! the standard library does, and the decimal form of numbers.

use vstd::prelude::*;
use vstd::string::StringExecFns;

verus! {

/// The lowercase form of a text, as `str::to_lowercase` computes it.
pub uninterp spec fn lowercase_of(text: Seq<char>) -> Seq<char>;

/// `needle` stands in `hay` from position `at` on.
pub open spec fn occurs_at(needle: Seq<char>, hay: Seq<char>, at: int) -> bool {
    &&& 0 <= at
    &&& at + needle.len() <= hay.len()
    &&& hay.subrange(at, at + needle.len()) == needle
}

/// `needle` stands somewhere in `hay`. The empty text stands in every text.
pub open spec fn is_substring(needle: Seq<char>, hay: Seq<char>) -> bool {
    exists|at: int| occurs_at(needle, hay, at)
}

/// `text` with every occurrence of the character `from` replaced by `to`.
pub open spec fn replaced(text: Seq<char>, from: char, to: Seq<char>) -> Seq<char>
    decreases text.len(),
{
    if text.len() == 0 {
        seq![]
    } else if text.last() == from {
        replaced(text.drop_last(), from, to) + to
    } else {
        replaced(text.drop_last(), from, to).push(text.last())
    }
}

/// A list of texts as plain data.
pub open spec fn texts(list: Seq<String>) -> Seq<Seq<char>> {
    list.map_values(|t: String| t@)
}

/// Calls `str::replace` with a character as the pattern. Trusted: the
/// result is `text` with each occurrence of `from` replaced by `to`, and
/// every other character kept in its place.
#[verifier::external_body]
pub(crate) fn replace_char(text: &str, from: char, to: &str) -> (result: String)
    ensures
        result@ == replaced(text@, from, to@),
{
    text.replace(from, to)
}

/// Calls `str::to_lowercase`. Trusted: the result is the lowercase form of
/// `text`, which depends on the characters of `text` and on nothing else.
#[verifier::external_body]
pub(crate) fn to_lowercase(text: &str) -> (lowered: String)
    ensures
        lowered@ == lowercase_of(text@),
{
    text.to_lowercase()
}

/// Calls `str::contains` with a string pattern. Trusted: the result says
/// whether `needle` matches a sub-slice of `hay`.
#[verifier::external_body]
pub(crate) fn contains(hay: &str, needle: &str) -> (found: bool)
    ensures
        found == is_substring(needle@, hay@),
{
    hay.contains(needle)
}

/// The empty text occurs in every text.
pub proof fn lemma_empty_is_substring(hay: Seq<char>)
    ensures
        is_substring(Seq::<char>::empty(), hay),
{
    assert(hay.subrange(0, 0) =~= Seq::<char>::empty());
    assert(occurs_at(Seq::<char>::empty(), hay, 0));
}

/// The character of a decimal digit.
pub open spec fn digit_char(digit: nat) -> char {
    if digit == 0 {
        '0'
    } else if digit == 1 {
        '1'
    } else if digit == 2 {
        '2'
    } else if digit == 3 {
        '3'
    } else if digit == 4 {
        '4'
    } else if digit == 5 {
        '5'
    } else if digit == 6 {
        '6'
    } else if digit == 7 {
        '7'
    } else if digit == 8 {
        '8'
    } else {
        '9'
    }
}

/// A natural number in decimal, without leading zeros.
pub open spec fn decimal(n: nat) -> Seq<char>
    decreases n,
{
    if n < 10 {
        seq![digit_char(n)]
    } else {
        decimal(n / 10).push(digit_char(n % 10))
    }
}

/// An integer in decimal, with a minus sign where it is negative.
pub open spec fn signed_decimal(i: int) -> Seq<char> {
    if i < 0 {
        seq!['-'] + decimal((-i) as nat)
    } else {
        decimal(i as nat)
    }
}

fn digit_str(digit: u64) -> (text: &'static str)
    requires
        digit < 10,
    ensures
        text@ == seq![digit_char(digit as nat)],
{
    proof {
        reveal_strlit("0");
        reveal_strlit("1");
        reveal_strlit("2");
        reveal_strlit("3");
        reveal_strlit("4");
        reveal_strlit("5");
        reveal_strlit("6");
        reveal_strlit("7");
        reveal_strlit("8");
        reveal_strlit("9");
    }
    let text = if digit == 0 {
        "0"
    } else if digit == 1 {
        "1"
    } else if digit == 2 {
        "2"
    } else if digit == 3 {
        "3"
    } else if digit == 4 {
        "4"
    } else if digit == 5 {
        "5"
    } else if digit == 6 {
        "6"
    } else if digit == 7 {
        "7"
    } else if digit == 8 {
        "8"
    } else {
        "9"
    };
    assert(text@ =~= seq![digit_char(digit as nat)]);
    text
}

/// Appends `n` in decimal to `out`.
pub fn push_decimal(out: &mut String, n: u64)
    ensures
        final(out)@ == old(out)@ + decimal(n as nat),
    decreases n,
{
    if n >= 10 {
        push_decimal(out, n / 10);
    }
    let digit = digit_str(n % 10);
    out.append(digit);
    assert(final(out)@ =~= old(out)@ + decimal(n as nat)) by {
        if n >= 10 {
            assert(old(out)@ + decimal((n / 10) as nat) + seq![digit_char((n % 10) as nat)]
                =~= old(out)@ + decimal((n / 10) as nat).push(digit_char((n % 10) as nat)));
        }
    }
}

/// Appends `i` in decimal to `out`, with its sign.
pub fn push_signed_decimal(out: &mut String, i: i32)
    ensures
        final(out)@ == old(out)@ + signed_decimal(i as int),
{
    if i < 0 {
        proof {
            reveal_strlit("-");
        }
        out.append("-");
        let magnitude: u64 = (-(i as i64)) as u64;
        push_decimal(out, magnitude);
        assert(final(out)@ =~= old(out)@ + signed_decimal(i as int)) by {
            assert("-"@ =~= seq!['-']);
        }
    } else {
        push_decimal(out, i as u64);
    }
}

/// An optional exit code as Rust's debug format writes it: `Some(3)`, `None`.
pub open spec fn optional_code_text(code: Option<i32>) -> Seq<char> {
    match code {
        Some(c) => "Some("@ + signed_decimal(c as int) + ")"@,
        None => "None"@,
    }
}

/// Appends an optional exit code to `out`, in debug format.
pub fn push_optional_code(out: &mut String, code: Option<i32>)
    ensures
        final(out)@ == old(out)@ + optional_code_text(code),
{
    match code {
        Some(c) => {
            out.append("Some(");
            push_signed_decimal(out, c);
            out.append(")");
            assert(final(out)@ =~= old(out)@ + optional_code_text(code));
        },
        None => {
            out.append("None");
        },
    }
}

} // verus!
