//! Small text helpers: prioritized fallback between optional texts, and
//! decimal rendering of identifiers.

use vstd::prelude::*;
use vstd::string::*;

verus! {

/// The first text that is present in `candidates`, in order, or `fallback`
/// when none is.
pub open spec fn first_present(candidates: Seq<Option<&str>>, fallback: Seq<char>) -> Seq<char>
    decreases candidates.len(),
{
    if candidates.len() == 0 {
        fallback
    } else {
        match candidates[0] {
            Some(text) => text@,
            None => first_present(candidates.drop_first(), fallback),
        }
    }
}

/// When no candidate is present, the fallback is what is left.
pub proof fn law_first_present_falls_back(candidates: Seq<Option<&str>>, fallback: Seq<char>)
    requires
        forall|j: int| 0 <= j < candidates.len() ==> candidates[j] is None,
    ensures
        first_present(candidates, fallback) == fallback,
    decreases candidates.len(),
{
    if candidates.len() > 0 {
        law_first_present_falls_back(candidates.drop_first(), fallback);
    }
}

/// A candidate that is present wins when every candidate before it is
/// absent, whatever comes after it.
pub proof fn law_first_present_is_the_earliest(
    candidates: Seq<Option<&str>>,
    fallback: Seq<char>,
    k: int,
)
    requires
        0 <= k < candidates.len(),
        candidates[k] is Some,
        forall|j: int| 0 <= j < k ==> candidates[j] is None,
    ensures
        first_present(candidates, fallback) == candidates[k]->0@,
    decreases k,
{
    if k > 0 {
        law_first_present_is_the_earliest(candidates.drop_first(), fallback, k - 1);
    }
}

/// The characters of an optional borrowed text.
pub open spec fn text_view(text: Option<&str>) -> Option<Seq<char>> {
    match text {
        Some(t) => Some(t@),
        None => None,
    }
}

/// The characters of an optional string.
pub open spec fn text_of(text: Option<String>) -> Option<Seq<char>> {
    match text {
        Some(t) => Some(t@),
        None => None,
    }
}

/// Borrows the text inside an optional string.
pub fn as_text(value: &Option<String>) -> (text: Option<&str>)
    ensures
        text_view(text) == text_of(*value),
{
    match value {
        Some(s) => Some(s.as_str()),
        None => None,
    }
}

/// Returns the first candidate that is present, trying them in order, and
/// `fallback` when every candidate is absent.
pub fn first_resolved(candidates: &Vec<Option<&str>>, fallback: &str) -> (resolved: String)
    ensures
        resolved@ == first_present(candidates@, fallback@),
{
    let mut i: usize = 0;
    assert(candidates@.subrange(0, candidates@.len() as int) =~= candidates@);
    while i < candidates.len()
        invariant
            i <= candidates.len(),
            first_present(candidates@, fallback@) == first_present(
                candidates@.subrange(i as int, candidates@.len() as int),
                fallback@,
            ),
        decreases candidates.len() - i,
    {
        let ghost rest = candidates@.subrange(i as int, candidates@.len() as int);
        assert(rest[0] == candidates@[i as int]);
        assert(rest.drop_first() == candidates@.subrange(i + 1, candidates@.len() as int));
        match candidates[i] {
            Some(text) => {
                return String::from_str(text);
            },
            None => {},
        }
        i += 1;
    }
    String::from_str(fallback)
}

/// The character that stands for the digit `d`.
pub open spec fn digit_char(d: nat) -> char
    recommends
        d < 10,
{
    if d == 0 {
        '0'
    } else if d == 1 {
        '1'
    } else if d == 2 {
        '2'
    } else if d == 3 {
        '3'
    } else if d == 4 {
        '4'
    } else if d == 5 {
        '5'
    } else if d == 6 {
        '6'
    } else if d == 7 {
        '7'
    } else if d == 8 {
        '8'
    } else {
        '9'
    }
}

/// The decimal numeral of `n`: most significant digit first, no leading
/// zero, and `"0"` for zero.
pub open spec fn decimal(n: nat) -> Seq<char>
    decreases n,
{
    if n < 10 {
        seq![digit_char(n)]
    } else {
        decimal(n / 10).push(digit_char(n % 10))
    }
}

/// The digit that a character stands for; zero for any other character.
pub open spec fn digit_value(c: char) -> nat {
    if c == '1' {
        1
    } else if c == '2' {
        2
    } else if c == '3' {
        3
    } else if c == '4' {
        4
    } else if c == '5' {
        5
    } else if c == '6' {
        6
    } else if c == '7' {
        7
    } else if c == '8' {
        8
    } else if c == '9' {
        9
    } else {
        0
    }
}

/// The number that a numeral denotes, read most significant digit first.
pub open spec fn numeral_value(digits: Seq<char>) -> nat
    decreases digits.len(),
{
    if digits.len() == 0 {
        0
    } else {
        numeral_value(digits.drop_last()) * 10 + digit_value(digits.last())
    }
}

/// The decimal numeral of a number denotes that number, is never empty, and
/// starts with a zero only for zero itself.
pub proof fn law_decimal_reads_back(n: nat)
    ensures
        numeral_value(decimal(n)) == n,
        decimal(n).len() >= 1,
        n > 0 ==> decimal(n)[0] != '0',
    decreases n,
{
    if n < 10 {
        assert(decimal(n).drop_last().len() == 0);
        reveal_with_fuel(numeral_value, 2);
    } else {
        law_decimal_reads_back(n / 10);
        assert(decimal(n).drop_last() == decimal(n / 10));
    }
}

/// The one-character text of a single digit.
fn digit_text(d: u64) -> (text: &'static str)
    requires
        d < 10,
    ensures
        text@ == seq![digit_char(d as nat)],
{
    proof {
        reveal_strlit("0");
        reveal_strlit("1");
        reveal_strlit("2");
        reveal_strlit("3");
        reveal_strlit("4");
        reveal_strlit("5");
        reveal_strlit("6");
        reveal_strlit("7");
        reveal_strlit("8");
        reveal_strlit("9");
    }
    let text = match d {
        0 => "0",
        1 => "1",
        2 => "2",
        3 => "3",
        4 => "4",
        5 => "5",
        6 => "6",
        7 => "7",
        8 => "8",
        _ => "9",
    };
    assert(text@ =~= seq![digit_char(d as nat)]);
    text
}

/// Appends the decimal numeral of `n` to `out`.
pub fn push_decimal(out: &mut String, n: u64)
    ensures
        final(out)@ == old(out)@ + decimal(n as nat),
    decreases n,
{
    if n >= 10 {
        push_decimal(out, n / 10);
    }
    out.append(digit_text(n % 10));
    assert(out@ =~= old(out)@ + decimal(n as nat));
}

} // verus!
