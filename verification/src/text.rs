//! Text helpers shared by both roles: decimal rendering, the search for a
//! NUL character, and the two calls into the standard library whose results
//! are only named here.

use vstd::prelude::*;
use vstd::string::*;
use vstd::std_specs::iter::IteratorSpec;

verus! {

/// The character of a decimal digit; `'0'` for anything outside `0..=9`.
pub open spec fn digit_char(d: int) -> char {
    if d == 1 {
        '1'
    } else if d == 2 {
        '2'
    } else if d == 3 {
        '3'
    } else if d == 4 {
        '4'
    } else if d == 5 {
        '5'
    } else if d == 6 {
        '6'
    } else if d == 7 {
        '7'
    } else if d == 8 {
        '8'
    } else if d == 9 {
        '9'
    } else {
        '0'
    }
}

/// The decimal digits of a natural number, most significant first, without
/// leading zeros (zero itself is the single digit `0`).
pub open spec fn decimal_digits(n: nat) -> Seq<char>
    decreases n,
{
    if n < 10 {
        seq![digit_char(n as int)]
    } else {
        decimal_digits(n / 10).push(digit_char((n % 10) as int))
    }
}

/// The decimal rendering of an integer: a minus sign for a negative number,
/// then the digits of its magnitude.
pub open spec fn decimal(n: int) -> Seq<char> {
    if n < 0 {
        seq!['-'] + decimal_digits((-n) as nat)
    } else {
        decimal_digits(n as nat)
    }
}

/// The one-character text of a decimal digit.
fn digit_text(d: u128) -> (text: &'static str)
    requires
        d < 10,
    ensures
        text@ == seq![digit_char(d as int)],
{
    proof {
        reveal_strlit("0");
        reveal_strlit("1");
        reveal_strlit("2");
        reveal_strlit("3");
        reveal_strlit("4");
        reveal_strlit("5");
        reveal_strlit("6");
        reveal_strlit("7");
        reveal_strlit("8");
        reveal_strlit("9");
    }
    let text = if d == 0 {
        "0"
    } else if d == 1 {
        "1"
    } else if d == 2 {
        "2"
    } else if d == 3 {
        "3"
    } else if d == 4 {
        "4"
    } else if d == 5 {
        "5"
    } else if d == 6 {
        "6"
    } else if d == 7 {
        "7"
    } else if d == 8 {
        "8"
    } else {
        "9"
    };
    assert(text@ =~= seq![digit_char(d as int)]);
    text
}

/// Renders a natural number in decimal.
fn render_digits(n: u128) -> (text: String)
    ensures
        text@ == decimal_digits(n as nat),
{
    let mut text = String::from_str(digit_text(n % 10));
    let mut rest: u128 = n / 10;
    assert(n < 10 ==> text@ =~= decimal_digits(n as nat));
    while rest > 0
        invariant
            rest == 0 ==> text@ == decimal_digits(n as nat),
            rest > 0 ==> decimal_digits(n as nat) == decimal_digits(rest as nat) + text@,
        decreases rest,
    {
        let ghost before = text@;
        let head = String::from_str(digit_text(rest % 10));
        text = head.concat(text.as_str());
        proof {
            let d = seq![digit_char((rest % 10) as int)];
            assert(text@ == d + before);
            if rest < 10 {
                assert(decimal_digits(rest as nat) == d);
            } else {
                assert(decimal_digits(rest as nat) == decimal_digits((rest / 10) as nat).push(
                    digit_char((rest % 10) as int),
                ));
                assert(decimal_digits((rest / 10) as nat).push(digit_char((rest % 10) as int))
                    + before =~= decimal_digits((rest / 10) as nat) + (d + before));
            }
        }
        rest = rest / 10;
    }
    text
}

/// Renders an integer in decimal, as the standard formatter prints it.
pub fn render_decimal(n: i128) -> (text: String)
    ensures
        text@ == decimal(n as int),
{
    if n < 0 {
        let magnitude: u128 = if n == i128::MIN {
            170141183460469231731687303715884105728u128
        } else {
            (-n) as u128
        };
        let digits = render_digits(magnitude);
        let text = String::from_str("-").concat(digits.as_str());
        proof {
            reveal_strlit("-");
            assert("-"@ =~= seq!['-']);
        }
        text
    } else {
        render_digits(n as u128)
    }
}

/// Whether `part` stands somewhere in `whole`, character for character.
pub open spec fn occurs_in(part: Seq<char>, whole: Seq<char>) -> bool {
    exists|at: int|
        0 <= at && at + part.len() <= whole.len() && #[trigger] whole.subrange(
            at,
            at + part.len(),
        ) == part
}

/// A text occurs in whatever is built around it.
pub proof fn lemma_occurs_between(before: Seq<char>, part: Seq<char>, after: Seq<char>)
    ensures
        occurs_in(part, before + part + after),
{
    let whole = before + part + after;
    let at = before.len() as int;
    assert(whole.subrange(at, at + part.len()) =~= part);
}

/// Whether a text holds the NUL character, which no C string can carry.
pub open spec fn has_nul(text: Seq<char>) -> bool {
    text.contains('\0')
}

/// Searches a text for the NUL character.
pub fn contains_nul(text: &str) -> (found: bool)
    ensures
        found == has_nul(text@),
{
    let mut found = false;
    for c in it: text.chars()
        invariant
            it.seq() == text@,
            found == text@.take(it.index() as int).contains('\0'),
    {
        proof {
            let i = it.index() as int;
            let seen = text@.take(i);
            let next = text@.take(i + 1);
            assert(next =~= seen.push(text@[i]));
            if seen.contains('\0') {
                let k = choose|k: int| 0 <= k < seen.len() && seen[k] == '\0';
                assert(next[k] == '\0');
            }
            if next.contains('\0') && text@[i] != '\0' {
                let k = choose|k: int| 0 <= k < next.len() && next[k] == '\0';
                assert(seen[k] == '\0');
            }
            if text@[i] == '\0' {
                assert(next[i] == '\0');
            }
        }
        if c == '\0' {
            found = true;
        }
    }
    assert(text@.take(text@.len() as int) =~= text@);
    found
}

/// What the standard formatter writes for a text under `{:?}`: the text in
/// double quotes, with the characters that cannot stand there escaped.
pub uninterp spec fn debug_quoted(text: Seq<char>) -> Seq<char>;

/// Calls `format!` with `{:?}` on a string slice. The escaping rules fill
/// pages of the standard library, so the contract only names the result:
/// it is the same for the same characters.
#[verifier::external_body]
pub(crate) fn debug_quote(text: &str) -> (quoted: String)
    ensures
        quoted@ == debug_quoted(text@),
{
    format!("{:?}", text)
}

/// What `str::trim` leaves of a text: the text without its leading and
/// trailing whitespace, in Unicode's sense of the word.
pub uninterp spec fn trimmed(text: Seq<char>) -> Seq<char>;

/// Calls `str::trim`. Which characters count as whitespace is a table of
/// Unicode, so the contract only names the result: it is the same for the
/// same characters.
#[verifier::external_body]
pub(crate) fn trim_whitespace(text: &str) -> (rest: &str)
    ensures
        rest@ == trimmed(text@),
{
    text.trim()
}

} // verus!
