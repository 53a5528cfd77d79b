//! Text as the reducer writes it: the order of strings, decimal numbers and
//! the pieces of JSON that a value is made of.

use vstd::prelude::*;
use crate::encoding::hex_digits;

verus! {

/// `a` comes strictly before `b` in lexicographic order of code points.
pub open spec fn lex_less(a: Seq<char>, b: Seq<char>) -> bool
    decreases a.len(),
{
    if b.len() == 0 {
        false
    } else if a.len() == 0 {
        true
    } else if a[0] != b[0] {
        (a[0] as int) < (b[0] as int)
    } else {
        lex_less(a.drop_first(), b.drop_first())
    }
}

/// The decimal digit of a value below ten.
pub open spec fn decimal_digit(d: nat) -> char {
    seq!['0', '1', '2', '3', '4', '5', '6', '7', '8', '9'][d as int]
}

/// Decimal text of `n`, without sign or leading zeros.
pub open spec fn decimal_string(n: nat) -> Seq<char>
    decreases n,
{
    if n < 10 {
        seq![decimal_digit(n)]
    } else {
        decimal_string(n / 10).push(decimal_digit(n % 10))
    }
}

/// What stands for a character inside a JSON string: an escape for the
/// quote, the backslash and the control characters, else the character.
pub open spec fn json_escaped(c: char) -> Seq<char> {
    let n = c as int;
    if n == 0x22 {
        seq!['\\', '"']
    } else if n == 0x5c {
        seq!['\\', '\\']
    } else if n == 0x08 {
        seq!['\\', 'b']
    } else if n == 0x09 {
        seq!['\\', 't']
    } else if n == 0x0a {
        seq!['\\', 'n']
    } else if n == 0x0c {
        seq!['\\', 'f']
    } else if n == 0x0d {
        seq!['\\', 'r']
    } else if n < 0x20 {
        seq!['\\', 'u', '0', '0', hex_digits()[n / 16], hex_digits()[n % 16]]
    } else {
        seq![c]
    }
}

/// The characters of `s`, each as it stands inside a JSON string.
pub open spec fn json_escaped_text(s: Seq<char>) -> Seq<char>
    decreases s.len(),
{
    if s.len() == 0 {
        Seq::empty()
    } else {
        json_escaped_text(s.drop_last()) + json_escaped(s.last())
    }
}

/// The JSON string for `s`: its escaped characters between quotes.
pub open spec fn json_string(s: Seq<char>) -> Seq<char> {
    seq!['"'] + json_escaped_text(s) + seq!['"']
}

/// Whether `serde_json` reads the whole of `text` as one JSON number.
pub uninterp spec fn json_number_accepted(text: Seq<char>) -> bool;

/// Compares two strings with `<` of `str`. Trusted: strings are ordered
/// lexicographically by their bytes, which for UTF-8 is the order of their
/// code points.
#[verifier::external_body]
pub(crate) fn text_less(a: &str, b: &str) -> (less: bool)
    ensures
        less == lex_less(a@, b@),
{
    a < b
}

/// Calls `u64::to_string`. Trusted: the text is the number in decimal.
#[verifier::external_body]
pub(crate) fn decimal_text(n: u64) -> (text: String)
    ensures
        text@ == decimal_string(n as nat),
{
    n.to_string()
}

/// Renders a `serde_json::Value::String`. Trusted: the text is `s` between
/// quotes, with a two-character escape for the quote, the backslash,
/// backspace, tab, line feed, form feed and carriage return, `\u00` and two
/// lower-case hexadecimal digits for every other character below the space,
/// and every other character as it is.
#[verifier::external_body]
pub(crate) fn json_string_text(s: &str) -> (text: String)
    ensures
        text@ == json_string(s@),
{
    serde_json::Value::String(s.to_owned()).to_string()
}

/// Parses `text` as a `serde_json::Number`. Trusted: whether that succeeds
/// depends on the characters of `text` alone.
#[verifier::external_body]
pub(crate) fn is_json_number(text: &str) -> (accepted: bool)
    ensures
        accepted == json_number_accepted(text@),
{
    text.parse::<serde_json::Number>().is_ok()
}

/// Decimal digits need no escape: a number as a JSON string is its decimal
/// text between quotes.
pub proof fn lemma_decimal_is_plain(n: nat)
    ensures
        json_escaped_text(decimal_string(n)) == decimal_string(n),
        json_string(decimal_string(n)) == seq!['"'] + decimal_string(n) + seq!['"'],
    decreases n,
{
    let text = decimal_string(n);
    if n < 10 {
        assert(text.drop_last() =~= Seq::<char>::empty());
        assert(json_escaped_text(text.drop_last()) =~= Seq::<char>::empty());
        assert(json_escaped(text.last()) == seq![text.last()]);
        assert(json_escaped_text(text) =~= text);
    } else {
        lemma_decimal_is_plain(n / 10);
        assert(text.drop_last() =~= decimal_string(n / 10));
        assert(text.last() == decimal_digit(n % 10));
        assert(json_escaped(text.last()) == seq![text.last()]);
        assert(json_escaped_text(text) =~= text);
    }
}

/// Of two strings at most one comes before the other.
pub proof fn lemma_lex_less_asymmetric(a: Seq<char>, b: Seq<char>)
    ensures
        !(lex_less(a, b) && lex_less(b, a)),
    decreases a.len(),
{
    if a.len() > 0 && b.len() > 0 && a[0] == b[0] {
        lemma_lex_less_asymmetric(a.drop_first(), b.drop_first());
    }
}

/// Of two different strings one comes before the other.
pub proof fn lemma_lex_less_total(a: Seq<char>, b: Seq<char>)
    requires
        a != b,
    ensures
        lex_less(a, b) || lex_less(b, a),
    decreases a.len(),
{
    if a.len() > 0 && b.len() > 0 && a[0] == b[0] {
        let ta = a.drop_first();
        let tb = b.drop_first();
        if ta == tb {
            assert(a =~= seq![a[0]] + ta);
            assert(b =~= seq![b[0]] + tb);
        }
        lemma_lex_less_total(ta, tb);
    } else if a.len() == 0 && b.len() == 0 {
        assert(a =~= b);
    }
}

} // verus!
