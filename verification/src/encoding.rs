//! Hexadecimal text: what it looks like, and the calls that produce and read it.

use vstd::prelude::*;

verus! {

/// The sixteen lower-case hexadecimal digits, by value.
pub open spec fn hex_digits() -> Seq<char> {
    seq!['0', '1', '2', '3', '4', '5', '6', '7', '8', '9', 'a', 'b', 'c', 'd', 'e', 'f']
}

/// Lower-case hexadecimal text of `bytes`: two digits per byte, high nibble first.
pub open spec fn hex_string(bytes: Seq<u8>) -> Seq<char> {
    Seq::new(
        2 * bytes.len(),
        |i: int|
            if i % 2 == 0 {
                hex_digits()[(bytes[i / 2] / 16) as int]
            } else {
                hex_digits()[(bytes[i / 2] % 16) as int]
            },
    )
}

/// The value of a hexadecimal digit of either case, if `c` is one.
pub open spec fn hex_value(c: char) -> Option<int> {
    let n = c as int;
    if 0x30 <= n <= 0x39 {
        Some(n - 0x30)
    } else if 0x61 <= n <= 0x66 {
        Some(n - 0x61 + 10)
    } else if 0x41 <= n <= 0x46 {
        Some(n - 0x41 + 10)
    } else {
        None
    }
}

/// `text` has an even number of characters, each a hexadecimal digit.
pub open spec fn is_hex_text(text: Seq<char>) -> bool {
    &&& text.len() % 2 == 0
    &&& forall|i: int| 0 <= i < text.len() ==> (#[trigger] hex_value(text[i])) is Some
}

/// The bytes that hexadecimal `text` stands for.
pub open spec fn hex_bytes(text: Seq<char>) -> Seq<u8> {
    Seq::new(
        text.len() / 2,
        |i: int| (hex_value(text[2 * i]).unwrap() * 16 + hex_value(text[2 * i + 1]).unwrap()) as u8,
    )
}

/// Calls `hex::encode`. Trusted: the text is the lower-case hexadecimal
/// rendering of the bytes, two digits for each byte in order.
#[verifier::external_body]
pub(crate) fn hex_encode(bytes: &Vec<u8>) -> (text: String)
    ensures
        text@ == hex_string(bytes@),
{
    hex::encode(bytes)
}

/// Calls `hex::decode`. Trusted: decoding succeeds exactly on an even number
/// of hexadecimal digits of either case, and then yields one byte for each
/// pair of digits, the first digit being the high nibble.
#[verifier::external_body]
pub(crate) fn hex_decode(text: &str) -> (bytes: Option<Vec<u8>>)
    ensures
        bytes is Some <==> is_hex_text(text@),
        bytes is Some ==> bytes.unwrap()@ == hex_bytes(text@),
{
    hex::decode(text).ok()
}

/// Distinct values below sixteen have distinct digits.
pub proof fn lemma_hex_digit_injective(a: int, b: int)
    requires
        0 <= a < 16,
        0 <= b < 16,
        hex_digits()[a] == hex_digits()[b],
    ensures
        a == b,
{
}

/// No hexadecimal digit is a dot.
pub proof fn lemma_hex_digit_not_dot(a: int)
    requires
        0 <= a < 16,
    ensures
        hex_digits()[a] != '.',
{
}

/// The text written for bytes is hexadecimal text, and stands for them.
pub proof fn lemma_hex_round_trip(bytes: Seq<u8>)
    ensures
        is_hex_text(hex_string(bytes)),
        hex_bytes(hex_string(bytes)) == bytes,
{
    let text = hex_string(bytes);
    assert forall|n: int| 0 <= n < 16 implies hex_value(#[trigger] hex_digits()[n]) == Some(n) by {
    }
    assert forall|i: int| 0 <= i < text.len() implies (#[trigger] hex_value(text[i])) is Some by {
        let b = bytes[i / 2];
        assert((b / 16) < 16 && (b % 16) < 16);
    }
    assert forall|j: int| 0 <= j < bytes.len() implies hex_bytes(text)[j] == bytes[j] by {
        let b = bytes[j];
        assert(text[2 * j] == hex_digits()[(b / 16) as int]);
        assert(text[2 * j + 1] == hex_digits()[(b % 16) as int]);
        assert((b / 16) < 16 && (b % 16) < 16);
        assert((b / 16) * 16 + b % 16 == b);
    }
    assert(hex_bytes(text) =~= bytes);
}

/// Hexadecimal text determines the bytes it was made from.
pub proof fn lemma_hex_string_injective(a: Seq<u8>, b: Seq<u8>)
    requires
        hex_string(a) == hex_string(b),
    ensures
        a == b,
{
    assert(hex_string(a).len() == 2 * a.len());
    assert(hex_string(b).len() == 2 * b.len());
    assert(a.len() == b.len());
    assert forall|j: int| 0 <= j < a.len() implies a[j] == b[j] by {
        let hi = hex_string(a)[2 * j];
        let lo = hex_string(a)[2 * j + 1];
        assert(hi == hex_string(b)[2 * j]);
        assert(lo == hex_string(b)[2 * j + 1]);
        assert(hi == hex_digits()[(a[j] / 16) as int]);
        assert(lo == hex_digits()[(a[j] % 16) as int]);
        assert(hi == hex_digits()[(b[j] / 16) as int]);
        assert(lo == hex_digits()[(b[j] % 16) as int]);
        lemma_hex_digit_injective((a[j] / 16) as int, (b[j] / 16) as int);
        lemma_hex_digit_injective((a[j] % 16) as int, (b[j] % 16) as int);
    }
    assert(a =~= b);
}

} // verus!
