//! Lower-case hexadecimal text of byte strings, and its reading back.

use crate::text::{chars_of, string_from_chars};
use vstd::prelude::*;

verus! {

/// The hex digit of a value below sixteen, in lower case.
pub open spec fn hex_digit(n: int) -> char {
    if n < 10 {
        (48 + n) as char
    } else {
        (87 + n) as char
    }
}

/// Two lower-case hex digits per byte, high nibble first (`hex::encode`).
pub open spec fn hex_lower(b: Seq<u8>) -> Seq<char> {
    Seq::new(
        2 * b.len(),
        |i: int|
            if i % 2 == 0 {
                hex_digit(b[i / 2] as int / 16)
            } else {
                hex_digit(b[i / 2] as int % 16)
            },
    )
}

/// A hex digit of either case.
pub open spec fn is_hex_char(c: char) -> bool {
    ('0' <= c <= '9') || ('a' <= c <= 'f') || ('A' <= c <= 'F')
}

/// The value of a hex digit of either case.
pub open spec fn hex_value(c: char) -> int {
    if '0' <= c <= '9' {
        c as int - 48
    } else if 'a' <= c <= 'f' {
        c as int - 87
    } else {
        c as int - 55
    }
}

/// `hex::decode`: an even number of hex digits of either case, read in pairs;
/// anything else is refused.
pub open spec fn hex_decode(s: Seq<char>) -> Option<Seq<u8>> {
    if s.len() % 2 == 0 && forall|i: int| 0 <= i < s.len() ==> is_hex_char(#[trigger] s[i]) {
        Some(
            Seq::new(
                s.len() / 2,
                |i: int| (hex_value(s[2 * i]) * 16 + hex_value(s[2 * i + 1])) as u8,
            ),
        )
    } else {
        None
    }
}

fn digit(n: u8) -> (c: char)
    requires
        n < 16,
    ensures
        c == hex_digit(n as int),
{
    if n < 10 {
        (48 + n) as char
    } else {
        (87 + n) as char
    }
}

/// Lower-case hex text of `bytes`.
pub fn hex_encode(bytes: &[u8]) -> (out: String)
    ensures
        out@ == hex_lower(bytes@),
        out@.len() == 2 * bytes@.len(),
{
    let mut chars: Vec<char> = Vec::new();
    let mut i: usize = 0;
    while i < bytes.len()
        invariant
            i <= bytes@.len(),
            chars@.len() == 2 * i,
            forall|k: int| 0 <= k < 2 * i ==> chars@[k] == #[trigger] hex_lower(bytes@)[k],
        decreases bytes.len() - i,
    {
        let b = bytes[i];
        chars.push(digit(b / 16));
        chars.push(digit(b % 16));
        proof {
            assert forall|k: int| 0 <= k < 2 * (i + 1) implies chars@[k]
                == #[trigger] hex_lower(bytes@)[k] by {
                if k >= 2 * i {
                    assert(k / 2 == i);
                }
            }
        }
        i = i + 1;
    }
    assert(chars@ =~= hex_lower(bytes@));
    string_from_chars(chars.as_slice())
}

fn value_of(c: char) -> (r: Option<u8>)
    ensures
        r is Some <==> is_hex_char(c),
        r matches Some(v) ==> v as int == hex_value(c) && v < 16,
{
    if '0' <= c && c <= '9' {
        Some((c as u32 - 48) as u8)
    } else if 'a' <= c && c <= 'f' {
        Some((c as u32 - 87) as u8)
    } else if 'A' <= c && c <= 'F' {
        Some((c as u32 - 55) as u8)
    } else {
        None
    }
}

/// Reads hex text of either case back into bytes, as `hex::decode` does.
pub fn hex_decode_text(text: &str) -> (out: Option<Vec<u8>>)
    ensures
        match hex_decode(text@) {
            Some(b) => out matches Some(v) && v@ == b,
            None => out is None,
        },
{
    let chars = chars_of(text);
    let n = chars.len();
    if n % 2 != 0 {
        return None;
    }
    let mut out: Vec<u8> = Vec::new();
    let mut i: usize = 0;
    while i < n / 2
        invariant
            n == chars@.len(),
            chars@ == text@,
            n % 2 == 0,
            i <= n / 2,
            out@.len() == i,
            forall|j: int| 0 <= j < 2 * i ==> is_hex_char(#[trigger] chars@[j]),
            forall|k: int|
                0 <= k < i ==> out@[k] == (hex_value(chars@[2 * k]) * 16 + hex_value(
                    chars@[2 * k + 1],
                )) as u8,
        decreases n / 2 - i,
    {
        let hi = value_of(chars[2 * i]);
        let lo = value_of(chars[2 * i + 1]);
        match (hi, lo) {
            (Some(h), Some(l)) => {
                out.push(h * 16 + l);
            },
            _ => {
                proof {
                    let w: int = if hi is None { 2 * i as int } else { 2 * i + 1 };
                    assert(!is_hex_char(text@[w]));
                    assert(!(forall|j: int| 0 <= j < text@.len() ==> is_hex_char(#[trigger] text@[j])));
                }
                return None;
            },
        }
        proof {
            assert forall|j: int| 0 <= j < 2 * (i + 1) implies is_hex_char(#[trigger] chars@[j]) by {
                if j >= 2 * i {
                    assert(j == 2 * i || j == 2 * i + 1);
                }
            }
        }
        i = i + 1;
    }
    assert(out@ =~= Seq::new(
        (n / 2) as nat,
        |k: int| (hex_value(chars@[2 * k]) * 16 + hex_value(chars@[2 * k + 1])) as u8,
    ));
    Some(out)
}

/// Law: hex text read back gives the bytes that were written.
pub proof fn lemma_hex_roundtrip(b: Seq<u8>)
    ensures
        hex_decode(hex_lower(b)) == Some(b),
{
    let s = hex_lower(b);
    assert forall|i: int| 0 <= i < s.len() implies is_hex_char(#[trigger] s[i]) by {
        if i % 2 == 0 {
            assert(0 <= b[i / 2] / 16 < 16);
        } else {
            assert(0 <= b[i / 2] % 16 < 16);
        }
    }
    assert(s.len() % 2 == 0);
    let d = hex_decode(s).unwrap();
    assert forall|i: int| 0 <= i < b.len() implies d[i] == b[i] by {
        assert((2 * i) / 2 == i);
        assert((2 * i + 1) / 2 == i);
        assert((2 * i) % 2 == 0);
        assert((2 * i + 1) % 2 == 1);
        assert(hex_value(s[2 * i]) == b[i] / 16);
        assert(hex_value(s[2 * i + 1]) == b[i] % 16);
    }
    assert(d =~= b);
}

/// Law: the hex of `n` bytes is `2 n` characters, each a digit or a
/// lower-case letter `a` to `f`; the two characters of byte `i` are, high
/// nibble first, the digits of its value.
pub proof fn lemma_hex_is_lower_case_digits(b: Seq<u8>)
    ensures
        hex_lower(b).len() == 2 * b.len(),
        forall|i: int|
            0 <= i < hex_lower(b).len() ==> ('0' <= #[trigger] hex_lower(b)[i] <= '9') || ('a'
                <= hex_lower(b)[i] <= 'f'),
        forall|i: int|
            0 <= i < b.len() ==> digit_value(#[trigger] hex_lower(b)[2 * i]) * 16 + digit_value(
                hex_lower(b)[2 * i + 1],
            ) == b[i] as int,
{
    let s = hex_lower(b);
    assert forall|i: int| 0 <= i < s.len() implies ('0' <= #[trigger] s[i] <= '9') || ('a' <= s[i]
        <= 'f') by {
        if i % 2 == 0 {
            assert(0 <= b[i / 2] / 16 < 16);
        } else {
            assert(0 <= b[i / 2] % 16 < 16);
        }
    }
    assert forall|i: int| 0 <= i < b.len() implies digit_value(#[trigger] s[2 * i]) * 16
        + digit_value(s[2 * i + 1]) == b[i] as int by {
        assert((2 * i) / 2 == i);
        assert((2 * i + 1) / 2 == i);
        assert((2 * i) % 2 == 0);
        assert((2 * i + 1) % 2 == 1);
        assert(0 <= b[i] / 16 < 16);
        assert(0 <= b[i] % 16 < 16);
    }
}

/// The value of a digit or lower-case hex letter.
pub open spec fn digit_value(c: char) -> int {
    if '0' <= c <= '9' {
        c as int - '0' as int
    } else {
        c as int - 'a' as int + 10
    }
}

} // verus!
