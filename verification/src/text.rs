//! Character-level helpers shared by the validators and encoders.

use vstd::prelude::*;
use vstd::utf8::encode_utf8;

verus! {

broadcast use vstd::string::group_string_axioms;

/// Unicode `White_Space`: the characters that `char::is_whitespace` accepts.
pub open spec fn is_white_space(c: char) -> bool {
    let u = c as u32;
    ||| 0x09 <= u <= 0x0d
    ||| u == 0x20
    ||| u == 0x85
    ||| u == 0xa0
    ||| u == 0x1680
    ||| 0x2000 <= u <= 0x200a
    ||| u == 0x2028
    ||| u == 0x2029
    ||| u == 0x202f
    ||| u == 0x205f
    ||| u == 0x3000
}

/// Some character of `s` is not white space.
pub open spec fn has_visible(s: Seq<char>) -> bool {
    exists|i: int| 0 <= i < s.len() && !is_white_space(#[trigger] s[i])
}

/// The number of bytes that `s` takes in UTF-8.
pub open spec fn utf8_len(s: Seq<char>) -> nat {
    encode_utf8(s).len()
}

/// Text is non-blank once trimmed, fits in `max` UTF-8 bytes and holds no NUL.
pub open spec fn is_valid_text(s: Seq<char>, max: nat) -> bool {
    &&& has_visible(s)
    &&& utf8_len(s) <= max
    &&& !s.contains('\0')
}

/// Index of the first character of `s` that is not white space (or `s.len()`).
pub open spec fn trim_start_index(s: Seq<char>) -> int
    decreases s.len(),
{
    if s.len() == 0 {
        0
    } else if is_white_space(s[0]) {
        1 + trim_start_index(s.drop_first())
    } else {
        0
    }
}

/// One past the last character of `s` that is not white space (or 0).
pub open spec fn trim_end_index(s: Seq<char>) -> int
    decreases s.len(),
{
    if s.len() == 0 {
        0
    } else if is_white_space(s.last()) {
        trim_end_index(s.drop_last())
    } else {
        s.len() as int
    }
}

/// `s` without its leading and trailing white space, as `str::trim` gives it.
pub open spec fn trim(s: Seq<char>) -> Seq<char> {
    let a = trim_start_index(s);
    let b = trim_end_index(s);
    if a < b {
        s.subrange(a, b)
    } else {
        Seq::empty()
    }
}

proof fn lemma_trim_start_after(ws: Seq<char>, x: Seq<char>)
    requires
        x.len() > 0,
        !is_white_space(x[0]),
        forall|i: int| 0 <= i < ws.len() ==> is_white_space(#[trigger] ws[i]),
    ensures
        trim_start_index(ws + x) == ws.len(),
    decreases ws.len(),
{
    if ws.len() == 0 {
        assert(ws + x =~= x);
    } else {
        assert((ws + x).drop_first() =~= ws.drop_first() + x);
        lemma_trim_start_after(ws.drop_first(), x);
    }
}

proof fn lemma_trim_end_before(y: Seq<char>, ws: Seq<char>)
    requires
        y.len() > 0,
        !is_white_space(y.last()),
        forall|i: int| 0 <= i < ws.len() ==> is_white_space(#[trigger] ws[i]),
    ensures
        trim_end_index(y + ws) == y.len(),
    decreases ws.len(),
{
    if ws.len() == 0 {
        assert(y + ws =~= y);
    } else {
        assert((y + ws).drop_last() =~= y + ws.drop_last());
        lemma_trim_end_before(y, ws.drop_last());
    }
}

/// Trimming removes exactly the white space around a text that starts and
/// ends with a visible character.
pub proof fn lemma_trim_around(before: Seq<char>, x: Seq<char>, after: Seq<char>)
    requires
        x.len() > 0,
        !is_white_space(x[0]),
        !is_white_space(x.last()),
        forall|i: int| 0 <= i < before.len() ==> is_white_space(#[trigger] before[i]),
        forall|i: int| 0 <= i < after.len() ==> is_white_space(#[trigger] after[i]),
    ensures
        trim(before + x + after) == x,
{
    let s = before + x + after;
    assert(before + (x + after) =~= s);
    lemma_trim_start_after(before, x + after);
    assert((before + x).last() == x.last());
    lemma_trim_end_before(before + x, after);
    assert(s.subrange(before.len() as int, (before.len() + x.len()) as int) =~= x);
}

/// The characters of a string slice, in order.
pub fn chars_of(s: &str) -> (out: Vec<char>)
    ensures
        out@ == s@,
{
    let mut out: Vec<char> = Vec::new();
    for c in it: s.chars()
        invariant
            out@ == it.seq().take(it.index() as int),
            it.seq() == s@,
    {
        out.push(c);
    }
    out
}

/// Collects characters into a `String` (`FromIterator<char>` for `String`).
#[verifier::external_body]
pub(crate) fn string_from_chars(chars: &[char]) -> (out: String)
    ensures
        out@ == chars@,
{
    chars.iter().collect()
}

/// Exactly the characters of Unicode `White_Space`.
pub fn is_white_space_char(c: char) -> (b: bool)
    ensures
        b == is_white_space(c),
{
    let u = c as u32;
    (0x09 <= u && u <= 0x0d) || u == 0x20 || u == 0x85 || u == 0xa0 || u == 0x1680 || (0x2000
        <= u && u <= 0x200a) || u == 0x2028 || u == 0x2029 || u == 0x202f || u == 0x205f || u
        == 0x3000
}

/// Whether `c` occurs in `s`.
pub fn contains_char(s: &[char], c: char) -> (b: bool)
    ensures
        b == s@.contains(c),
{
    let mut i: usize = 0;
    while i < s.len()
        invariant
            i <= s.len(),
            forall|j: int| 0 <= j < i ==> s@[j] != c,
        decreases s.len() - i,
    {
        if s[i] == c {
            return true;
        }
        i = i + 1;
    }
    false
}

/// Whether some character of `s` is not white space.
pub fn has_visible_char(s: &[char]) -> (b: bool)
    ensures
        b == has_visible(s@),
{
    let mut i: usize = 0;
    while i < s.len()
        invariant
            i <= s.len(),
            forall|j: int| 0 <= j < i ==> is_white_space(#[trigger] s@[j]),
        decreases s.len() - i,
    {
        if !is_white_space_char(s[i]) {
            return true;
        }
        i = i + 1;
    }
    false
}

/// Valid text: not blank when trimmed, at most `max` UTF-8 bytes long, and
/// free of NUL characters.
pub fn valid_text(value: &str, max: usize) -> (b: bool)
    ensures
        b == is_valid_text(value@, max as nat),
{
    let chars = chars_of(value);
    has_visible_char(&chars) && value.as_bytes().len() <= max && !contains_char(&chars, '\0')
}

proof fn lemma_trim_start(s: Seq<char>)
    ensures
        0 <= trim_start_index(s) <= s.len(),
        forall|j: int| 0 <= j < trim_start_index(s) ==> is_white_space(#[trigger] s[j]),
        trim_start_index(s) < s.len() ==> !is_white_space(s[trim_start_index(s)]),
    decreases s.len(),
{
    if s.len() > 0 && is_white_space(s[0]) {
        lemma_trim_start(s.drop_first());
        assert forall|j: int| 0 <= j < trim_start_index(s) implies is_white_space(
            #[trigger] s[j],
        ) by {
            if j > 0 {
                assert(s[j] == s.drop_first()[j - 1]);
            }
        }
    }
}

proof fn lemma_trim_end(s: Seq<char>)
    ensures
        0 <= trim_end_index(s) <= s.len(),
        forall|j: int| trim_end_index(s) <= j < s.len() ==> is_white_space(#[trigger] s[j]),
        trim_end_index(s) > 0 ==> !is_white_space(s[trim_end_index(s) - 1]),
    decreases s.len(),
{
    if s.len() > 0 && is_white_space(s.last()) {
        lemma_trim_end(s.drop_last());
        assert forall|j: int| trim_end_index(s) <= j < s.len() implies is_white_space(
            #[trigger] s[j],
        ) by {
            if j < s.len() - 1 {
                assert(s[j] == s.drop_last()[j]);
            }
        }
    }
}

/// `str::trim`: the text without leading and trailing white space.
pub fn trimmed(value: &str) -> (out: String)
    ensures
        out@ == trim(value@),
{
    let chars = chars_of(value);
    let n = chars.len();
    let mut a: usize = 0;
    while a < n && is_white_space_char(chars[a])
        invariant
            n == chars@.len(),
            a <= n,
            forall|j: int| 0 <= j < a ==> is_white_space(#[trigger] chars@[j]),
        decreases n - a,
    {
        a = a + 1;
    }
    let mut b: usize = n;
    while b > a && is_white_space_char(chars[b - 1])
        invariant
            n == chars@.len(),
            a <= b <= n,
            forall|j: int| b <= j < n ==> is_white_space(#[trigger] chars@[j]),
        decreases b - a,
    {
        b = b - 1;
    }
    proof {
        lemma_trim_start(value@);
        lemma_trim_end(value@);
        let s = value@;
        assert(a == trim_start_index(s)) by {
            if a < trim_start_index(s) {
                assert(a < n);
                assert(!is_white_space(chars@[a as int]));
            }
            if a > trim_start_index(s) {
                assert(is_white_space(s[trim_start_index(s)]));
            }
        }
        if a < b {
            assert(b == trim_end_index(s)) by {
                if b < trim_end_index(s) {
                    assert(is_white_space(s[b as int]));
                    assert(!is_white_space(s[trim_end_index(s) - 1]));
                    assert(is_white_space(s[trim_end_index(s) - 1]));
                }
                if b > trim_end_index(s) {
                    assert(!is_white_space(chars@[b - 1]));
                }
            }
        } else {
            assert(trim_end_index(s) <= a) by {
                if trim_end_index(s) > a {
                    assert(!is_white_space(s[trim_end_index(s) - 1]));
                    assert(b == a);
                }
            }
        }
    }
    let mut out: Vec<char> = Vec::new();
    let mut i: usize = a;
    while i < b
        invariant
            a <= i <= b <= n,
            n == chars@.len(),
            out@ == chars@.subrange(a as int, i as int),
        decreases b - i,
    {
        out.push(chars[i]);
        i = i + 1;
    }
    string_from_chars(out.as_slice())
}

} // verus!

verus! {

/// Whether two string slices hold the same characters.
pub fn str_equals(a: &str, b: &str) -> (r: bool)
    ensures
        r == (a@ == b@),
{
    let x = chars_of(a);
    let y = chars_of(b);
    if x.len() != y.len() {
        return false;
    }
    let mut i: usize = 0;
    while i < x.len()
        invariant
            x@ == a@,
            y@ == b@,
            x@.len() == y@.len(),
            i <= x@.len(),
            forall|j: int| 0 <= j < i ==> x@[j] == y@[j],
        decreases x.len() - i,
    {
        if x[i] != y[i] {
            assert(x@[i as int] != y@[i as int]);
            return false;
        }
        i = i + 1;
    }
    assert(x@ =~= y@);
    true
}

/// Whether `s` begins with `p`.
pub fn starts_with_chars(s: &[char], p: &[char]) -> (r: bool)
    ensures
        r == (p@.len() <= s@.len() && s@.subrange(0, p@.len() as int) == p@),
{
    if p.len() > s.len() {
        return false;
    }
    let mut i: usize = 0;
    while i < p.len()
        invariant
            p@.len() <= s@.len(),
            i <= p@.len(),
            forall|j: int| 0 <= j < i ==> s@[j] == p@[j],
        decreases p.len() - i,
    {
        if s[i] != p[i] {
            assert(s@.subrange(0, p@.len() as int)[i as int] != p@[i as int]);
            return false;
        }
        i = i + 1;
    }
    assert(s@.subrange(0, p@.len() as int) =~= p@);
    true
}

/// Whether `s` ends with `p`.
pub fn ends_with_chars(s: &[char], p: &[char]) -> (r: bool)
    ensures
        r == (p@.len() <= s@.len() && s@.subrange(s@.len() - p@.len(), s@.len() as int) == p@),
{
    if p.len() > s.len() {
        return false;
    }
    let off = s.len() - p.len();
    let mut i: usize = 0;
    while i < p.len()
        invariant
            p@.len() <= s@.len(),
            off == s@.len() - p@.len(),
            s@.len() == s.len(),
            i <= p@.len(),
            forall|j: int| 0 <= j < i ==> s@[off + j] == p@[j],
        decreases p.len() - i,
    {
        if s[off + i] != p[i] {
            assert(s@.subrange(off as int, s@.len() as int)[i as int] != p@[i as int]);
            return false;
        }
        i = i + 1;
    }
    assert(s@.subrange(off as int, s@.len() as int) =~= p@);
    true
}

/// The characters `s[from..to]`.
pub fn slice_chars(s: &[char], from: usize, to: usize) -> (out: Vec<char>)
    requires
        from <= to <= s@.len(),
    ensures
        out@ == s@.subrange(from as int, to as int),
{
    let mut out: Vec<char> = Vec::new();
    let mut i: usize = from;
    while i < to
        invariant
            from <= i <= to <= s@.len(),
            out@ == s@.subrange(from as int, i as int),
        decreases to - i,
    {
        out.push(s[i]);
        i = i + 1;
    }
    out
}

/// Law: text has a visible character exactly when trimming leaves something;
/// so valid text is non-empty once trimmed, holds no NUL and fits in `max`
/// UTF-8 bytes.
pub proof fn lemma_valid_text_is_not_blank(s: Seq<char>, max: nat)
    ensures
        has_visible(s) <==> trim(s).len() > 0,
        is_valid_text(s, max) ==> trim(s).len() > 0 && utf8_len(s) <= max && forall|i: int|
            0 <= i < s.len() ==> #[trigger] s[i] != '\0',
{
    lemma_trim_start(s);
    lemma_trim_end(s);
    let a = trim_start_index(s);
    let b = trim_end_index(s);
    if has_visible(s) {
        let i = choose|i: int| 0 <= i < s.len() && !is_white_space(#[trigger] s[i]);
        assert(a <= i);
        assert(i < b);
    }
    if trim(s).len() > 0 {
        assert(a < b);
        assert(a < s.len());
        assert(!is_white_space(s[a]));
    }
    if is_valid_text(s, max) {
        assert forall|i: int| 0 <= i < s.len() implies #[trigger] s[i] != '\0' by {
            if s[i] == '\0' {
                assert(s.contains('\0'));
            }
        }
    }
}

} // verus!
