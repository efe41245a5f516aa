//! Validation of release rings, credential reference names, commits and
//! package paths.

use crate::hexcode::is_hex_char;
use crate::text::{chars_of, str_equals, utf8_len};
use vstd::prelude::*;

verus! {

/// The release rings: `draft`, `review`, `pilot` and `all`.
pub open spec fn is_ring(ring: Seq<char>) -> bool {
    ring == "draft"@ || ring == "review"@ || ring == "pilot"@ || ring == "all"@
}

/// Whether `ring` names a release ring.
pub fn valid_ring(ring: &str) -> (b: bool)
    ensures
        b == is_ring(ring@),
{
    str_equals(ring, "draft") || str_equals(ring, "review") || str_equals(ring, "pilot")
        || str_equals(ring, "all")
}

/// A character allowed after the first in a credential reference name.
pub open spec fn is_reference_tail_char(c: char) -> bool {
    ('A' <= c <= 'Z') || ('0' <= c <= '9') || c == '_'
}

/// A credential reference name: an upper-case ASCII letter, then upper-case
/// letters, digits and underscores, 2 to 64 bytes in all.
pub open spec fn is_secret_reference(s: Seq<char>) -> bool {
    &&& s.len() >= 1
    &&& 'A' <= s[0] <= 'Z'
    &&& 2 <= utf8_len(s) <= 64
    &&& forall|i: int| 1 <= i < s.len() ==> is_reference_tail_char(#[trigger] s[i])
}

/// Law: a credential reference name holds only ASCII upper-case letters,
/// digits and underscores, never a lower-case letter, starts with an
/// upper-case letter, and is 2 to 64 characters long.
pub proof fn lemma_reference_names_are_upper_case(s: Seq<char>)
    requires
        is_secret_reference(s),
    ensures
        forall|i: int|
            0 <= i < s.len() ==> ('A' <= #[trigger] s[i] <= 'Z') || ('0' <= s[i] <= '9') || s[i]
                == '_',
        forall|i: int| 0 <= i < s.len() ==> !('a' <= #[trigger] s[i] <= 'z'),
        'A' <= s[0] <= 'Z',
        2 <= s.len() <= 64,
{
    assert forall|i: int| 0 <= i < s.len() implies ('A' <= #[trigger] s[i] <= 'Z') || ('0' <= s[i]
        <= '9') || s[i] == '_' by {
        if i > 0 {
            assert(is_reference_tail_char(s[i]));
        }
    }
    assert(vstd::utf8::is_ascii_chars(s));
    vstd::utf8::is_ascii_chars_encode_utf8(s);
}

/// Whether `value` is a credential reference name.
pub fn valid_secret_reference(value: &str) -> (b: bool)
    ensures
        b == is_secret_reference(value@),
{
    let chars = chars_of(value);
    if chars.len() == 0 || !('A' <= chars[0] && chars[0] <= 'Z') {
        return false;
    }
    let n = value.as_bytes().len();
    if n < 2 || n > 64 {
        return false;
    }
    let mut i: usize = 1;
    while i < chars.len()
        invariant
            1 <= i <= chars@.len(),
            chars@ == value@,
            forall|j: int| 1 <= j < i ==> is_reference_tail_char(#[trigger] chars@[j]),
        decreases chars.len() - i,
    {
        let c = chars[i];
        if !(('A' <= c && c <= 'Z') || ('0' <= c && c <= '9') || c == '_') {
            assert(!is_reference_tail_char(value@[i as int]));
            return false;
        }
        i = i + 1;
    }
    true
}

/// A Git commit id: 40 bytes, every one a hex digit of either case.
pub open spec fn is_commit(s: Seq<char>) -> bool {
    &&& utf8_len(s) == 40
    &&& forall|i: int| 0 <= i < s.len() ==> is_hex_char(#[trigger] s[i])
}

/// Whether `value` is a full commit id: forty hex digits.
pub fn valid_commit(value: &str) -> (b: bool)
    ensures
        b == is_commit(value@),
{
    if value.as_bytes().len() != 40 {
        return false;
    }
    let chars = chars_of(value);
    let mut i: usize = 0;
    while i < chars.len()
        invariant
            i <= chars@.len(),
            chars@ == value@,
            forall|j: int| 0 <= j < i ==> is_hex_char(#[trigger] chars@[j]),
        decreases chars.len() - i,
    {
        let c = chars[i];
        if !(('0' <= c && c <= '9') || ('a' <= c && c <= 'f') || ('A' <= c && c <= 'F')) {
            assert(!is_hex_char(value@[i as int]));
            return false;
        }
        i = i + 1;
    }
    true
}

/// A character allowed in a path segment: ASCII letters and digits, `.`,
/// `_` and `-`.
pub open spec fn is_path_char(c: char) -> bool {
    ('a' <= c <= 'z') || ('A' <= c <= 'Z') || ('0' <= c <= '9') || c == '.' || c == '_' || c
        == '-'
}

/// A safe relative path to a JSON file: non-empty, at most 240 bytes, ending
/// in `.json`, not starting with `/`, without `..`, and made of non-empty
/// `/`-separated segments of path characters.
pub open spec fn is_source_path(s: Seq<char>) -> bool {
    &&& s.len() > 0
    &&& utf8_len(s) <= 240
    &&& s.len() >= 5 && s.subrange(s.len() - 5, s.len() as int) == seq!['.', 'j', 's', 'o', 'n']
    &&& s[0] != '/'
    &&& !(exists|i: int| 0 <= i < s.len() - 1 && #[trigger] s[i] == '.' && s[i + 1] == '.')
    &&& s.last() != '/'
    &&& !(exists|i: int| 0 <= i < s.len() - 1 && #[trigger] s[i] == '/' && s[i + 1] == '/')
    &&& forall|i: int| 0 <= i < s.len() ==> #[trigger] s[i] == '/' || is_path_char(s[i])
}

/// Whether `value` is a safe package path inside a repository.
pub fn valid_source_path(value: &str) -> (b: bool)
    ensures
        b == is_source_path(value@),
{
    let s = chars_of(value);
    let n = s.len();
    if n == 0 || value.as_bytes().len() > 240 {
        return false;
    }
    if n < 5 || s[n - 5] != '.' || s[n - 4] != 'j' || s[n - 3] != 's' || s[n - 2] != 'o' || s[n
        - 1] != 'n' {
        proof {
            if n >= 5 {
                let t = value@.subrange(n - 5, n as int);
                assert(t[0] == s@[n - 5] && t[1] == s@[n - 4] && t[2] == s@[n - 3] && t[3]
                    == s@[n - 2] && t[4] == s@[n - 1]);
            }
        }
        return false;
    }
    assert(value@.subrange(n - 5, n as int) =~= seq!['.', 'j', 's', 'o', 'n']);
    if s[0] == '/' || s[n - 1] == '/' {
        return false;
    }
    let mut i: usize = 0;
    while i < n
        invariant
            i <= n,
            n == s@.len(),
            s@ == value@,
            forall|j: int| 0 <= j < i ==> #[trigger] s@[j] == '/' || is_path_char(s@[j]),
            forall|j: int| 0 <= j < i && j < n - 1 ==> !(#[trigger] s@[j] == '.' && s@[j + 1] == '.'),
            forall|j: int| 0 <= j < i && j < n - 1 ==> !(#[trigger] s@[j] == '/' && s@[j + 1] == '/'),
        decreases n - i,
    {
        let c = s[i];
        if !(c == '/' || ('a' <= c && c <= 'z') || ('A' <= c && c <= 'Z') || ('0' <= c && c <= '9')
            || c == '.' || c == '_' || c == '-') {
            assert(!(value@[i as int] == '/' || is_path_char(value@[i as int])));
            return false;
        }
        if i + 1 < n && c == '.' && s[i + 1] == '.' {
            assert(value@[i as int] == '.' && value@[i + 1] == '.');
            return false;
        }
        if i + 1 < n && c == '/' && s[i + 1] == '/' {
            assert(value@[i as int] == '/' && value@[i + 1] == '/');
            return false;
        }
        i = i + 1;
    }
    true
}

/// Law: a commit id is exactly forty characters, each an ASCII digit or a
/// letter `a` to `f` of either case; and every such text is one.
pub proof fn lemma_commit_ids_are_forty_hex_digits(s: Seq<char>)
    ensures
        is_commit(s) <==> (s.len() == 40 && forall|i: int|
            0 <= i < s.len() ==> ('0' <= #[trigger] s[i] <= '9') || ('a' <= s[i] <= 'f') || (
            'A' <= s[i] <= 'F')),
{
    if forall|i: int| 0 <= i < s.len() ==> is_hex_char(#[trigger] s[i]) {
        assert(vstd::utf8::is_ascii_chars(s));
        vstd::utf8::is_ascii_chars_encode_utf8(s);
    }
    if s.len() == 40 && forall|i: int|
        0 <= i < s.len() ==> ('0' <= #[trigger] s[i] <= '9') || ('a' <= s[i] <= 'f') || ('A' <= s[i]
            <= 'F') {
        assert(vstd::utf8::is_ascii_chars(s));
        vstd::utf8::is_ascii_chars_encode_utf8(s);
    }
}

/// Law: a safe package path names a `.json` file, does not start with `/`,
/// holds no `..` and no `//` anywhere, and holds nothing but ASCII letters,
/// digits, `.`, `_`, `-` and `/`.
pub proof fn lemma_safe_paths_stay_inside(s: Seq<char>, a: Seq<char>, b: Seq<char>)
    requires
        is_source_path(s),
    ensures
        exists|stem: Seq<char>| s == stem + seq!['.', 'j', 's', 'o', 'n'],
        s[0] != '/',
        s != a + seq!['.', '.'] + b,
        s != a + seq!['/', '/'] + b,
        forall|i: int|
            0 <= i < s.len() ==> ('a' <= #[trigger] s[i] <= 'z') || ('A' <= s[i] <= 'Z') || ('0'
                <= s[i] <= '9') || s[i] == '.' || s[i] == '_' || s[i] == '-' || s[i] == '/',
{
    let stem = s.subrange(0, s.len() - 5);
    assert(s =~= stem + seq!['.', 'j', 's', 'o', 'n']);
    if s == a + seq!['.', '.'] + b {
        assert(s[a.len() as int] == '.' && s[(a.len() + 1) as int] == '.');
    }
    if s == a + seq!['/', '/'] + b {
        assert(s[a.len() as int] == '/' && s[(a.len() + 1) as int] == '/');
    }
    assert forall|i: int| 0 <= i < s.len() implies ('a' <= #[trigger] s[i] <= 'z') || ('A' <= s[i]
        <= 'Z') || ('0' <= s[i] <= '9') || s[i] == '.' || s[i] == '_' || s[i] == '-' || s[i] == '/' by {
        if s[i] != '/' {
            assert(is_path_char(s[i]));
        }
    }
}

} // verus!
