//! The compact JSON text that the registry signs and stores, and the reading
//! of stored JSON lists back through `serde_json`.

use crate::hexcode::hex_digit;
use crate::text::chars_of;
use vstd::prelude::*;

verus! {

/// The JSON escape of one character, as `serde_json` writes it: quote and
/// backslash escaped, the short escapes for backspace, tab, line feed, form
/// feed and carriage return, `\u00xx` with lower-case digits for the other
/// control characters, and every other character as it is.
pub open spec fn json_escape_char(c: char) -> Seq<char> {
    let u = c as u32;
    if c == '"' {
        seq!['\\', '"']
    } else if c == '\\' {
        seq!['\\', '\\']
    } else if u == 8 {
        seq!['\\', 'b']
    } else if u == 9 {
        seq!['\\', 't']
    } else if u == 10 {
        seq!['\\', 'n']
    } else if u == 12 {
        seq!['\\', 'f']
    } else if u == 13 {
        seq!['\\', 'r']
    } else if u < 32 {
        seq!['\\', 'u', '0', '0', hex_digit(u as int / 16), hex_digit(u as int % 16)]
    } else {
        seq![c]
    }
}

/// The escaped contents of a JSON string.
pub open spec fn json_escape(s: Seq<char>) -> Seq<char>
    decreases s.len(),
{
    if s.len() == 0 {
        Seq::empty()
    } else {
        json_escape(s.drop_last()) + json_escape_char(s.last())
    }
}

/// The escape of a non-empty text starts with the escape of its first
/// character.
proof fn lemma_escape_front(s: Seq<char>)
    requires
        s.len() > 0,
    ensures
        json_escape(s) == json_escape_char(s[0]) + json_escape(s.drop_first()),
    decreases s.len(),
{
    if s.len() == 1 {
        assert(s.drop_last() =~= Seq::<char>::empty());
        assert(s.drop_first() =~= Seq::<char>::empty());
        assert(json_escape(Seq::<char>::empty()) =~= Seq::<char>::empty());
        assert(s.last() == s[0]);
        assert(json_escape(s) =~= json_escape(s.drop_last()) + json_escape_char(s.last()));
        assert(json_escape(s) =~= json_escape_char(s[0]));
    } else {
        lemma_escape_front(s.drop_last());
        assert(s.drop_last().drop_first() =~= s.drop_first().drop_last());
        assert(s.drop_first().last() == s.last());
        assert(json_escape(s) =~= json_escape_char(s[0]) + json_escape(s.drop_first()));
    }
}

proof fn lemma_hex_digit_injective(a: int, b: int)
    requires
        0 <= a < 16,
        0 <= b < 16,
        hex_digit(a) == hex_digit(b),
    ensures
        a == b,
{
    assert(hex_digit(a) as int == if a < 10 { 48 + a } else { 87 + a });
    assert(hex_digit(b) as int == if b < 10 { 48 + b } else { 87 + b });
}

/// No escape starts with a quote: the quote itself is escaped.
proof fn lemma_escape_char_not_quote(c: char)
    ensures
        json_escape_char(c).len() > 0,
        json_escape_char(c)[0] != '"',
{
}

/// Escapes are a prefix code: an escape followed by anything determines the
/// character it escapes.
proof fn lemma_escape_char_prefix(c1: char, c2: char, t1: Seq<char>, t2: Seq<char>)
    requires
        json_escape_char(c1) + t1 == json_escape_char(c2) + t2,
    ensures
        c1 == c2,
{
    let e1 = json_escape_char(c1);
    let e2 = json_escape_char(c2);
    let w = e1 + t1;
    assert(w[0] == e1[0]);
    assert(w[0] == e2[0]);
    if e1[0] != '\\' {
        assert(e1[0] == c1);
        assert(e2[0] == c2);
    } else {
        assert(e2[0] == '\\');
        assert(w[1] == e1[1]);
        assert(w[1] == e2[1]);
        if e1[1] == 'u' {
            assert(e2[1] == 'u');
            let u1 = c1 as u32;
            let u2 = c2 as u32;
            assert(u1 < 32 && u2 < 32);
            assert(w[4] == e1[4] && w[4] == e2[4]);
            assert(w[5] == e1[5] && w[5] == e2[5]);
            lemma_hex_digit_injective(u1 as int / 16, u2 as int / 16);
            lemma_hex_digit_injective(u1 as int % 16, u2 as int % 16);
            assert(u1 == u2);
            vstd::utf8::char_u32_cast(c1, u1);
            vstd::utf8::char_u32_cast(c2, u2);
        }
    }
}

/// A JSON string's contents are determined by the text up to its closing
/// quote.
pub proof fn lemma_escape_then_quote(a: Seq<char>, b: Seq<char>, x: Seq<char>, y: Seq<char>)
    requires
        json_escape(a) + seq!['"'] + x == json_escape(b) + seq!['"'] + y,
    ensures
        a == b,
        x == y,
    decreases a.len() + b.len(),
{
    let l = json_escape(a) + seq!['"'] + x;
    if a.len() == 0 {
        assert(json_escape(a) =~= Seq::<char>::empty());
        assert(l[0] == '"');
        if b.len() > 0 {
            lemma_escape_front(b);
            lemma_escape_char_not_quote(b[0]);
            assert(l[0] == json_escape_char(b[0])[0]);
        }
        assert(json_escape(b) =~= Seq::<char>::empty());
        assert(x =~= l.drop_first());
        assert(y =~= l.drop_first());
        assert(a =~= b);
    } else if b.len() == 0 {
        assert(json_escape(b) =~= Seq::<char>::empty());
        lemma_escape_front(a);
        lemma_escape_char_not_quote(a[0]);
        assert(l[0] == json_escape_char(a[0])[0]);
        assert(false);
    } else {
        lemma_escape_front(a);
        lemma_escape_front(b);
        let ta = json_escape(a.drop_first()) + seq!['"'] + x;
        let tb = json_escape(b.drop_first()) + seq!['"'] + y;
        assert(l =~= json_escape_char(a[0]) + ta);
        assert(l =~= json_escape_char(b[0]) + tb);
        lemma_escape_char_prefix(a[0], b[0], ta, tb);
        let n = json_escape_char(a[0]).len();
        assert(ta =~= l.subrange(n as int, l.len() as int));
        assert(tb =~= l.subrange(n as int, l.len() as int));
        lemma_escape_then_quote(a.drop_first(), b.drop_first(), x, y);
        assert(a =~= seq![a[0]] + a.drop_first());
        assert(b =~= seq![b[0]] + b.drop_first());
    }
}

/// A JSON string literal.
pub open spec fn json_string(s: Seq<char>) -> Seq<char> {
    seq!['"'] + json_escape(s) + seq!['"']
}

/// Comma-separated JSON string literals.
pub open spec fn json_string_items(items: Seq<Seq<char>>) -> Seq<char>
    decreases items.len(),
{
    if items.len() == 0 {
        Seq::empty()
    } else if items.len() == 1 {
        json_string(items[0])
    } else {
        json_string_items(items.drop_last()) + seq![','] + json_string(items.last())
    }
}

/// A compact JSON array of strings.
pub open spec fn json_string_array(items: Seq<Seq<char>>) -> Seq<char> {
    seq!['['] + json_string_items(items) + seq![']']
}

/// One `"key":"value"` member.
pub open spec fn json_string_member(entry: (Seq<char>, Seq<char>)) -> Seq<char> {
    json_string(entry.0) + seq![':'] + json_string(entry.1)
}

/// Comma-separated string members, in the given order.
pub open spec fn json_string_members(entries: Seq<(Seq<char>, Seq<char>)>) -> Seq<char>
    decreases entries.len(),
{
    if entries.len() == 0 {
        Seq::empty()
    } else if entries.len() == 1 {
        json_string_member(entries[0])
    } else {
        json_string_members(entries.drop_last()) + seq![','] + json_string_member(entries.last())
    }
}

/// `a` sorts strictly before `b` in the order of Rust strings: their UTF-8
/// bytes compared in turn, which is their characters' code points compared in
/// turn.
pub open spec fn text_less(a: Seq<char>, b: Seq<char>) -> bool
    decreases a.len(),
{
    if a.len() == 0 {
        b.len() > 0
    } else if b.len() == 0 {
        false
    } else if (a[0] as u32) < (b[0] as u32) {
        true
    } else if a[0] == b[0] {
        text_less(a.drop_first(), b.drop_first())
    } else {
        false
    }
}

/// The keys of the entries are in strictly increasing order (so no key
/// occurs twice), as a `BTreeMap` lists them.
pub open spec fn keys_increasing(entries: Seq<(Seq<char>, Seq<char>)>) -> bool {
    forall|i: int, j: int|
        0 <= i < j < entries.len() ==> text_less(#[trigger] entries[i].0, #[trigger] entries[j].0)
}

/// No text sorts before itself.
pub proof fn lemma_text_less_irreflexive(a: Seq<char>)
    ensures
        !text_less(a, a),
    decreases a.len(),
{
    if a.len() > 0 {
        lemma_text_less_irreflexive(a.drop_first());
    }
}

/// A compact JSON object of string members.
pub open spec fn json_string_object(entries: Seq<(Seq<char>, Seq<char>)>) -> Seq<char> {
    seq!['{'] + json_string_members(entries) + seq!['}']
}

/// `"name":` followed by an already encoded value.
pub open spec fn json_member(name: Seq<char>, value: Seq<char>) -> Seq<char> {
    json_string(name) + seq![':'] + value
}

/// Two members side by side: `"n1":v1,"n2":v2`.
pub open spec fn json_member_pair(n1: Seq<char>, v1: Seq<char>, n2: Seq<char>, v2: Seq<char>) -> Seq<char> {
    json_member(n1, v1) + seq![','] + json_member(n2, v2)
}

/// `text` holds `part` somewhere: some prefix, then `part`, then some suffix.
pub open spec fn holds_part(text: Seq<char>, part: Seq<char>) -> bool {
    exists|pre: Seq<char>, post: Seq<char>| text == pre + part + post
}

/// Already encoded members joined by commas.
pub open spec fn json_join(members: Seq<Seq<char>>) -> Seq<char>
    decreases members.len(),
{
    if members.len() == 0 {
        Seq::empty()
    } else if members.len() == 1 {
        members[0]
    } else {
        json_join(members.drop_last()) + seq![','] + members.last()
    }
}

/// Joined members start with the first member and a comma.
pub(crate) proof fn lemma_join_front(ms: Seq<Seq<char>>)
    requires
        ms.len() >= 2,
    ensures
        json_join(ms) == ms[0] + seq![','] + json_join(ms.drop_first()),
    decreases ms.len(),
{
    if ms.len() == 2 {
        assert(ms.drop_last() =~= seq![ms[0]]);
        assert(ms.drop_first() =~= seq![ms[1]]);
        assert(json_join(seq![ms[0]]) == ms[0]);
        assert(json_join(seq![ms[1]]) == ms[1]);
    } else {
        lemma_join_front(ms.drop_last());
        assert(ms.drop_last().drop_first() =~= ms.drop_first().drop_last());
        assert(ms.drop_first().last() == ms.last());
        assert(ms.drop_last()[0] == ms[0]);
        assert(json_join(ms) =~= ms[0] + seq![','] + json_join(ms.drop_first()));
    }
}

/// A text with no quote, backslash or control character is its own escape.
pub(crate) proof fn lemma_json_string_of_plain(s: Seq<char>)
    requires
        forall|i: int|
            0 <= i < s.len() ==> #[trigger] s[i] != '"' && s[i] != '\\' && (s[i] as u32) >= 32,
    ensures
        json_escape(s) == s,
        json_string(s) == seq!['"'] + s + seq!['"'],
    decreases s.len(),
{
    if s.len() > 0 {
        lemma_json_string_of_plain(s.drop_last());
        assert(s.last() == s[s.len() - 1]);
        assert(json_escape_char(s.last()) =~= seq![s.last()]);
        assert(s.drop_last() + seq![s.last()] =~= s);
    } else {
        assert(json_escape(s) =~= s);
    }
}

/// Joined members split at any inner member boundary: the members before
/// position `i`, a comma, and the members from `i` on.
pub(crate) proof fn lemma_join_split(ms: Seq<Seq<char>>, i: int)
    requires
        1 <= i < ms.len(),
    ensures
        json_join(ms) == json_join(ms.take(i)) + seq![','] + json_join(ms.skip(i)),
    decreases ms.len(),
{
    if i == ms.len() - 1 {
        assert(ms.take(i) =~= ms.drop_last());
        assert(ms.skip(i) =~= seq![ms.last()]);
        assert(json_join(seq![ms.last()]) == ms.last());
    } else {
        lemma_join_split(ms.drop_last(), i);
        assert(ms.drop_last().take(i) =~= ms.take(i));
        assert(ms.skip(i).drop_last() =~= ms.drop_last().skip(i));
        assert(ms.skip(i).last() == ms.last());
        assert(json_join(ms) =~= json_join(ms.take(i)) + seq![','] + json_join(ms.skip(i)));
    }
}

/// An object holds its members `i` and `i + 1` side by side, separated by a
/// comma, with only whole members and punctuation around them.
pub(crate) proof fn lemma_object_adjacent_members(ms: Seq<Seq<char>>, i: int)
    requires
        1 <= i,
        i + 2 < ms.len(),
    ensures
        json_object(ms) == (seq!['{'] + json_join(ms.take(i)) + seq![',']) + (ms[i] + seq![',']
            + ms[i + 1]) + (seq![','] + json_join(ms.skip(i + 2)) + seq!['}']),
{
    lemma_join_split(ms, i);
    let r = ms.skip(i);
    lemma_join_front(r);
    lemma_join_front(r.drop_first());
    assert(r[0] == ms[i]);
    assert(r.drop_first()[0] == ms[i + 1]);
    assert(r.drop_first().drop_first() =~= ms.skip(i + 2));
    assert(json_object(ms) =~= (seq!['{'] + json_join(ms.take(i)) + seq![',']) + (ms[i] + seq![
        ',',
    ] + ms[i + 1]) + (seq![','] + json_join(ms.skip(i + 2)) + seq!['}']));
}

/// An object holds two adjacent members, comma-separated, somewhere inside.
pub(crate) proof fn lemma_object_holds_pair(ms: Seq<Seq<char>>, i: int, a: Seq<char>, b: Seq<char>)
    requires
        1 <= i,
        i + 2 <= ms.len(),
        ms[i] == a,
        ms[i + 1] == b,
    ensures
        exists|pre: Seq<char>, post: Seq<char>| json_object(ms) == pre + (a + seq![','] + b) + post,
{
    if i + 2 < ms.len() {
        lemma_object_adjacent_members(ms, i);
        let pre = seq!['{'] + json_join(ms.take(i)) + seq![','];
        let post = seq![','] + json_join(ms.skip(i + 2)) + seq!['}'];
        assert(json_object(ms) == pre + (a + seq![','] + b) + post);
    } else {
        lemma_join_split(ms, i);
        let r = ms.skip(i);
        lemma_join_front(r);
        assert(r.drop_first() =~= seq![b]);
        assert(json_join(seq![b]) == b);
        let pre = seq!['{'] + json_join(ms.take(i)) + seq![','];
        let post = seq!['}'];
        assert(json_object(ms) =~= pre + (a + seq![','] + b) + post);
    }
}

/// An object holds its members `i` and `i + 1` as a member pair.
pub(crate) proof fn lemma_object_holds_member_pair(
    ms: Seq<Seq<char>>,
    i: int,
    n1: Seq<char>,
    v1: Seq<char>,
    n2: Seq<char>,
    v2: Seq<char>,
)
    requires
        1 <= i,
        i + 2 <= ms.len(),
        ms[i] == json_member(n1, v1),
        ms[i + 1] == json_member(n2, v2),
    ensures
        holds_part(json_object(ms), json_member_pair(n1, v1, n2, v2)),
{
    lemma_object_holds_pair(ms, i, json_member(n1, v1), json_member(n2, v2));
    let (pre, post) = choose|pre: Seq<char>, post: Seq<char>|
        json_object(ms) == pre + (json_member(n1, v1) + seq![','] + json_member(n2, v2)) + post;
    assert(json_object(ms) == pre + json_member_pair(n1, v1, n2, v2) + post);
}

/// An object whose second member is the string member `name` splits at the
/// opening quote of that member's value.
pub(crate) proof fn lemma_object_second_string(ms: Seq<Seq<char>>, name: Seq<char>, value: Seq<char>)
    requires
        ms.len() >= 3,
        ms[1] == json_member(name, json_string(value)),
    ensures
        json_object(ms) == (seq!['{'] + ms[0] + seq![','] + json_string(name) + seq![':'] + seq!['"'])
            + (json_escape(value) + seq!['"'] + (seq![','] + json_join(ms.drop_first().drop_first())
            + seq!['}'])),
{
    lemma_join_front(ms);
    lemma_join_front(ms.drop_first());
    assert(ms.drop_first()[0] == ms[1]);
    assert(json_object(ms) =~= (seq!['{'] + ms[0] + seq![','] + json_string(name) + seq![':']
        + seq!['"']) + (json_escape(value) + seq!['"'] + (seq![','] + json_join(
        ms.drop_first().drop_first(),
    ) + seq!['}'])));
}

/// A compact JSON object of already encoded members.
pub open spec fn json_object(members: Seq<Seq<char>>) -> Seq<char> {
    seq!['{'] + json_join(members) + seq!['}']
}

/// The views of a list of strings.
pub open spec fn string_views(v: Seq<String>) -> Seq<Seq<char>> {
    v.map_values(|s: String| s@)
}

/// The views of a list of string pairs.
pub open spec fn pair_views(v: Seq<(String, String)>) -> Seq<(Seq<char>, Seq<char>)> {
    v.map_values(|p: (String, String)| (p.0@, p.1@))
}

/// Appends `s` to `out`.
pub fn push_chars(out: &mut Vec<char>, s: &[char])
    ensures
        final(out)@ == old(out)@ + s@,
{
    let mut i: usize = 0;
    while i < s.len()
        invariant
            i <= s@.len(),
            out@ == old(out)@ + s@.subrange(0, i as int),
        decreases s.len() - i,
    {
        out.push(s[i]);
        i = i + 1;
        assert(out@ =~= old(out)@ + s@.subrange(0, i as int));
    }
    assert(s@.subrange(0, s@.len() as int) =~= s@);
}

fn push_escaped_char(out: &mut Vec<char>, c: char)
    ensures
        final(out)@ == old(out)@ + json_escape_char(c),
{
    let u = c as u32;
    if c == '"' {
        out.push('\\');
        out.push('"');
    } else if c == '\\' {
        out.push('\\');
        out.push('\\');
    } else if u == 8 {
        out.push('\\');
        out.push('b');
    } else if u == 9 {
        out.push('\\');
        out.push('t');
    } else if u == 10 {
        out.push('\\');
        out.push('n');
    } else if u == 12 {
        out.push('\\');
        out.push('f');
    } else if u == 13 {
        out.push('\\');
        out.push('r');
    } else if u < 32 {
        out.push('\\');
        out.push('u');
        out.push('0');
        out.push('0');
        let hi = u / 16;
        let lo = u % 16;
        out.push(if hi < 10 { (48 + hi) as u8 as char } else { (87 + hi) as u8 as char });
        out.push(if lo < 10 { (48 + lo) as u8 as char } else { (87 + lo) as u8 as char });
    } else {
        out.push(c);
    }
    assert(final(out)@ =~= old(out)@ + json_escape_char(c)) by {
        assert(out@ =~= old(out)@ + json_escape_char(c));
    }
}

/// Appends a JSON string literal holding the characters of `s`.
pub fn push_json_string(out: &mut Vec<char>, s: &str)
    ensures
        final(out)@ == old(out)@ + json_string(s@),
{
    let chars = chars_of(s);
    out.push('"');
    let ghost start = out@;
    let mut i: usize = 0;
    while i < chars.len()
        invariant
            i <= chars@.len(),
            out@ == start + json_escape(chars@.subrange(0, i as int)),
        decreases chars.len() - i,
    {
        push_escaped_char(out, chars[i]);
        proof {
            let p = chars@.subrange(0, i + 1);
            assert(p.drop_last() =~= chars@.subrange(0, i as int));
            assert(p.last() == chars@[i as int]);
        }
        i = i + 1;
    }
    assert(chars@.subrange(0, chars@.len() as int) =~= chars@);
    out.push('"');
    assert(out@ =~= old(out)@ + json_string(s@));
}

/// Appends a compact JSON array of the strings in `items`.
pub fn push_json_string_array(out: &mut Vec<char>, items: &[String])
    ensures
        final(out)@ == old(out)@ + json_string_array(string_views(items@)),
{
    out.push('[');
    let ghost start = out@;
    let mut i: usize = 0;
    while i < items.len()
        invariant
            i <= items@.len(),
            out@ == start + json_string_items(string_views(items@.subrange(0, i as int))),
        decreases items.len() - i,
    {
        let ghost before = out@;
        if i > 0 {
            out.push(',');
        }
        push_json_string(out, items[i].as_str());
        proof {
            let p = string_views(items@.subrange(0, i + 1));
            let q = string_views(items@.subrange(0, i as int));
            assert(p.drop_last() =~= q);
            assert(p.last() == items@[i as int]@);
            if i == 0 {
                assert(p.len() == 1);
                assert(q.len() == 0);
                assert(out@ =~= start + json_string_items(p));
            } else {
                assert(out@ =~= start + json_string_items(p));
            }
        }
        i = i + 1;
    }
    assert(items@.subrange(0, items@.len() as int) =~= items@);
    out.push(']');
    assert(out@ =~= old(out)@ + json_string_array(string_views(items@)));
}

/// Appends a compact JSON object of the string pairs in `entries`, in order.
pub fn push_json_string_object(out: &mut Vec<char>, entries: &[(String, String)])
    ensures
        final(out)@ == old(out)@ + json_string_object(pair_views(entries@)),
{
    out.push('{');
    let ghost start = out@;
    let mut i: usize = 0;
    while i < entries.len()
        invariant
            i <= entries@.len(),
            out@ == start + json_string_members(pair_views(entries@.subrange(0, i as int))),
        decreases entries.len() - i,
    {
        if i > 0 {
            out.push(',');
        }
        push_json_string(out, entries[i].0.as_str());
        out.push(':');
        push_json_string(out, entries[i].1.as_str());
        proof {
            let p = pair_views(entries@.subrange(0, i + 1));
            let q = pair_views(entries@.subrange(0, i as int));
            assert(p.drop_last() =~= q);
            assert(p.last() == (entries@[i as int].0@, entries@[i as int].1@));
            assert(out@ =~= start + json_string_members(p));
        }
        i = i + 1;
    }
    assert(entries@.subrange(0, entries@.len() as int) =~= entries@);
    out.push('}');
    assert(out@ =~= old(out)@ + json_string_object(pair_views(entries@)));
}

/// Starts an object whose first member is `"name":"value"`.
pub(crate) fn push_first_string_member(out: &mut Vec<char>, name: &str, value: &str)
    requires
        old(out)@.len() == 0,
    ensures
        final(out)@ == seq!['{'] + json_join(seq![json_member(name@, json_string(value@))]),
{
    out.push('{');
    push_json_string(out, name);
    out.push(':');
    push_json_string(out, value);
    assert(out@ =~= seq!['{'] + json_join(seq![json_member(name@, json_string(value@))]));
}

proof fn lemma_join_push(members: Seq<Seq<char>>, m: Seq<char>)
    requires
        members.len() > 0,
    ensures
        seq!['{'] + json_join(members.push(m)) == seq!['{'] + json_join(members) + seq![','] + m,
{
    assert(members.push(m).drop_last() =~= members);
    assert(seq!['{'] + json_join(members.push(m)) =~= seq!['{'] + json_join(members) + seq![',']
        + m);
}

/// Adds the member `"name":"value"` to an open object.
pub(crate) fn push_string_member(
    out: &mut Vec<char>,
    Ghost(members): Ghost<Seq<Seq<char>>>,
    name: &str,
    value: &str,
)
    requires
        members.len() > 0,
        old(out)@ == seq!['{'] + json_join(members),
    ensures
        final(out)@ == seq!['{'] + json_join(members.push(json_member(name@, json_string(value@)))),
{
    out.push(',');
    push_json_string(out, name);
    out.push(':');
    push_json_string(out, value);
    proof {
        lemma_join_push(members, json_member(name@, json_string(value@)));
    }
    assert(out@ =~= old(out)@ + seq![','] + json_member(name@, json_string(value@)));
}

/// Adds the member `"name":[...]` to an open object.
pub(crate) fn push_array_member(
    out: &mut Vec<char>,
    Ghost(members): Ghost<Seq<Seq<char>>>,
    name: &str,
    items: &[String],
)
    requires
        members.len() > 0,
        old(out)@ == seq!['{'] + json_join(members),
    ensures
        final(out)@ == seq!['{'] + json_join(
            members.push(json_member(name@, json_string_array(string_views(items@)))),
        ),
{
    out.push(',');
    push_json_string(out, name);
    out.push(':');
    push_json_string_array(out, items);
    proof {
        lemma_join_push(members, json_member(name@, json_string_array(string_views(items@))));
    }
    assert(out@ =~= old(out)@ + seq![','] + json_member(
        name@,
        json_string_array(string_views(items@)),
    ));
}

/// Adds the member `"name":{...}` to an open object.
pub(crate) fn push_object_member(
    out: &mut Vec<char>,
    Ghost(members): Ghost<Seq<Seq<char>>>,
    name: &str,
    entries: &[(String, String)],
)
    requires
        members.len() > 0,
        old(out)@ == seq!['{'] + json_join(members),
    ensures
        final(out)@ == seq!['{'] + json_join(
            members.push(json_member(name@, json_string_object(pair_views(entries@)))),
        ),
{
    out.push(',');
    push_json_string(out, name);
    out.push(':');
    push_json_string_object(out, entries);
    proof {
        lemma_join_push(members, json_member(name@, json_string_object(pair_views(entries@))));
    }
    assert(out@ =~= old(out)@ + seq![','] + json_member(
        name@,
        json_string_object(pair_views(entries@)),
    ));
}

/// Closes an open object.
pub(crate) fn push_object_end(out: &mut Vec<char>, Ghost(members): Ghost<Seq<Seq<char>>>)
    requires
        old(out)@ == seq!['{'] + json_join(members),
    ensures
        final(out)@ == json_object(members),
{
    out.push('}');
}

/// What `serde_json::from_str::<Vec<String>>` reads from a text: `None` when
/// the text is not a JSON array of strings.
pub uninterp spec fn json_string_list_of(raw: Seq<char>) -> Option<Seq<Seq<char>>>;

/// What `serde_json::from_str::<BTreeMap<String, String>>` reads from a text,
/// as its entries in the map's order: `None` when the text is not a JSON
/// object of strings.
pub uninterp spec fn json_string_map_of(raw: Seq<char>) -> Option<Seq<(Seq<char>, Seq<char>)>>;

/// Calls `serde_json::from_str::<Vec<String>>`. The contract claims that the
/// outcome is the named function of the text, and that a compact JSON array
/// of strings, escaped as `serde_json` writes it, reads back as its items.
/// Which other texts parse is left to `serde_json`.
#[verifier::external_body]
fn parse_string_list(raw: &str) -> (out: Option<Vec<String>>)
    ensures
        match json_string_list_of(raw@) {
            Some(items) => out matches Some(v) && string_views(v@) == items,
            None => out is None,
        },
        match out {
            Some(v) => forall|items: Seq<Seq<char>>|
                #[trigger] json_string_array(items) == raw@ ==> string_views(v@) == items,
            None => forall|items: Seq<Seq<char>>| #[trigger] json_string_array(items) != raw@,
        },
{
    serde_json::from_str::<Vec<String>>(raw).ok()
}

/// Calls `serde_json::from_str::<BTreeMap<String, String>>` and lists the
/// entries in the map's order. The contract claims that the outcome is the
/// named function of the text, that a map's keys are pairwise distinct, and
/// that a compact JSON object of string members, escaped as `serde_json`
/// writes it and with keys in increasing order, reads back as its entries.
#[verifier::external_body]
fn parse_string_map(raw: &str) -> (out: Option<Vec<(String, String)>>)
    ensures
        match json_string_map_of(raw@) {
            Some(entries) => out matches Some(v) && pair_views(v@) == entries,
            None => out is None,
        },
        match out {
            Some(v) => forall|entries: Seq<(Seq<char>, Seq<char>)>|
                #[trigger] json_string_object(entries) == raw@ && keys_increasing(entries)
                    ==> pair_views(v@) == entries,
            None => forall|entries: Seq<(Seq<char>, Seq<char>)>|
                #[trigger] json_string_object(entries) == raw@ ==> !keys_increasing(entries),
        },
        out matches Some(v) ==> forall|i: int, j: int|
            0 <= i < j < v@.len() ==> v@[i].0@ != v@[j].0@,
{
    serde_json::from_str::<std::collections::BTreeMap<String, String>>(raw).ok().map(
        |m| m.into_iter().collect(),
    )
}

/// The stored list text read back, or the empty list when it does not parse.
pub open spec fn stored_list(raw: Seq<char>) -> Seq<Seq<char>> {
    match json_string_list_of(raw) {
        Some(items) => items,
        None => Seq::empty(),
    }
}

/// The stored map text read back, or the empty map when it does not parse.
pub open spec fn stored_map(raw: Seq<char>) -> Seq<(Seq<char>, Seq<char>)> {
    match json_string_map_of(raw) {
        Some(entries) => entries,
        None => Seq::empty(),
    }
}

/// A stored JSON list of strings, or an empty list when the text does not
/// parse.
pub fn json_array(raw: &str) -> (out: Vec<String>)
    ensures
        string_views(out@) == stored_list(raw@),
        forall|items: Seq<Seq<char>>|
            #[trigger] json_string_array(items) == raw@ ==> stored_list(raw@) == items,
{
    match parse_string_list(raw) {
        Some(v) => v,
        None => {
            let v: Vec<String> = Vec::new();
            assert(string_views(v@) =~= Seq::<Seq<char>>::empty());
            v
        },
    }
}

/// A stored JSON map of strings as its entries in key order, or no entries
/// when the text does not parse.
pub fn json_map(raw: &str) -> (out: Vec<(String, String)>)
    ensures
        pair_views(out@) == stored_map(raw@),
        forall|entries: Seq<(Seq<char>, Seq<char>)>|
            #[trigger] json_string_object(entries) == raw@ && keys_increasing(entries)
                ==> stored_map(raw@) == entries,
{
    match parse_string_map(raw) {
        Some(v) => v,
        None => {
            let v: Vec<(String, String)> = Vec::new();
            assert(pair_views(v@) =~= Seq::<(Seq<char>, Seq<char>)>::empty());
            v
        },
    }
}

/// `serde_json::to_string` of a list of strings. The contract claims the
/// compact array that `serde_json` writes: the items as JSON strings, in
/// order, with `serde_json`'s escapes. (Serialising strings cannot fail; the
/// empty text on failure is never returned.)
#[verifier::external_body]
fn serialize_string_list(items: &[String]) -> (out: String)
    ensures
        out@ == json_string_array(string_views(items@)),
{
    serde_json::to_string(items).unwrap_or_default()
}

/// `serde_json::to_string` of the `BTreeMap` that string pairs make. The
/// contract claims the compact object that `serde_json` writes for pairs
/// whose keys are in increasing order (the map then holds them all, in that
/// order).
#[verifier::external_body]
fn serialize_string_map(entries: &[(String, String)]) -> (out: String)
    ensures
        keys_increasing(pair_views(entries@)) ==> out@ == json_string_object(pair_views(entries@)),
{
    let map: std::collections::BTreeMap<String, String> = entries.iter().cloned().collect();
    serde_json::to_string(&map).unwrap_or_default()
}

/// The compact JSON array text a list of strings is stored in.
pub fn json_array_text(items: &[String]) -> (out: String)
    ensures
        out@ == json_string_array(string_views(items@)),
{
    serialize_string_list(items)
}

/// The compact JSON object text string pairs are stored in, for pairs in
/// increasing key order.
pub fn json_object_text(entries: &[(String, String)]) -> (out: String)
    ensures
        keys_increasing(pair_views(entries@)) ==> out@ == json_string_object(pair_views(entries@)),
{
    serialize_string_map(entries)
}

} // verus!
