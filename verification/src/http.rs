//! Request and response rules at the edge of the service: which paths are
//! limited, how a client is identified, and how responses may be cached.

use crate::json::push_chars;
use crate::text::{chars_of, ends_with_chars, starts_with_chars, str_equals, string_from_chars, trim, trimmed};
use vstd::prelude::*;

verus! {

/// Every path but the health check counts against the request limit.
pub fn is_rate_limited_path(path: &str) -> (b: bool)
    ensures
        b == (path@ != "/health"@),
{
    !str_equals(path, "/health")
}

/// The text before the first comma (all of it when there is none).
pub open spec fn first_field(s: Seq<char>) -> Seq<char>
    decreases s.len(),
{
    if s.len() == 0 || s[0] == ',' {
        Seq::empty()
    } else {
        seq![s[0]] + first_field(s.drop_first())
    }
}

proof fn lemma_first_field(s: Seq<char>, i: int)
    requires
        0 <= i <= s.len(),
        forall|j: int| 0 <= j < i ==> s[j] != ',',
        i == s.len() || s[i] == ',',
    ensures
        first_field(s) == s.subrange(0, i),
    decreases s.len(),
{
    if s.len() > 0 && s[0] != ',' {
        lemma_first_field(s.drop_first(), i - 1);
        assert(seq![s[0]] + s.drop_first().subrange(0, i - 1) =~= s.subrange(0, i));
    } else {
        assert(s.subrange(0, i) =~= Seq::<char>::empty());
    }
}

/// The first hop of an `X-Forwarded-For` value, trimmed.
pub fn first_forwarded_hop(value: &str) -> (out: String)
    ensures
        out@ == trim(first_field(value@)),
{
    let c = chars_of(value);
    let mut i: usize = 0;
    while i < c.len() && c[i] != ','
        invariant
            i <= c@.len(),
            forall|j: int| 0 <= j < i ==> c@[j] != ',',
        decreases c.len() - i,
    {
        i = i + 1;
    }
    proof {
        lemma_first_field(value@, i as int);
    }
    let first = string_from_chars(crate::text::slice_chars(c.as_slice(), 0, i).as_slice());
    trimmed(first.as_str())
}

/// The rate-limit identity of a client: the address of the trusted first
/// forwarded hop, else the peer address, else `unknown`.
pub open spec fn client_key_of(forwarded: Option<Seq<char>>, peer: Option<Seq<char>>) -> Seq<char> {
    match forwarded {
        Some(ip) => "forwarded:"@ + ip,
        None => match peer {
            Some(ip) => "peer:"@ + ip,
            None => "unknown"@,
        },
    }
}

/// The rate-limit identity from the parsed first hop address and the peer
/// address, each in its display form.
pub fn client_key(forwarded: Option<&str>, peer: Option<&str>) -> (out: String)
    ensures
        out@ == client_key_of(
            match forwarded {
                Some(f) => Some(f@),
                None => None,
            },
            match peer {
                Some(p) => Some(p@),
                None => None,
            },
        ),
{
    let (prefix, ip) = match forwarded {
        Some(f) => ("forwarded:", f),
        None => match peer {
            Some(p) => ("peer:", p),
            None => return "unknown".to_owned(),
        },
    };
    let mut v = chars_of(prefix);
    push_chars(&mut v, chars_of(ip).as_slice());
    string_from_chars(v.as_slice())
}

/// Law: a request with a trusted first forwarded hop is counted under that
/// hop, whatever its peer address; the peer address counts only when no hop
/// is known, and a request with neither shares the `unknown` bucket. So two
/// requests through the same ingress from different clients are counted
/// apart, and two from the same client through different peers together.
pub proof fn lemma_forwarded_hop_identifies_client(
    hop: Seq<char>,
    other_hop: Seq<char>,
    peer: Option<Seq<char>>,
    other_peer: Option<Seq<char>>,
    p: Seq<char>,
)
    ensures
        client_key_of(Some(hop), peer) == "forwarded:"@ + hop,
        client_key_of(None, Some(p)) == "peer:"@ + p,
        client_key_of(None, None) == "unknown"@,
        (client_key_of(Some(hop), peer) == client_key_of(Some(other_hop), other_peer)) <==> hop
            == other_hop,
{
    if client_key_of(Some(hop), peer) == client_key_of(Some(other_hop), other_peer) {
        let f = "forwarded:"@;
        assert(hop =~= ("forwarded:"@ + hop).subrange(f.len() as int, (f.len() + hop.len()) as int));
        assert(other_hop =~= ("forwarded:"@ + other_hop).subrange(
            f.len() as int,
            (f.len() + other_hop.len()) as int,
        ));
    }
}

/// The `Cache-Control` value a response gets by its path: images a week,
/// other hashed assets a year and immutable, nothing for other paths.
pub open spec fn cache_control_of(path: Seq<char>) -> Option<Seq<char>> {
    let image = path.len() >= ".webp"@.len() && path.subrange(path.len() - ".webp"@.len(), path.len() as int) == ".webp"@
        || path.len() >= ".svg"@.len() && path.subrange(path.len() - ".svg"@.len(), path.len() as int) == ".svg"@;
    let asset = path.len() >= "/assets/"@.len() && path.subrange(0, "/assets/"@.len() as int) == "/assets/"@;
    if image {
        Some("public, max-age=604800"@)
    } else if asset {
        Some("public, max-age=31536000, immutable"@)
    } else {
        None
    }
}

/// The caching rule of responses.
pub fn cache_control(path: &str) -> (out: Option<&'static str>)
    ensures
        match cache_control_of(path@) {
            Some(v) => out matches Some(s) && s@ == v,
            None => out is None,
        },
{
    let p = chars_of(path);
    let image = ends_with_chars(p.as_slice(), chars_of(".webp").as_slice()) || ends_with_chars(
        p.as_slice(),
        chars_of(".svg").as_slice(),
    );
    let asset = starts_with_chars(p.as_slice(), chars_of("/assets/").as_slice());
    if image {
        Some("public, max-age=604800")
    } else if asset {
        Some("public, max-age=31536000, immutable")
    } else {
        None
    }
}

/// The headers every response carries, by name and value, in the order they
/// are set: no content sniffing, the referrer policy, strict transport
/// security for a year with subdomains, no camera, microphone or location,
/// and a content security policy that allows only the site itself and no
/// framing.
pub open spec fn security_header_list() -> Seq<(Seq<char>, Seq<char>)> {
    seq![
        ("x-content-type-options"@, "nosniff"@),
        ("referrer-policy"@, "strict-origin-when-cross-origin"@),
        ("strict-transport-security"@, "max-age=31536000; includeSubDomains"@),
        ("permissions-policy"@, "camera=(), microphone=(), geolocation=()"@),
        ("content-security-policy"@, "default-src 'self'; img-src 'self'; style-src 'self'; script-src 'self'; connect-src 'self'; base-uri 'self'; form-action 'self'; frame-ancestors 'none'"@),
    ]
}

/// The headers every response carries.
pub fn security_headers() -> (out: Vec<(&'static str, &'static str)>)
    ensures
        out@.map_values(|h: (&'static str, &'static str)| (h.0@, h.1@)) == security_header_list(),
{
    let out = vec![
        ("x-content-type-options", "nosniff"),
        ("referrer-policy", "strict-origin-when-cross-origin"),
        ("strict-transport-security", "max-age=31536000; includeSubDomains"),
        ("permissions-policy", "camera=(), microphone=(), geolocation=()"),
        ("content-security-policy", "default-src 'self'; img-src 'self'; style-src 'self'; script-src 'self'; connect-src 'self'; base-uri 'self'; form-action 'self'; frame-ancestors 'none'"),
    ];
    assert(out@.map_values(|h: (&'static str, &'static str)| (h.0@, h.1@)) =~= security_header_list());
    out
}

/// Law: the first hop is the text before the first comma: for a hop without
/// commas, the hop followed by a comma and anything is that hop, and so is the
/// hop alone.
pub proof fn lemma_first_field_is_text_before_comma(hop: Seq<char>, rest: Seq<char>)
    requires
        !hop.contains(','),
    ensures
        first_field(hop + seq![','] + rest) == hop,
        first_field(hop) == hop,
{
    let s = hop + seq![','] + rest;
    assert forall|j: int| 0 <= j < hop.len() implies s[j] != ',' by {
        assert(s[j] == hop[j]);
        if hop[j] == ',' {
            assert(hop.contains(','));
        }
    }
    lemma_first_field(s, hop.len() as int);
    assert(s.subrange(0, hop.len() as int) =~= hop);
    assert forall|j: int| 0 <= j < hop.len() implies hop[j] != ',' by {
        if hop[j] == ',' {
            assert(hop.contains(','));
        }
    }
    lemma_first_field(hop, hop.len() as int);
    assert(hop.subrange(0, hop.len() as int) =~= hop);
}

/// Law: an image path (ending in `.svg` or `.webp`) is cached for a week
/// wherever it lies; any other path under `/assets/` is cached for a year and
/// immutable; a path that is neither gets no caching header.
pub proof fn lemma_cache_rules(dir: Seq<char>, name: Seq<char>, path: Seq<char>)
    ensures
        cache_control_of(dir + ".svg"@) == Some("public, max-age=604800"@),
        cache_control_of(dir + ".webp"@) == Some("public, max-age=604800"@),
        cache_control_of("/assets/"@ + name) is Some,
        (cache_control_of(path) is None) <==> !(exists|x: Seq<char>| path == "/assets/"@ + x) && !(
        exists|x: Seq<char>| path == x + ".svg"@) && !(exists|x: Seq<char>| path == x + ".webp"@),
{
    let svg = dir + ".svg"@;
    assert(svg.subrange(svg.len() - ".svg"@.len(), svg.len() as int) =~= ".svg"@);
    let webp = dir + ".webp"@;
    assert(webp.subrange(webp.len() - ".webp"@.len(), webp.len() as int) =~= ".webp"@);
    let asset = "/assets/"@ + name;
    assert(asset.subrange(0, "/assets/"@.len() as int) =~= "/assets/"@);
    if exists|x: Seq<char>| path == "/assets/"@ + x {
        let x = choose|x: Seq<char>| path == "/assets/"@ + x;
        assert(path.subrange(0, "/assets/"@.len() as int) =~= "/assets/"@);
    }
    if exists|x: Seq<char>| path == x + ".svg"@ {
        let x = choose|x: Seq<char>| path == x + ".svg"@;
        assert(path.subrange(path.len() - ".svg"@.len(), path.len() as int) =~= ".svg"@);
    }
    if exists|x: Seq<char>| path == x + ".webp"@ {
        let x = choose|x: Seq<char>| path == x + ".webp"@;
        assert(path.subrange(path.len() - ".webp"@.len(), path.len() as int) =~= ".webp"@);
    }
    if "/assets/"@.len() <= path.len() && path.subrange(0, "/assets/"@.len() as int) == "/assets/"@ {
        assert(path =~= "/assets/"@ + path.subrange("/assets/"@.len() as int, path.len() as int));
    }
    if path.len() >= ".svg"@.len() && path.subrange(path.len() - ".svg"@.len(), path.len() as int) == ".svg"@ {
        assert(path =~= path.subrange(0, path.len() - ".svg"@.len()) + ".svg"@);
    }
    if path.len() >= ".webp"@.len() && path.subrange(path.len() - ".webp"@.len(), path.len() as int) == ".webp"@ {
        assert(path =~= path.subrange(0, path.len() - ".webp"@.len()) + ".webp"@);
    }
}

} // verus!
