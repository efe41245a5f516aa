//! Reading a package from its GitHub source: credential references and their
//! repository boundaries, the verification requests, and the checks of the
//! replies.

use base64::Engine;
use crate::denial::Denial;
use crate::github::{
    canonical_github_url, canonical_github_url_of, github_repository, github_repository_of,
    strip_trailing_slashes,
};
use crate::json::push_chars;
use crate::text::{chars_of, is_white_space, is_white_space_char, str_equals, string_from_chars};
use crate::validate::{is_secret_reference, is_source_path, valid_secret_reference, valid_source_path};
use vstd::prelude::*;
use vstd::utf8::encode_utf8;

verus! {

/// The repository boundary configured for a credential reference, in
/// canonical form.
pub open spec fn boundary_of(configured: Option<Seq<char>>) -> Result<Seq<char>, Denial> {
    match configured {
        None => Err(Denial::BoundaryMissing),
        Some(c) => match canonical_github_url_of(c) {
            Some(u) => Ok(u),
            None => Err(Denial::BoundaryInvalid),
        },
    }
}

/// The optional text of an optional string slice.
pub open spec fn opt_view(v: Option<&str>) -> Option<Seq<char>> {
    match v {
        Some(s) => Some(s@),
        None => None,
    }
}

/// The repository boundary of a credential reference, in canonical form,
/// from the value the deployment configures (`None` when it sets none).
pub fn configured_boundary(configured: Option<&str>) -> (out: Result<String, Denial>)
    ensures
        match boundary_of(opt_view(configured)) {
            Ok(u) => out matches Ok(s) && s@ == u,
            Err(d) => out == Err::<String, Denial>(d),
        },
{
    match configured {
        None => Err(Denial::BoundaryMissing),
        Some(c) => match canonical_github_url(c) {
            Some(u) => Ok(u),
            None => Err(Denial::BoundaryInvalid),
        },
    }
}

/// A credential reference named for a private source, with the canonical URL
/// it must be bound to.
pub struct CredentialRequest {
    pub reference: String,
    pub expected_url: String,
}

/// The first checks of a source's credential: no (or an empty) reference
/// asks for nothing; otherwise it must be a reference name, and the source a
/// GitHub repository URL.
pub fn credential_request(reference: Option<&str>, git_url: &str) -> (out: Result<Option<CredentialRequest>, Denial>)
    ensures
        match reference {
            None => out matches Ok(None),
            Some(r) => if r@.len() == 0 {
                out matches Ok(None)
            } else if !is_secret_reference(r@) {
                out == Err::<Option<CredentialRequest>, Denial>(Denial::ReferenceName)
            } else {
                match canonical_github_url_of(git_url@) {
                    None => out == Err::<Option<CredentialRequest>, Denial>(Denial::SourceUrl),
                    Some(u) => out matches Ok(Some(c)) && c.reference@ == r@ && c.expected_url@ == u,
                }
            },
        },
{
    let r = match reference {
        None => return Ok(None),
        Some(r) => r,
    };
    if chars_of(r).len() == 0 {
        return Ok(None);
    }
    if !valid_secret_reference(r) {
        return Err(Denial::ReferenceName);
    }
    match canonical_github_url(git_url) {
        None => Err(Denial::SourceUrl),
        Some(u) => Ok(Some(CredentialRequest { reference: r.to_owned(), expected_url: u })),
    }
}

/// The checks of a source's credential reference before its value is read,
/// in their order: the workspace binding of the reference must name the
/// source repository, and the deployment's boundary for the reference must
/// be that repository.
pub open spec fn bound_verdict(
    expected_url: Seq<char>,
    bound: Result<Option<Seq<char>>, ()>,
    configured: Option<Seq<char>>,
) -> Result<(), Denial> {
    match bound {
        Err(_) => Err(Denial::BindingCheckFailed),
        Ok(b) => if b != Some(expected_url) {
            Err(Denial::ReferenceNotBound)
        } else {
            match boundary_of(configured) {
                Err(d) => Err(d),
                Ok(u) => if u != expected_url {
                    Err(Denial::ReferenceCannotRead)
                } else {
                    Ok(())
                },
            }
        },
    }
}

/// The optional text of an optional string.
pub open spec fn opt_string_view(v: Option<String>) -> Option<Seq<char>> {
    match v {
        Some(s) => Some(s@),
        None => None,
    }
}

/// The lookup result as text.
pub open spec fn lookup_view(v: Result<Option<String>, ()>) -> Result<Option<Seq<char>>, ()> {
    match v {
        Ok(o) => Ok(opt_string_view(o)),
        Err(e) => Err(e),
    }
}

/// The decision on a source's credential reference once its binding and the
/// configured boundary have been looked up; the credential's value is read
/// only when this passes.
pub fn credential_gate(
    expected_url: &str,
    bound: Result<Option<String>, ()>,
    configured: Option<&str>,
) -> (out: Result<(), Denial>)
    ensures
        out == bound_verdict(expected_url@, lookup_view(bound), opt_view(configured)),
{
    let b = match bound {
        Err(_) => return Err(Denial::BindingCheckFailed),
        Ok(b) => b,
    };
    match &b {
        Some(u) => if !str_equals(u.as_str(), expected_url) {
            return Err(Denial::ReferenceNotBound);
        },
        None => return Err(Denial::ReferenceNotBound),
    }
    let boundary = configured_boundary(configured)?;
    if !str_equals(boundary.as_str(), expected_url) {
        return Err(Denial::ReferenceCannotRead);
    }
    Ok(())
}

/// Law: a private credential's value is read, and handed out, only for the
/// repository that both the workspace binding and the deployment boundary
/// name.
pub proof fn lemma_credential_stays_in_its_repository(
    expected_url: Seq<char>,
    bound: Result<Option<Seq<char>>, ()>,
    configured: Option<Seq<char>>,
)
    requires
        bound_verdict(expected_url, bound, configured) is Ok,
    ensures
        bound == Ok::<Option<Seq<char>>, ()>(Some(expected_url)),
        boundary_of(configured) == Ok::<Seq<char>, Denial>(expected_url),
{
}

/// The first checks of binding a credential reference: a reference name
/// and a GitHub repository URL; the canonical URL to bind.
pub fn binding_request(reference: &str, git_url: &str) -> (out: Result<String, Denial>)
    ensures
        !is_secret_reference(reference@) ==> out == Err::<String, Denial>(Denial::ReferenceName),
        is_secret_reference(reference@) ==> match canonical_github_url_of(git_url@) {
            None => out == Err::<String, Denial>(Denial::BindingUrl),
            Some(u) => out matches Ok(s) && s@ == u,
        },
{
    if !valid_secret_reference(reference) {
        return Err(Denial::ReferenceName);
    }
    match canonical_github_url(git_url) {
        None => Err(Denial::BindingUrl),
        Some(u) => Ok(u),
    }
}

/// The checks of binding a credential reference after its lookups, in their
/// order: the deployment's boundary is the repository, the deployment holds
/// the credential, and no other workspace holds the reference.
pub open spec fn binding_verdict(
    git_url: Seq<char>,
    configured: Option<Seq<char>>,
    credential_available: bool,
    existing: Result<Option<Seq<char>>, ()>,
    workspace_id: Seq<char>,
) -> Result<(), Denial> {
    match boundary_of(configured) {
        Err(d) => Err(d),
        Ok(u) => if u != git_url {
            Err(Denial::BindingRepository)
        } else if !credential_available {
            Err(Denial::CredentialUnavailable)
        } else {
            match existing {
                Err(_) => Err(Denial::BindingCheckFailed),
                Ok(Some(owner)) => if owner != workspace_id {
                    Err(Denial::ReferenceTaken)
                } else {
                    Ok(())
                },
                Ok(None) => Ok(()),
            }
        },
    }
}

/// The first check of binding a credential reference after the deployment's
/// boundary is read: it must be the repository to bind. (The credential's
/// presence and the existing binding are looked up only when this passes.)
pub fn binding_boundary(git_url: &str, configured: Option<&str>) -> (out: Result<(), Denial>)
    ensures
        out == match boundary_of(opt_view(configured)) {
            Err(d) => Err(d),
            Ok(u) => if u != git_url@ {
                Err(Denial::BindingRepository)
            } else {
                Ok::<(), Denial>(())
            },
        },
{
    let boundary = configured_boundary(configured)?;
    if !str_equals(boundary.as_str(), git_url) {
        return Err(Denial::BindingRepository);
    }
    Ok(())
}

/// The decision on binding a credential reference once its lookups are done.
pub fn binding_decision(
    git_url: &str,
    configured: Option<&str>,
    credential_available: bool,
    existing: Result<Option<String>, ()>,
    workspace_id: &str,
) -> (out: Result<(), Denial>)
    ensures
        out == binding_verdict(git_url@, opt_view(configured), credential_available, lookup_view(existing), workspace_id@),
{
    let boundary = configured_boundary(configured)?;
    if !str_equals(boundary.as_str(), git_url) {
        return Err(Denial::BindingRepository);
    }
    if !credential_available {
        return Err(Denial::CredentialUnavailable);
    }
    match existing {
        Err(_) => Err(Denial::BindingCheckFailed),
        Ok(Some(owner)) => if !str_equals(owner.as_str(), workspace_id) {
            Err(Denial::ReferenceTaken)
        } else {
            Ok(())
        },
        Ok(None) => Ok(()),
    }
}

/// Law: a reference bound by one workspace cannot be bound by another.
pub proof fn lemma_reference_has_one_workspace(
    git_url: Seq<char>,
    configured: Option<Seq<char>>,
    credential_available: bool,
    owner: Seq<char>,
    workspace_id: Seq<char>,
)
    requires
        owner != workspace_id,
    ensures
        binding_verdict(git_url, configured, credential_available, Ok(Some(owner)), workspace_id)
            is Err,
{
}

/// The repository a source URL names, or the refusal for another URL.
pub fn source_repository(url: &str) -> (out: Result<(String, String), Denial>)
    ensures
        match github_repository_of(url@) {
            Some((owner, repo)) => out matches Ok(pair) && pair.0@ == owner && pair.1@ == repo,
            None => out == Err::<(String, String), Denial>(Denial::SourceUrl),
        },
{
    match github_repository(url) {
        Some(pair) => Ok(pair),
        None => Err(Denial::SourceUrl),
    }
}

/// The commit verification URL: the API base without trailing slashes, then
/// `/repos/{owner}/{repo}/commits/{commit}`.
pub open spec fn commit_endpoint_of(base: Seq<char>, owner: Seq<char>, repo: Seq<char>, commit: Seq<char>) -> Seq<char> {
    strip_trailing_slashes(base) + "/repos/"@ + owner + seq!['/'] + repo + "/commits/"@ + commit
}

/// The package file URL: the API base without trailing slashes, then
/// `/repos/{owner}/{repo}/contents/{path}?ref={commit}`.
pub open spec fn content_endpoint_of(
    base: Seq<char>,
    owner: Seq<char>,
    repo: Seq<char>,
    path: Seq<char>,
    commit: Seq<char>,
) -> Seq<char> {
    strip_trailing_slashes(base) + "/repos/"@ + owner + seq!['/'] + repo + "/contents/"@ + path
        + "?ref="@ + commit
}

fn base_chars(base: &str) -> (out: Vec<char>)
    ensures
        out@ == strip_trailing_slashes(base@),
{
    let b = chars_of(base);
    let mut e: usize = b.len();
    while e > 0 && b[e - 1] == '/'
        invariant
            e <= b@.len(),
            forall|j: int| e <= j < b@.len() ==> b@[j] == '/',
        decreases e,
    {
        e = e - 1;
    }
    proof {
        lemma_strip_is_prefix(b@, e as int);
    }
    crate::text::slice_chars(b.as_slice(), 0, e)
}

proof fn lemma_strip_is_prefix(s: Seq<char>, e: int)
    requires
        0 <= e <= s.len(),
        forall|j: int| e <= j < s.len() ==> s[j] == '/',
        e == 0 || s[e - 1] != '/',
    ensures
        strip_trailing_slashes(s) == s.subrange(0, e),
    decreases s.len(),
{
    if s.len() > e {
        lemma_strip_is_prefix(s.drop_last(), e);
        assert(s.drop_last().subrange(0, e) =~= s.subrange(0, e));
    } else {
        assert(s.subrange(0, e) =~= s);
    }
}

/// The commit verification URL.
pub fn commit_endpoint(base: &str, owner: &str, repo: &str, commit: &str) -> (out: String)
    ensures
        out@ == commit_endpoint_of(base@, owner@, repo@, commit@),
{
    let mut v = base_chars(base);
    let ghost b = v@;
    push_chars(&mut v, chars_of("/repos/").as_slice());
    push_chars(&mut v, chars_of(owner).as_slice());
    v.push('/');
    push_chars(&mut v, chars_of(repo).as_slice());
    push_chars(&mut v, chars_of("/commits/").as_slice());
    push_chars(&mut v, chars_of(commit).as_slice());
    assert(v@ =~= b + "/repos/"@ + owner@ + seq!['/'] + repo@ + "/commits/"@ + commit@);
    string_from_chars(v.as_slice())
}

/// The package file URL.
pub fn content_endpoint(base: &str, owner: &str, repo: &str, path: &str, commit: &str) -> (out: String)
    ensures
        out@ == content_endpoint_of(base@, owner@, repo@, path@, commit@),
{
    let mut v = base_chars(base);
    let ghost b = v@;
    push_chars(&mut v, chars_of("/repos/").as_slice());
    push_chars(&mut v, chars_of(owner).as_slice());
    v.push('/');
    push_chars(&mut v, chars_of(repo).as_slice());
    push_chars(&mut v, chars_of("/contents/").as_slice());
    push_chars(&mut v, chars_of(path).as_slice());
    push_chars(&mut v, chars_of("?ref=").as_slice());
    push_chars(&mut v, chars_of(commit).as_slice());
    assert(v@ =~= b + "/repos/"@ + owner@ + seq!['/'] + repo@ + "/contents/"@ + path@
        + "?ref="@ + commit@);
    string_from_chars(v.as_slice())
}

/// The answer to a verification request by its HTTP status (`None` when the
/// request could not be sent): 404 is a missing object, any other status
/// outside 200..=299 an unavailable service.
pub open spec fn reply_verdict(status: Option<u16>, unavailable: Denial, not_found: Denial) -> Result<(), Denial> {
    match status {
        None => Err(unavailable),
        Some(s) => if s == 404 {
            Err(not_found)
        } else if !(200 <= s <= 299) {
            Err(unavailable)
        } else {
            Ok(())
        },
    }
}

/// The answer to the commit request by its status.
pub fn commit_status_outcome(status: Option<u16>) -> (out: Result<(), Denial>)
    ensures
        out == reply_verdict(status, Denial::CommitUnavailable, Denial::CommitNotFound),
{
    match status {
        None => Err(Denial::CommitUnavailable),
        Some(s) => if s == 404 {
            Err(Denial::CommitNotFound)
        } else if !(200 <= s && s <= 299) {
            Err(Denial::CommitUnavailable)
        } else {
            Ok(())
        },
    }
}

/// The answer to the package file request by its status.
pub fn content_status_outcome(status: Option<u16>) -> (out: Result<(), Denial>)
    ensures
        out == reply_verdict(status, Denial::ContentUnavailable, Denial::ContentNotFound),
{
    match status {
        None => Err(Denial::ContentUnavailable),
        Some(s) => if s == 404 {
            Err(Denial::ContentNotFound)
        } else if !(200 <= s && s <= 299) {
            Err(Denial::ContentUnavailable)
        } else {
            Ok(())
        },
    }
}

/// ASCII upper-case letters in lower case; every other character unchanged.
pub open spec fn ascii_lower(c: char) -> char {
    if 'A' <= c <= 'Z' {
        ((c as u32) + 32) as char
    } else {
        c
    }
}

/// `str::eq_ignore_ascii_case`.
pub open spec fn equal_ignoring_ascii_case(a: Seq<char>, b: Seq<char>) -> bool {
    a.len() == b.len() && forall|i: int| 0 <= i < a.len() ==> ascii_lower(#[trigger] a[i]) == ascii_lower(b[i])
}

fn lower(c: char) -> (out: char)
    ensures
        out == ascii_lower(c),
{
    if 'A' <= c && c <= 'Z' {
        ((c as u32) + 32) as u8 as char
    } else {
        c
    }
}

fn equals_ignoring_ascii_case(a: &str, b: &str) -> (r: bool)
    ensures
        r == equal_ignoring_ascii_case(a@, b@),
{
    let x = chars_of(a);
    let y = chars_of(b);
    if x.len() != y.len() {
        return false;
    }
    let mut i: usize = 0;
    while i < x.len()
        invariant
            x@ == a@,
            y@ == b@,
            x@.len() == y@.len(),
            i <= x@.len(),
            forall|j: int| 0 <= j < i ==> ascii_lower(#[trigger] x@[j]) == ascii_lower(y@[j]),
        decreases x.len() - i,
    {
        if lower(x[i]) != lower(y[i]) {
            return false;
        }
        i = i + 1;
    }
    true
}

/// The commit reply's `sha` must be the requested commit, ASCII case aside;
/// `Err` when the reply body is not JSON, `Ok(None)` when it holds no string
/// `sha`.
pub fn commit_body_outcome(sha: Result<Option<String>, ()>, commit: &str) -> (out: Result<(), Denial>)
    ensures
        out == match lookup_view(sha) {
            Err(_) => Err(Denial::CommitUnreadable),
            Ok(Some(s)) => if equal_ignoring_ascii_case(s, commit@) {
                Ok::<(), Denial>(())
            } else {
                Err(Denial::CommitMismatch)
            },
            Ok(None) => Err(Denial::CommitMismatch),
        },
{
    match sha {
        Err(_) => Err(Denial::CommitUnreadable),
        Ok(Some(s)) => if equals_ignoring_ascii_case(s.as_str(), commit) {
            Ok(())
        } else {
            Err(Denial::CommitMismatch)
        },
        Ok(None) => Err(Denial::CommitMismatch),
    }
}

/// The package path must be safe before the file is requested.
pub fn source_path_outcome(path: &str) -> (out: Result<(), Denial>)
    ensures
        out == if is_source_path(path@) {
            Ok::<(), Denial>(())
        } else {
            Err(Denial::PackagePath)
        },
{
    if valid_source_path(path) {
        Ok(())
    } else {
        Err(Denial::PackagePath)
    }
}

/// `s` without its white-space characters.
pub open spec fn drop_white_space(s: Seq<char>) -> Seq<char>
    decreases s.len(),
{
    if s.len() == 0 {
        Seq::empty()
    } else if is_white_space(s.last()) {
        drop_white_space(s.drop_last())
    } else {
        drop_white_space(s.drop_last()).push(s.last())
    }
}

/// What the standard base64 engine of `base64` decodes a byte string to:
/// `None` when it refuses the input.
pub uninterp spec fn base64_decoded_of(data: Seq<u8>) -> Option<Seq<u8>>;

/// `base64::engine::general_purpose::STANDARD.decode`: the contract claims
/// the outcome is the named function of the input.
#[verifier::external_body]
fn base64_decode(data: &[u8]) -> (out: Option<Vec<u8>>)
    ensures
        match base64_decoded_of(data@) {
            Some(b) => out matches Some(v) && v@ == b,
            None => out is None,
        },
{
    base64::engine::general_purpose::STANDARD.decode(data).ok()
}

/// The package file reply's fields: its blob `sha` and its `content`, each
/// `None` when absent or not a string.
pub struct ContentReply {
    pub sha: Option<String>,
    pub content: Option<String>,
}

/// The package file read from a reply: its blob id and the decoded bytes.
pub struct SourceFile {
    pub blob_sha: String,
    pub bytes: Vec<u8>,
}

/// The checks of the package file reply, in their order: a readable reply, a
/// non-empty blob id, a content string, and base64 once white space is
/// removed.
pub open spec fn content_verdict(reply: Result<(Option<Seq<char>>, Option<Seq<char>>), ()>) -> Result<(Seq<char>, Seq<u8>), Denial> {
    match reply {
        Err(_) => Err(Denial::ContentUnreadable),
        Ok((sha, content)) => match sha {
            None => Err(Denial::BlobMissing),
            Some(s) => if s.len() == 0 {
                Err(Denial::BlobMissing)
            } else {
                match content {
                    None => Err(Denial::ContentMissing),
                    Some(c) => match base64_decoded_of(encode_utf8(drop_white_space(c))) {
                        None => Err(Denial::ContentNotBase64),
                        Some(b) => Ok((s, b)),
                    },
                }
            },
        },
    }
}

/// The reply fields as text.
pub open spec fn reply_view(reply: &Result<ContentReply, ()>) -> Result<(Option<Seq<char>>, Option<Seq<char>>), ()> {
    match reply {
        Err(_) => Err(()),
        Ok(r) => Ok((opt_string_view(r.sha), opt_string_view(r.content))),
    }
}

/// The checks of the package file reply; the blob id and decoded bytes.
pub fn content_outcome(reply: Result<ContentReply, ()>) -> (out: Result<SourceFile, Denial>)
    ensures
        match content_verdict(reply_view(&reply)) {
            Ok((s, b)) => out matches Ok(f) && f.blob_sha@ == s && f.bytes@ == b,
            Err(d) => out matches Err(e) && e == d,
        },
{
    let r = match reply {
        Err(_) => return Err(Denial::ContentUnreadable),
        Ok(r) => r,
    };
    let sha = match r.sha {
        None => return Err(Denial::BlobMissing),
        Some(s) => s,
    };
    if chars_of(sha.as_str()).len() == 0 {
        return Err(Denial::BlobMissing);
    }
    let content = match r.content {
        None => return Err(Denial::ContentMissing),
        Some(c) => c,
    };
    let chars = chars_of(content.as_str());
    let mut compact: Vec<char> = Vec::new();
    let mut i: usize = 0;
    while i < chars.len()
        invariant
            i <= chars@.len(),
            compact@ == drop_white_space(chars@.subrange(0, i as int)),
        decreases chars.len() - i,
    {
        let c = chars[i];
        proof {
            let p = chars@.subrange(0, i + 1);
            assert(p.drop_last() =~= chars@.subrange(0, i as int));
        }
        if !is_white_space_char(c) {
            compact.push(c);
        }
        i = i + 1;
    }
    assert(chars@.subrange(0, chars@.len() as int) =~= chars@);
    let text = string_from_chars(compact.as_slice());
    match base64_decode(text.as_str().as_bytes()) {
        None => Err(Denial::ContentNotBase64),
        Some(bytes) => Ok(SourceFile { blob_sha: sha, bytes }),
    }
}

} // verus!

verus! {

/// The commit as a publication uses it: ASCII letters in lower case.
pub open spec fn lowered(s: Seq<char>) -> Seq<char> {
    Seq::new(s.len(), |i: int| ascii_lower(s[i]))
}

/// The first checks of a publication: the commit, in lower case, must be a
/// 40-digit commit id and the path a safe package path.
pub fn publication_request(commit: &str, path: &str) -> (out: Result<String, Denial>)
    ensures
        (crate::validate::is_commit(lowered(commit@)) && is_source_path(path@)) ==> (out matches Ok(
            c,
        ) && c@ == lowered(commit@)),
        !(crate::validate::is_commit(lowered(commit@)) && is_source_path(path@)) ==> out == Err::<
            String,
            Denial,
        >(Denial::CommitAndPath),
{
    let chars = chars_of(commit);
    let mut v: Vec<char> = Vec::new();
    let mut i: usize = 0;
    while i < chars.len()
        invariant
            i <= chars@.len(),
            v@.len() == i,
            forall|j: int| 0 <= j < i ==> v@[j] == ascii_lower(#[trigger] chars@[j]),
        decreases chars.len() - i,
    {
        v.push(lower(chars[i]));
        i = i + 1;
    }
    assert(v@ =~= lowered(commit@));
    let c = string_from_chars(v.as_slice());
    if !crate::validate::valid_commit(c.as_str()) || !valid_source_path(path) {
        return Err(Denial::CommitAndPath);
    }
    Ok(c)
}

/// Whether `t` occurs in `s`.
pub open spec fn contains_text(s: Seq<char>, t: Seq<char>) -> bool {
    exists|i: int| 0 <= i && i + t.len() <= s.len() && #[trigger] s.subrange(i, i + t.len()) == t
}

/// The refusal of a failed package insert with error text `text`: a
/// duplicate package when the text holds `UNIQUE`, else a failed publish.
pub open spec fn insert_refusal(text: Seq<char>) -> Denial {
    if contains_text(text, "UNIQUE"@) {
        Denial::PackageExists
    } else {
        Denial::PublishFailed
    }
}

/// Law: a failed package insert is refused as a duplicate package exactly
/// when the database's error text holds the word `UNIQUE` somewhere in it:
/// any text `a`, then `UNIQUE`, then any text `b` is a duplicate, and a text
/// refused as a duplicate is of that form.
pub proof fn lemma_unique_anywhere_is_duplicate(a: Seq<char>, b: Seq<char>, text: Seq<char>)
    ensures
        insert_refusal(a + "UNIQUE"@ + b) == Denial::PackageExists,
        insert_refusal(text) == Denial::PackageExists ==> exists|x: Seq<char>, y: Seq<char>|
            text == x + "UNIQUE"@ + y,
        insert_refusal(text) != Denial::PackageExists ==> insert_refusal(text) == Denial::PublishFailed,
{
    let u = "UNIQUE"@;
    let s = a + u + b;
    assert(s.subrange(a.len() as int, (a.len() + u.len()) as int) =~= u);
    if contains_text(text, u) {
        let i = choose|i: int| 0 <= i && i + u.len() <= text.len() && #[trigger] text.subrange(i, i + u.len()) == u;
        let x = text.subrange(0, i);
        let y = text.subrange(i + u.len(), text.len() as int);
        assert(text =~= x + u + y);
    }
}

/// The refusal for a failed package insert: a uniqueness conflict (the
/// database error names `UNIQUE`) is a duplicate package.
pub fn publish_failure(error_text: &str) -> (d: Denial)
    ensures
        d == insert_refusal(error_text@),
{
    let s = chars_of(error_text);
    let t = chars_of("UNIQUE");
    if t.len() > s.len() {
        assert(!contains_text(error_text@, "UNIQUE"@));
        return Denial::PublishFailed;
    }
    let mut i: usize = 0;
    let n = s.len();
    let m = t.len();
    let last = n - m;
    while i <= last
        invariant
            n == s@.len(),
            m == t@.len(),
            last == s@.len() - t@.len(),
            s@ == error_text@,
            t@ == "UNIQUE"@,
            t@.len() <= s@.len(),
            i <= last + 1,
            forall|j: int| 0 <= j < i ==> #[trigger] s@.subrange(j, j + t@.len()) != t@,
        decreases last + 1 - i,
    {
        let piece = crate::text::slice_chars(s.as_slice(), i, i + m);
        let mut k: usize = 0;
        let mut same = true;
        while k < t.len()
            invariant
                piece@.len() == t@.len(),
                k <= t@.len(),
                same == forall|j: int| 0 <= j < k ==> piece@[j] == t@[j],
            decreases t.len() - k,
        {
            if piece[k] != t[k] {
                same = false;
            }
            k = k + 1;
        }
        if same {
            assert(piece@ =~= t@);
            return Denial::PackageExists;
        }
        i = i + 1;
    }
    Denial::PublishFailed
}

/// Law: removing white space leaves no white space, keeps every other
/// character in order, and leaves a text without white space as it is.
pub proof fn lemma_drop_white_space(s: Seq<char>)
    ensures
        forall|i: int|
            0 <= i < drop_white_space(s).len() ==> !is_white_space(#[trigger] drop_white_space(s)[i]),
        drop_white_space(s).len() <= s.len(),
        (forall|i: int| 0 <= i < s.len() ==> !is_white_space(#[trigger] s[i])) ==> drop_white_space(s)
            == s,
    decreases s.len(),
{
    if s.len() > 0 {
        lemma_drop_white_space(s.drop_last());
        if forall|i: int| 0 <= i < s.len() ==> !is_white_space(#[trigger] s[i]) {
            assert forall|i: int| 0 <= i < s.drop_last().len() implies !is_white_space(
                #[trigger] s.drop_last()[i],
            ) by {
                assert(s.drop_last()[i] == s[i]);
            }
            assert(!is_white_space(s[s.len() - 1]));
            assert(s.drop_last().push(s.last()) =~= s);
        }
    }
}

/// Law: a commit in lower case holds no upper-case ASCII letter, keeps its
/// length and every other character, and matches the commit it came from
/// when ASCII case is ignored.
pub proof fn lemma_lowered_commit(s: Seq<char>)
    ensures
        lowered(s).len() == s.len(),
        forall|i: int| 0 <= i < s.len() ==> !('A' <= #[trigger] lowered(s)[i] <= 'Z'),
        forall|i: int| 0 <= i < s.len() && !('A' <= s[i] <= 'Z') ==> #[trigger] lowered(s)[i] == s[i],
        equal_ignoring_ascii_case(lowered(s), s),
{
    assert forall|i: int| 0 <= i < s.len() implies !('A' <= #[trigger] lowered(s)[i] <= 'Z') by {
        if 'A' <= s[i] <= 'Z' {
            assert((s[i] as u32) + 32 >= 97);
        }
    }
    assert forall|i: int| 0 <= i < lowered(s).len() implies ascii_lower(#[trigger] lowered(s)[i])
        == ascii_lower(s[i]) by {
        if 'A' <= s[i] <= 'Z' {
            assert((s[i] as u32) + 32 >= 97);
        }
    }
}

} // verus!
