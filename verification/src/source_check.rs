//! The steps of reading a package from its GitHub source, in their order: the
//! credential of a private source, the commit reply, the package file reply
//! and the parsed package. The fields of each step are private, so a step is
//! reached only through the check of the one before it.

use crate::denial::Denial;
use crate::github::{canonical_github_url_of, github_repository_of};
use crate::skill::{valid_package, SourceSkill};
use crate::source::{
    commit_body_outcome, commit_endpoint, commit_endpoint_of, commit_status_outcome,
    content_endpoint, content_endpoint_of, content_outcome, content_status_outcome,
    content_verdict, credential_gate, credential_request, bound_verdict,
    equal_ignoring_ascii_case, lookup_view, opt_string_view, opt_view, reply_verdict, reply_view,
    source_path_outcome, source_repository, ContentReply,
};
use crate::validate::{is_secret_reference, is_source_path};
use vstd::prelude::*;

verus! {

/// What a source check asks GitHub for: the API base, the repository named by
/// the source URL, the commit and the package path.
pub struct SourceRequest {
    pub base: String,
    pub owner: String,
    pub repo: String,
    pub commit: String,
    pub path: String,
}

/// The text of a request: base, owner, repository, commit, path.
pub open spec fn request_view(r: SourceRequest) -> (Seq<char>, Seq<char>, Seq<char>, Seq<char>, Seq<char>) {
    (r.base@, r.owner@, r.repo@, r.commit@, r.path@)
}

/// A private source waits for its credential.
pub struct CredentialStep {
    request: SourceRequest,
    reference: String,
    expected_url: String,
}

/// The commit is to be confirmed.
pub struct CommitStep {
    request: SourceRequest,
    credential: Option<String>,
}

/// The commit is confirmed; the package file is to be read.
pub struct ContentStep {
    request: SourceRequest,
    credential: Option<String>,
}

/// The package file is read; its contents are to be parsed.
pub struct PackageStep {
    blob_sha: String,
    bytes: Vec<u8>,
}

/// Where a check starts: with the credential of a private source, or with
/// the commit.
pub enum SourceStart {
    Credential(CredentialStep),
    Commit(CommitStep),
}

impl CredentialStep {
    pub closed spec fn request(&self) -> SourceRequest {
        self.request
    }

    /// The credential reference named for the source.
    pub closed spec fn reference_view(&self) -> Seq<char> {
        self.reference@
    }

    /// The canonical URL the reference must be bound to.
    pub closed spec fn expected_url(&self) -> Seq<char> {
        self.expected_url@
    }

    /// The credential reference to look up.
    pub fn reference(&self) -> (out: &str)
        ensures
            out@ == self.reference_view(),
    {
        self.reference.as_str()
    }

    /// The binding of the reference in the workspace and the deployment's
    /// boundary for it, looked up; the credential's value is asked for next,
    /// and only when both name the source repository.
    pub fn check_binding(self, bound: Result<Option<String>, ()>, configured: Option<&str>) -> (out:
        Result<SecretStep, Denial>)
        ensures
            match bound_verdict(self.expected_url(), lookup_view(bound), opt_view(configured)) {
                Ok(()) => out matches Ok(s) && s.request() == self.request() && s.reference_view()
                    == self.reference_view(),
                Err(d) => out == Err::<SecretStep, Denial>(d),
            },
    {
        credential_gate(self.expected_url.as_str(), bound, configured)?;
        Ok(SecretStep { request: self.request, reference: self.reference })
    }
}

/// A private source whose binding and boundary passed waits for the
/// credential's value.
pub struct SecretStep {
    request: SourceRequest,
    reference: String,
}

impl SecretStep {
    pub closed spec fn request(&self) -> SourceRequest {
        self.request
    }

    /// The credential reference whose value to read.
    pub closed spec fn reference_view(&self) -> Seq<char> {
        self.reference@
    }

    /// The credential reference whose value to read.
    pub fn reference(&self) -> (out: &str)
        ensures
            out@ == self.reference_view(),
    {
        self.reference.as_str()
    }

    /// The credential's value as the deployment holds it (`None` when it
    /// holds none).
    pub fn take(self, credential: Option<String>) -> (out: Result<CommitStep, Denial>)
        ensures
            match credential {
                Some(c) => out matches Ok(s) && s.request() == self.request() && s.credential_view()
                    == Some(c@),
                None => out == Err::<CommitStep, Denial>(Denial::CredentialUnavailable),
            },
    {
        match credential {
            Some(c) => Ok(CommitStep { request: self.request, credential: Some(c) }),
            None => Err(Denial::CredentialUnavailable),
        }
    }
}

impl CommitStep {
    pub closed spec fn request(&self) -> SourceRequest {
        self.request
    }

    /// The credential the requests carry, if any.
    pub closed spec fn credential_view(&self) -> Option<Seq<char>> {
        opt_string_view(self.credential)
    }

    /// The commit verification URL of the request.
    pub fn endpoint(&self) -> (out: String)
        ensures
            out@ == commit_endpoint_of(
                self.request().base@,
                self.request().owner@,
                self.request().repo@,
                self.request().commit@,
            ),
    {
        commit_endpoint(
            self.request.base.as_str(),
            self.request.owner.as_str(),
            self.request.repo.as_str(),
            self.request.commit.as_str(),
        )
    }

    /// The bearer credential of the request, if any.
    pub fn credential(&self) -> (out: Option<&str>)
        ensures
            opt_view(out) == self.credential_view(),
    {
        match &self.credential {
            Some(c) => Some(c.as_str()),
            None => None,
        }
    }

    /// The commit reply: its status (`None` when the request could not be
    /// sent) and its `sha` (`Err` when the body is not JSON). The package path
    /// is checked once the commit is confirmed.
    pub fn accept(self, status: Option<u16>, sha: Result<Option<String>, ()>) -> (out: Result<ContentStep, Denial>)
        ensures
            match commit_verdict(status, lookup_view(sha), self.request().commit@, self.request().path@) {
                Ok(()) => out matches Ok(s) && s.request() == self.request() && s.credential_view()
                    == self.credential_view(),
                Err(d) => out == Err::<ContentStep, Denial>(d),
            },
    {
        commit_status_outcome(status)?;
        commit_body_outcome(sha, self.request.commit.as_str())?;
        source_path_outcome(self.request.path.as_str())?;
        Ok(ContentStep { request: self.request, credential: self.credential })
    }
}

/// The checks of the commit reply and then of the package path, in their
/// order.
pub open spec fn commit_verdict(
    status: Option<u16>,
    sha: Result<Option<Seq<char>>, ()>,
    commit: Seq<char>,
    path: Seq<char>,
) -> Result<(), Denial> {
    match reply_verdict(status, Denial::CommitUnavailable, Denial::CommitNotFound) {
        Err(d) => Err(d),
        Ok(()) => match sha {
            Err(_) => Err(Denial::CommitUnreadable),
            Ok(Some(s)) => if !equal_ignoring_ascii_case(s, commit) {
                Err(Denial::CommitMismatch)
            } else if !is_source_path(path) {
                Err(Denial::PackagePath)
            } else {
                Ok(())
            },
            Ok(None) => Err(Denial::CommitMismatch),
        },
    }
}

/// Law: the package file is read only after a successful commit reply whose
/// `sha` is the requested commit (ASCII case aside), and only at a safe
/// package path.
pub proof fn lemma_file_read_only_at_confirmed_commit(
    status: Option<u16>,
    sha: Result<Option<Seq<char>>, ()>,
    commit: Seq<char>,
    path: Seq<char>,
)
    requires
        commit_verdict(status, sha, commit, path) is Ok,
    ensures
        status matches Some(code) && 200 <= code <= 299,
        sha matches Ok(Some(s)) && equal_ignoring_ascii_case(s, commit),
        is_source_path(path),
{
}

impl ContentStep {
    /// The package path of a content step is safe.
    #[verifier::type_invariant]
    spec fn safe_path(&self) -> bool {
        is_source_path(self.request.path@)
    }

    pub closed spec fn request(&self) -> SourceRequest {
        self.request
    }

    /// The credential the requests carry, if any.
    pub closed spec fn credential_view(&self) -> Option<Seq<char>> {
        opt_string_view(self.credential)
    }

    /// The package file URL of the request; its path is a safe package path.
    pub fn endpoint(&self) -> (out: String)
        ensures
            out@ == content_endpoint_of(
                self.request().base@,
                self.request().owner@,
                self.request().repo@,
                self.request().path@,
                self.request().commit@,
            ),
            is_source_path(self.request().path@),
    {
        proof {
            use_type_invariant(self);
        }
        content_endpoint(
            self.request.base.as_str(),
            self.request.owner.as_str(),
            self.request.repo.as_str(),
            self.request.path.as_str(),
            self.request.commit.as_str(),
        )
    }

    /// The bearer credential of the request, if any.
    pub fn credential(&self) -> (out: Option<&str>)
        ensures
            opt_view(out) == self.credential_view(),
    {
        match &self.credential {
            Some(c) => Some(c.as_str()),
            None => None,
        }
    }

    /// The package file reply: its status (`None` when the request could not
    /// be sent) and its fields (`Err` when the body is not JSON).
    pub fn accept(self, status: Option<u16>, reply: Result<ContentReply, ()>) -> (out: Result<PackageStep, Denial>)
        ensures
            match reply_verdict(status, Denial::ContentUnavailable, Denial::ContentNotFound) {
                Err(d) => out == Err::<PackageStep, Denial>(d),
                Ok(()) => match content_verdict(reply_view(&reply)) {
                    Ok((s, b)) => out matches Ok(p) && p.blob_sha_view() == s && p.bytes_view() == b,
                    Err(d) => out == Err::<PackageStep, Denial>(d),
                },
            },
    {
        content_status_outcome(status)?;
        let file = content_outcome(reply)?;
        Ok(PackageStep { blob_sha: file.blob_sha, bytes: file.bytes })
    }
}

impl PackageStep {
    /// A package step holds the non-empty blob id of its file.
    #[verifier::type_invariant]
    spec fn has_blob(&self) -> bool {
        self.blob_sha@.len() > 0
    }

    /// Git's identifier of the package file.
    pub closed spec fn blob_sha_view(&self) -> Seq<char> {
        self.blob_sha@
    }

    /// The decoded contents of the package file.
    pub closed spec fn bytes_view(&self) -> Seq<u8> {
        self.bytes@
    }

    /// The contents to parse as a package.
    pub fn bytes(&self) -> (out: &[u8])
        ensures
            out@ == self.bytes_view(),
    {
        self.bytes.as_slice()
    }

    /// The last check of a source: the package parsed from the
    /// contents (`None` when they are not JSON with every package field) meets
    /// the package rules; the package and the file's blob id.
    pub fn finish(self, parsed: Option<SourceSkill>) -> (out: Result<(SourceSkill, String), Denial>)
        ensures
            match parsed {
                None => out == Err::<(SourceSkill, String), Denial>(Denial::PackageNotJson),
                Some(p) => if p.is_valid() {
                    out matches Ok((q, b)) && q == p && b@ == self.blob_sha_view() && b@.len() > 0
                } else {
                    out == Err::<(SourceSkill, String), Denial>(Denial::PackageInvalid)
                },
            },
    {
        proof {
            use_type_invariant(&self);
        }
        match parsed {
            None => Err(Denial::PackageNotJson),
            Some(p) => if valid_package(&p) {
                Ok((p, self.blob_sha))
            } else {
                Err(Denial::PackageInvalid)
            },
        }
    }
}

/// The start of a check of `url` at `commit` for the package at `path`: the
/// start of a private source waits for its credential, that of a public one
/// (no reference, or an empty one) goes to the commit.
pub open spec fn starts_at(
    out: Result<SourceStart, Denial>,
    req: (Seq<char>, Seq<char>, Seq<char>, Seq<char>, Seq<char>),
    reference: Option<Seq<char>>,
    url: Seq<char>,
) -> bool {
    match reference {
        Some(r) if r.len() > 0 => if !is_secret_reference(r) {
            out == Err::<SourceStart, Denial>(Denial::ReferenceName)
        } else {
            &&& out matches Ok(SourceStart::Credential(s))
            &&& request_view(s.request()) == req
            &&& s.reference_view() == r
            &&& canonical_github_url_of(url) == Some(s.expected_url())
        },
        _ => {
            &&& out matches Ok(SourceStart::Commit(s))
            &&& request_view(s.request()) == req
            &&& s.credential_view() is None
        },
    }
}

/// The first checks of a source: the source URL must name a GitHub
/// repository, and a credential reference, if one is given, must be a
/// reference name.
pub fn start_source_check(
    base: &str,
    url: &str,
    credential_ref: Option<&str>,
    commit: &str,
    path: &str,
) -> (out: Result<SourceStart, Denial>)
    ensures
        match github_repository_of(url@) {
            None => out == Err::<SourceStart, Denial>(Denial::SourceUrl),
            Some((o, r)) => starts_at(out, (base@, o, r, commit@, path@), opt_view(credential_ref), url@),
        },
{
    let (owner, repo) = source_repository(url)?;
    let request = SourceRequest {
        base: base.to_owned(),
        owner,
        repo,
        commit: commit.to_owned(),
        path: path.to_owned(),
    };
    match credential_request(credential_ref, url)? {
        None => Ok(SourceStart::Commit(CommitStep { request, credential: None })),
        Some(c) => Ok(
            SourceStart::Credential(
                CredentialStep { request, reference: c.reference, expected_url: c.expected_url },
            ),
        ),
    }
}

} // verus!
