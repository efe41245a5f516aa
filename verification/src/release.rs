//! Release rings and what they open: ring changes, install credentials,
//! installs and execution receipts.

use crate::crypto::{hash, prefixed_token, SignerKey};
use crate::denial::Denial;
use crate::hexcode::hex_lower;
use crate::json::{json_array, json_map, pair_views, stored_list, stored_map};
use crate::package::{package_is_valid, package_verifies, StoredSkill};
use crate::skill::{contains_string, SourceSkill};
use crate::text::{is_valid_text, str_equals, valid_text};
use crate::validate::{is_ring, valid_ring};
use crate::crypto::{ed25519_public_of, hex_signature_accepts, sha256_of};
use crate::hexcode::{hex_decode, lemma_hex_roundtrip};
use crate::package::{package_payload, stored_fields};
use vstd::prelude::*;
use vstd::utf8::encode_utf8;

verus! {

broadcast use vstd::string::group_string_axioms;

/// Whether a repository receives a package in a ring: the full release
/// reaches every assigned repository, the pilot only the pilot cohort, and no
/// other ring reaches any repository.
pub open spec fn released_to(
    ring: Seq<char>,
    repositories: Seq<Seq<char>>,
    pilots: Seq<Seq<char>>,
    repository: Seq<char>,
) -> bool {
    if ring == "all"@ {
        repositories.contains(repository)
    } else if ring == "pilot"@ {
        pilots.contains(repository)
    } else {
        false
    }
}

/// Whether a stored package is released to a repository.
pub open spec fn stored_released_to(skill: &StoredSkill, repository: Seq<char>) -> bool {
    released_to(
        skill.ring@,
        stored_list(skill.repositories@),
        stored_list(skill.pilot_repositories@),
        repository,
    )
}

/// Whether a stored package is released to `repository`.
pub fn repository_is_released(skill: &StoredSkill, repository: &str) -> (b: bool)
    ensures
        b == stored_released_to(skill, repository@),
{
    if str_equals(skill.ring.as_str(), "all") {
        let items = json_array(skill.repositories.as_str());
        contains_string(items.as_slice(), repository)
    } else if str_equals(skill.ring.as_str(), "pilot") {
        let items = json_array(skill.pilot_repositories.as_str());
        contains_string(items.as_slice(), repository)
    } else {
        false
    }
}

/// Law: for a valid package, whatever the pilot ring reaches the full
/// release reaches too, and neither reaches a repository that is not
/// assigned.
pub proof fn lemma_rings_reach_assigned_repositories(input: &SourceSkill, repository: Seq<char>)
    requires
        input.is_valid(),
    ensures
        released_to("pilot"@, input.repositories_view(), input.pilots_view(), repository)
            ==> released_to("all"@, input.repositories_view(), input.pilots_view(), repository),
        forall|ring: Seq<char>|
            released_to(ring, input.repositories_view(), input.pilots_view(), repository)
                ==> #[trigger] input.repositories_view().contains(repository),
{
    if input.pilots_view().contains(repository) {
        crate::skill::lemma_pilots_are_assigned(input, repository);
    }
    assert("pilot"@ != "all"@) by {
        reveal_strlit("pilot");
        reveal_strlit("all");
        assert("pilot"@.len() != "all"@.len());
    }
}

/// Law: draft and review packages reach no repository.
pub proof fn lemma_unreleased_rings_reach_nothing(
    repositories: Seq<Seq<char>>,
    pilots: Seq<Seq<char>>,
    repository: Seq<char>,
)
    ensures
        !released_to("draft"@, repositories, pilots, repository),
        !released_to("review"@, repositories, pilots, repository),
{
    reveal_strlit("draft");
    reveal_strlit("review");
    reveal_strlit("pilot");
    reveal_strlit("all");
    assert("draft"@[0] != "pilot"@[0]);
    assert("draft"@.len() != "all"@.len());
    assert("review"@.len() != "pilot"@.len());
    assert("review"@.len() != "all"@.len());
}

/// The rings that need a recorded review: pilot and full release.
pub open spec fn needs_review(ring: Seq<char>) -> bool {
    ring == "pilot"@ || ring == "all"@
}

/// The check of a requested ring change: a known ring, and whether it needs
/// a recorded review.
pub fn ring_request(ring: &str) -> (out: Result<bool, Denial>)
    ensures
        is_ring(ring@) ==> out == Ok::<bool, Denial>(needs_review(ring@)),
        !is_ring(ring@) ==> out == Err::<bool, Denial>(Denial::RingInvalid),
{
    if !valid_ring(ring) {
        return Err(Denial::RingInvalid);
    }
    Ok(str_equals(ring, "pilot") || str_equals(ring, "all"))
}

/// The answer to a ring update, from the number of rows it changed (the
/// update applies to pilot and full release only once reviewed).
pub fn ring_update_outcome(needs_review: bool, changed: Result<u64, ()>) -> (out: Result<(), Denial>)
    ensures
        out == match changed {
            Ok(n) => if n == 1 {
                Ok(())
            } else if needs_review {
                Err(Denial::ReviewRequired)
            } else {
                Err(Denial::SkillMissing)
            },
            Err(_) => Err(Denial::RingNotSaved),
        },
{
    match changed {
        Ok(n) => if n == 1 {
            Ok(())
        } else if needs_review {
            Err(Denial::ReviewRequired)
        } else {
            Err(Denial::SkillMissing)
        },
        Err(_) => Err(Denial::RingNotSaved),
    }
}

/// The answer to looking up one package of a workspace.
pub fn skill_lookup_outcome(row: Result<Option<StoredSkill>, ()>) -> (out: Result<StoredSkill, Denial>)
    ensures
        match row {
            Ok(Some(s)) => out == Ok::<StoredSkill, Denial>(s),
            Ok(None) => out == Err::<StoredSkill, Denial>(Denial::SkillMissing),
            Err(_) => out == Err::<StoredSkill, Denial>(Denial::SkillCheckFailed),
        },
{
    match row {
        Ok(Some(s)) => Ok(s),
        Ok(None) => Err(Denial::SkillMissing),
        Err(_) => Err(Denial::SkillCheckFailed),
    }
}

/// The check of an install credential request: repository and agent are
/// named.
pub fn install_credential_request(repository: &str, agent: &str) -> (out: Result<(), Denial>)
    ensures
        out == if is_valid_text(repository@, 160) && is_valid_text(agent@, 80) {
            Ok::<(), Denial>(())
        } else {
            Err(Denial::NameRepositoryAndAgent)
        },
{
    if !valid_text(repository, 160) || !valid_text(agent, 80) {
        return Err(Denial::NameRepositoryAndAgent);
    }
    Ok(())
}

/// A scoped install credential and the hash it is stored as.
pub struct InstallGrant {
    pub credential: String,
    pub credential_hash: String,
}

/// Issues an install credential for a repository and agent that the package
/// assigns.
pub fn issue_install_grant(skill: &StoredSkill, repository: &str, agent: &str) -> (out: Result<InstallGrant, Denial>)
    ensures
        !(stored_list(skill.repositories@).contains(repository@) && stored_list(
            skill.targets@,
        ).contains(agent@)) ==> out == Err::<InstallGrant, Denial>(Denial::CredentialScope),
        stored_list(skill.repositories@).contains(repository@) && stored_list(
            skill.targets@,
        ).contains(agent@) ==> (out == Err::<InstallGrant, Denial>(Denial::RandomUnavailable) || (
        out matches Ok(g) && (exists|b: Seq<u8>|
            b.len() == 24 && g.credential@ == "tsr_install_"@ + hex_lower(b))
            && g.credential_hash@ == hex_lower(sha256_of(encode_utf8(g.credential@))))),
{
    let repositories = json_array(skill.repositories.as_str());
    let targets = json_array(skill.targets.as_str());
    if !contains_string(repositories.as_slice(), repository) || !contains_string(
        targets.as_slice(),
        agent,
    ) {
        return Err(Denial::CredentialScope);
    }
    let credential = match prefixed_token("tsr_install_", 24) {
        Some(c) => c,
        None => return Err(Denial::RandomUnavailable),
    };
    let credential_hash = hash(credential.as_str());
    Ok(InstallGrant { credential, credential_hash })
}

/// The check of a receipt request: skill, repository and agent are named.
pub fn receipt_request(skill_id: &str, repository: &str, agent: &str) -> (out: Result<(), Denial>)
    ensures
        out == if is_valid_text(skill_id@, 120) && is_valid_text(repository@, 160)
            && is_valid_text(agent@, 80) {
            Ok::<(), Denial>(())
        } else {
            Err(Denial::NameSkillRepositoryAgent)
        },
{
    if !valid_text(skill_id, 120) || !valid_text(repository, 160) || !valid_text(agent, 80) {
        return Err(Denial::NameSkillRepositoryAgent);
    }
    Ok(())
}

/// A reviewed release: an approval is recorded and the ring is pilot or the
/// full release.
pub open spec fn is_reviewed_release(s: &StoredSkill) -> bool {
    s.approved_at is Some && needs_review(s.ring@)
}

/// Whether a stored package is a reviewed release.
pub fn reviewed_release(s: &StoredSkill) -> (b: bool)
    ensures
        b == is_reviewed_release(s),
{
    s.approved_at.is_some() && (str_equals(s.ring.as_str(), "pilot") || str_equals(
        s.ring.as_str(),
        "all",
    ))
}

/// The answer to looking up a reviewed pilot or full release for a receipt:
/// a package that is not one counts as no release.
pub fn released_lookup_outcome(row: Result<Option<StoredSkill>, ()>) -> (out: Result<StoredSkill, Denial>)
    ensures
        match row {
            Ok(Some(s)) => if is_reviewed_release(&s) {
                out == Ok::<StoredSkill, Denial>(s)
            } else {
                out == Err::<StoredSkill, Denial>(Denial::NotReleased)
            },
            Ok(None) => out == Err::<StoredSkill, Denial>(Denial::NotReleased),
            Err(_) => out == Err::<StoredSkill, Denial>(Denial::SkillCheckFailed),
        },
{
    match row {
        Ok(Some(s)) => if reviewed_release(&s) {
            Ok(s)
        } else {
            Err(Denial::NotReleased)
        },
        Ok(None) => Err(Denial::NotReleased),
        Err(_) => Err(Denial::SkillCheckFailed),
    }
}

/// Whether a receipt may be recorded for a released package, in the order of
/// the checks: the signature still verifies, the repository is in the active
/// ring, the agent is a target, and an approval is on record.
pub open spec fn receipt_verdict(secret: Seq<u8>, skill: &StoredSkill, repository: Seq<char>, agent: Seq<char>) -> Result<Seq<char>, Denial> {
    if !package_verifies(secret, skill) {
        Err(Denial::SignatureFailed)
    } else if !stored_released_to(skill, repository) {
        Err(Denial::RepositoryOutsideRing)
    } else if !stored_list(skill.targets@).contains(agent) {
        Err(Denial::NoAdapter)
    } else {
        match skill.approval_id {
            Some(a) => Ok(a@),
            None => Err(Denial::NoApproval),
        }
    }
}

/// The checks of a run receipt on a released package; the approval id to
/// record on success.
pub fn receipt_decision(key: &SignerKey, skill: &StoredSkill, repository: &str, agent: &str) -> (out: Result<String, Denial>)
    ensures
        match receipt_verdict(key.secret(), skill, repository@, agent@) {
            Ok(a) => out matches Ok(s) && s@ == a,
            Err(d) => out == Err::<String, Denial>(d),
        },
{
    if !package_is_valid(key, skill) {
        return Err(Denial::SignatureFailed);
    }
    if !repository_is_released(skill, repository) {
        return Err(Denial::RepositoryOutsideRing);
    }
    let targets = json_array(skill.targets.as_str());
    if !contains_string(targets.as_slice(), agent) {
        return Err(Denial::NoAdapter);
    }
    match &skill.approval_id {
        Some(a) => Ok(a.clone()),
        None => Err(Denial::NoApproval),
    }
}

/// The answer to looking up an install credential: the workspace it belongs
/// to.
pub fn install_lookup_outcome(found: Result<Option<String>, ()>) -> (out: Result<String, Denial>)
    ensures
        match found {
            Ok(Some(w)) => out == Ok::<String, Denial>(w),
            Ok(None) => out == Err::<String, Denial>(Denial::InstallCredentialRejected),
            Err(_) => out == Err::<String, Denial>(Denial::InstallCredentialCheckFailed),
        },
{
    match found {
        Ok(Some(w)) => Ok(w),
        Ok(None) => Err(Denial::InstallCredentialRejected),
        Err(_) => Err(Denial::InstallCredentialCheckFailed),
    }
}

/// Whether a looked-up release installs into a repository for an agent, in
/// the order of the checks: it is a reviewed release (else it counts as no
/// release), released to the repository, the agent is a target, the
/// signature still verifies.
pub open spec fn install_verdict(secret: Seq<u8>, row: Result<Option<StoredSkill>, ()>, repository: Seq<char>, agent: Seq<char>) -> Result<StoredSkill, Denial> {
    match row {
        Ok(Some(skill)) => if !is_reviewed_release(&skill) {
            Err(Denial::NoReleasedPackage)
        } else if !stored_released_to(&skill, repository) {
            Err(Denial::RepositoryOutsideRing)
        } else if !stored_list(skill.targets@).contains(agent) {
            Err(Denial::NoAdapter)
        } else if !package_verifies(secret, &skill) {
            Err(Denial::SignatureFailed)
        } else {
            Ok(skill)
        },
        Ok(None) => Err(Denial::NoReleasedPackage),
        Err(_) => Err(Denial::InstallFailed),
    }
}

/// The checks of an install on the looked-up release.
pub fn install_decision(
    key: &SignerKey,
    row: Result<Option<StoredSkill>, ()>,
    repository: &str,
    agent: &str,
) -> (out: Result<StoredSkill, Denial>)
    ensures
        out == install_verdict(key.secret(), row, repository@, agent@),
{
    match row {
        Ok(Some(skill)) => {
            if !reviewed_release(&skill) {
                return Err(Denial::NoReleasedPackage);
            }
            if !repository_is_released(&skill, repository) {
                return Err(Denial::RepositoryOutsideRing);
            }
            let targets = json_array(skill.targets.as_str());
            if !contains_string(targets.as_slice(), agent) {
                return Err(Denial::NoAdapter);
            }
            if !package_is_valid(key, &skill) {
                return Err(Denial::SignatureFailed);
            }
            Ok(skill)
        },
        Ok(None) => Err(Denial::NoReleasedPackage),
        Err(_) => Err(Denial::InstallFailed),
    }
}

/// Law: nothing installs, and no receipt is recorded, unless the repository is
/// in the package's active ring, the agent is one of its targets and its
/// signature still verifies.
pub proof fn lemma_release_gates(
    secret: Seq<u8>,
    row: Result<Option<StoredSkill>, ()>,
    skill: &StoredSkill,
    repository: Seq<char>,
    agent: Seq<char>,
)
    ensures
        install_verdict(secret, row, repository, agent) matches Ok(s) ==> stored_released_to(
            &s,
            repository,
        ) && stored_list(s.targets@).contains(agent) && package_verifies(secret, &s)
            && (s.ring@ == "pilot"@ || s.ring@ == "all"@) && s.approved_at is Some,
        receipt_verdict(secret, skill, repository, agent) is Ok ==> stored_released_to(
            skill,
            repository,
        ) && stored_list(skill.targets@).contains(agent) && package_verifies(secret, skill)
            && skill.approval_id is Some && (skill.ring@ == "pilot"@ || skill.ring@ == "all"@),
{
}

/// Law: a record that an install hands out can be checked on its own: the
/// hex payload sent with it (`signed_payload`) decodes to the bytes whose
/// SHA-256 hex is its digest and whose signature verifies under its public
/// key, which is this registry's key.
pub proof fn lemma_installed_record_verifies(
    secret: Seq<u8>,
    row: Result<Option<StoredSkill>, ()>,
    repository: Seq<char>,
    agent: Seq<char>,
)
    ensures
        install_verdict(secret, row, repository, agent) matches Ok(s) ==> ({
            let payload = package_payload(stored_fields(&s));
            &&& hex_decode(hex_lower(payload)) == Some(payload)
            &&& hex_lower(sha256_of(payload)) == s.package_digest@
            &&& hex_signature_accepts(s.signer_public_key@, payload, s.package_signature@)
            &&& s.signer_public_key@ == hex_lower(ed25519_public_of(secret))
        }),
{
    if let Ok(Some(s)) = row {
        lemma_hex_roundtrip(package_payload(stored_fields(&s)));
    }
}

/// The file an agent reads its repository instructions from: `AGENTS.md`
/// for Codex, `GEMINI.md` for Gemini CLI, and the general
/// `INSTRUCTIONS.md` for any other agent.
pub open spec fn instruction_file_name_of(agent: Seq<char>) -> Seq<char> {
    if agent == "Codex"@ {
        "AGENTS.md"@
    } else if agent == "Gemini CLI"@ {
        "GEMINI.md"@
    } else {
        "INSTRUCTIONS.md"@
    }
}

/// The instruction file name for an agent.
pub fn instruction_file_name(agent: &str) -> (out: &'static str)
    ensures
        out@ == instruction_file_name_of(agent@),
{
    if str_equals(agent, "Codex") {
        "AGENTS.md"
    } else if str_equals(agent, "Gemini CLI") {
        "GEMINI.md"
    } else {
        "INSTRUCTIONS.md"
    }
}

/// The adapter text of the first entry for `agent`, if any.
pub open spec fn adapter_for(entries: Seq<(Seq<char>, Seq<char>)>, agent: Seq<char>) -> Option<Seq<char>>
    decreases entries.len(),
{
    if entries.len() == 0 {
        None
    } else if entries[0].0 == agent {
        Some(entries[0].1)
    } else {
        adapter_for(entries.drop_first(), agent)
    }
}

/// The text of an instruction file: the package's shared instructions, then
/// a blank line and the agent's adapter text when it has one, ending in a
/// line break.
pub open spec fn instruction_text_of(instructions: Seq<char>, adapter: Option<Seq<char>>) -> Seq<char> {
    match adapter {
        Some(a) => instructions + "\n\n"@ + a + "\n"@,
        None => instructions + "\n"@,
    }
}

/// A repository-native instruction file: where it goes and what it says.
pub struct InstructionFile {
    pub path: String,
    pub content: String,
}

/// The instruction file an install of a stored package delivers for an
/// agent, beside the signed record.
pub fn instruction_file(skill: &StoredSkill, agent: &str) -> (out: InstructionFile)
    ensures
        out.path@ == instruction_file_name_of(agent@),
        out.content@ == instruction_text_of(
            skill.instructions@,
            adapter_for(stored_map(skill.adapters@), agent@),
        ),
{
    let entries = json_map(skill.adapters.as_str());
    let ghost e = pair_views(entries@);
    let mut adapter: Option<usize> = None;
    let mut i: usize = entries.len();
    while i > 0
        invariant
            i <= entries@.len(),
            e == pair_views(entries@),
            match adapter {
                Some(k) => i <= k < entries@.len() && adapter_for(e.subrange(i as int, e.len() as int), agent@)
                    == Some(e[k as int].1),
                None => adapter_for(e.subrange(i as int, e.len() as int), agent@) is None,
            },
        decreases i,
    {
        i = i - 1;
        proof {
            let rest = e.subrange(i as int, e.len() as int);
            assert(rest.drop_first() =~= e.subrange(i + 1, e.len() as int));
            assert(rest[0] == e[i as int]);
        }
        if str_equals(entries[i].0.as_str(), agent) {
            adapter = Some(i);
        }
    }
    assert(e.subrange(0, e.len() as int) =~= e);
    let mut text = crate::text::chars_of(skill.instructions.as_str());
    match adapter {
        Some(k) => {
            crate::json::push_chars(&mut text, crate::text::chars_of("\n\n").as_slice());
            crate::json::push_chars(&mut text, crate::text::chars_of(entries[k].1.as_str()).as_slice());
            crate::json::push_chars(&mut text, crate::text::chars_of("\n").as_slice());
        },
        None => {
            crate::json::push_chars(&mut text, crate::text::chars_of("\n").as_slice());
        },
    }
    InstructionFile {
        path: instruction_file_name(agent).to_owned(),
        content: crate::text::string_from_chars(text.as_slice()),
    }
}

} // verus!
