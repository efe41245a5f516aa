//! The signed package envelope: its bytes, the stored record that carries it,
//! and the check that a stored record still matches its signature.

use crate::crypto::{
    ed25519_public_of, ed25519_signature_of, hash_bytes, hex_signature_accepts, sha256_of,
    sign_bytes, signer_public_key, verify_hex_signature, SignerKey,
};
use crate::denial::Denial;
use crate::hexcode::hex_lower;
use crate::json::{
    json_array, json_escape, json_join, json_map, json_member, json_object, json_string,
    json_string_array, json_string_object, keys_increasing, lemma_escape_then_quote,
    lemma_object_holds_member_pair, lemma_object_holds_pair, lemma_object_second_string,
    holds_part, json_member_pair,
    pair_views, push_array_member, push_first_string_member,
    push_object_end, push_object_member, push_string_member, stored_list, stored_map,
    string_views,
};
use crate::skill::SourceSkill;
use crate::text::{str_equals, string_from_chars};
use vstd::prelude::*;
use vstd::utf8::encode_utf8;

verus! {

/// The values that a package envelope holds.
pub struct PackageFields {
    pub workspace_id: Seq<char>,
    pub id: Seq<char>,
    pub name: Seq<char>,
    pub version: Seq<char>,
    pub summary: Seq<char>,
    pub targets: Seq<Seq<char>>,
    pub owner: Seq<char>,
    pub secrets: Seq<Seq<char>>,
    pub instructions: Seq<char>,
    pub adapters: Seq<(Seq<char>, Seq<char>)>,
    pub git_url: Seq<char>,
    pub git_commit: Seq<char>,
    pub source_path: Seq<char>,
    pub source_blob_sha: Seq<char>,
    pub source_verified_at: Seq<char>,
    pub repositories: Seq<Seq<char>>,
    pub pilot_repositories: Seq<Seq<char>>,
}

/// The schema name of package envelopes.
pub open spec fn package_schema() -> Seq<char> {
    "team-agent-skill-envelope/v2"@
}

/// The members of a package envelope, in this order: schema, workspace_id,
/// id, name, version, summary, targets, owner, secrets, instructions,
/// adapters, git_url, git_commit, source_path, source_blob_sha,
/// source_verified_at, repositories, pilot_repositories.
pub open spec fn package_members(f: PackageFields) -> Seq<Seq<char>> {
    seq![
        json_member("schema"@, json_string(package_schema())),
        json_member("workspace_id"@, json_string(f.workspace_id)),
        json_member("id"@, json_string(f.id)),
        json_member("name"@, json_string(f.name)),
        json_member("version"@, json_string(f.version)),
        json_member("summary"@, json_string(f.summary)),
        json_member("targets"@, json_string_array(f.targets)),
        json_member("owner"@, json_string(f.owner)),
        json_member("secrets"@, json_string_array(f.secrets)),
        json_member("instructions"@, json_string(f.instructions)),
        json_member("adapters"@, json_string_object(f.adapters)),
        json_member("git_url"@, json_string(f.git_url)),
        json_member("git_commit"@, json_string(f.git_commit)),
        json_member("source_path"@, json_string(f.source_path)),
        json_member("source_blob_sha"@, json_string(f.source_blob_sha)),
        json_member("source_verified_at"@, json_string(f.source_verified_at)),
        json_member("repositories"@, json_string_array(f.repositories)),
        json_member("pilot_repositories"@, json_string_array(f.pilot_repositories)),
    ]
}

/// The compact JSON text of a package envelope.
pub open spec fn package_envelope(f: PackageFields) -> Seq<char> {
    json_object(package_members(f))
}

/// Law: the signed envelope binds the workspace: the same package fields
/// published in two different workspaces give two different signed byte
/// strings.
pub proof fn lemma_envelope_binds_workspace(f: PackageFields, g: PackageFields)
    requires
        f.workspace_id != g.workspace_id,
    ensures
        package_payload(f) != package_payload(g),
{
    let mf = package_members(f);
    let mg = package_members(g);
    assert(mf.len() == 18 && mg.len() == 18);
    assert(mf[0] == mg[0]);
    lemma_object_second_string(mf, "workspace_id"@, f.workspace_id);
    lemma_object_second_string(mg, "workspace_id"@, g.workspace_id);
    let p = seq!['{'] + mf[0] + seq![','] + json_string("workspace_id"@) + seq![':'] + seq!['"'];
    let rf = seq![','] + json_join(mf.drop_first().drop_first()) + seq!['}'];
    let rg = seq![','] + json_join(mg.drop_first().drop_first()) + seq!['}'];
    let ef = package_envelope(f);
    let eg = package_envelope(g);
    assert(ef == p + (json_escape(f.workspace_id) + seq!['"'] + rf));
    assert(eg == p + (json_escape(g.workspace_id) + seq!['"'] + rg));
    if package_payload(f) == package_payload(g) {
        vstd::utf8::encode_utf8_decode_utf8(ef);
        vstd::utf8::encode_utf8_decode_utf8(eg);
        assert(ef == eg);
        assert(json_escape(f.workspace_id) + seq!['"'] + rf =~= ef.subrange(p.len() as int, ef.len() as int));
        assert(json_escape(g.workspace_id) + seq!['"'] + rg =~= eg.subrange(p.len() as int, eg.len() as int));
        lemma_escape_then_quote(f.workspace_id, g.workspace_id, rf, rg);
    }
}

/// The bytes that are hashed and signed: the UTF-8 of the envelope text.
pub open spec fn package_payload(f: PackageFields) -> Seq<u8> {
    encode_utf8(package_envelope(f))
}

/// Where a package was read from.
pub struct GitSource<'a> {
    pub url: &'a str,
    pub commit: &'a str,
    pub path: &'a str,
    pub blob_sha: &'a str,
    pub verified_at: &'a str,
}

/// The envelope fields of a source package published from `source` into a
/// workspace.
pub open spec fn published_fields(workspace_id: Seq<char>, input: &SourceSkill, source: &GitSource) -> PackageFields {
    PackageFields {
        workspace_id,
        id: input.id@,
        name: input.name@,
        version: input.version@,
        summary: input.summary@,
        targets: input.targets_view(),
        owner: input.owner@,
        secrets: input.secrets_view(),
        instructions: input.instructions@,
        adapters: input.adapters_view(),
        git_url: source.url@,
        git_commit: source.commit@,
        source_path: source.path@,
        source_blob_sha: source.blob_sha@,
        source_verified_at: source.verified_at@,
        repositories: input.repositories_view(),
        pilot_repositories: input.pilots_view(),
    }
}

/// The envelope text, from its parts.
fn envelope_text(
    workspace_id: &str,
    id: &str,
    name: &str,
    version: &str,
    summary: &str,
    targets: &[String],
    owner: &str,
    secrets: &[String],
    instructions: &str,
    adapters: &[(String, String)],
    source: &GitSource,
    repositories: &[String],
    pilot_repositories: &[String],
) -> (out: String)
    ensures
        out@ == package_envelope(
            PackageFields {
                workspace_id: workspace_id@,
                id: id@,
                name: name@,
                version: version@,
                summary: summary@,
                targets: string_views(targets@),
                owner: owner@,
                secrets: string_views(secrets@),
                instructions: instructions@,
                adapters: pair_views(adapters@),
                git_url: source.url@,
                git_commit: source.commit@,
                source_path: source.path@,
                source_blob_sha: source.blob_sha@,
                source_verified_at: source.verified_at@,
                repositories: string_views(repositories@),
                pilot_repositories: string_views(pilot_repositories@),
            },
        ),
{
    let ghost f = PackageFields {
        workspace_id: workspace_id@,
        id: id@,
        name: name@,
        version: version@,
        summary: summary@,
        targets: string_views(targets@),
        owner: owner@,
        secrets: string_views(secrets@),
        instructions: instructions@,
        adapters: pair_views(adapters@),
        git_url: source.url@,
        git_commit: source.commit@,
        source_path: source.path@,
        source_blob_sha: source.blob_sha@,
        source_verified_at: source.verified_at@,
        repositories: string_views(repositories@),
        pilot_repositories: string_views(pilot_repositories@),
    };
    let ghost ms = package_members(f);
    let mut v: Vec<char> = Vec::new();
    push_first_string_member(&mut v, "schema", "team-agent-skill-envelope/v2");
    assert(ms.take(1) =~= seq![ms[0]]);
    push_string_member(&mut v, Ghost(ms.take(1)), "workspace_id", workspace_id);
    assert(ms.take(1).push(ms[1]) =~= ms.take(2));
    push_string_member(&mut v, Ghost(ms.take(2)), "id", id);
    assert(ms.take(2).push(ms[2]) =~= ms.take(3));
    push_string_member(&mut v, Ghost(ms.take(3)), "name", name);
    assert(ms.take(3).push(ms[3]) =~= ms.take(4));
    push_string_member(&mut v, Ghost(ms.take(4)), "version", version);
    assert(ms.take(4).push(ms[4]) =~= ms.take(5));
    push_string_member(&mut v, Ghost(ms.take(5)), "summary", summary);
    assert(ms.take(5).push(ms[5]) =~= ms.take(6));
    push_array_member(&mut v, Ghost(ms.take(6)), "targets", targets);
    assert(ms.take(6).push(ms[6]) =~= ms.take(7));
    push_string_member(&mut v, Ghost(ms.take(7)), "owner", owner);
    assert(ms.take(7).push(ms[7]) =~= ms.take(8));
    push_array_member(&mut v, Ghost(ms.take(8)), "secrets", secrets);
    assert(ms.take(8).push(ms[8]) =~= ms.take(9));
    push_string_member(&mut v, Ghost(ms.take(9)), "instructions", instructions);
    assert(ms.take(9).push(ms[9]) =~= ms.take(10));
    push_object_member(&mut v, Ghost(ms.take(10)), "adapters", adapters);
    assert(ms.take(10).push(ms[10]) =~= ms.take(11));
    push_string_member(&mut v, Ghost(ms.take(11)), "git_url", source.url);
    assert(ms.take(11).push(ms[11]) =~= ms.take(12));
    push_string_member(&mut v, Ghost(ms.take(12)), "git_commit", source.commit);
    assert(ms.take(12).push(ms[12]) =~= ms.take(13));
    push_string_member(&mut v, Ghost(ms.take(13)), "source_path", source.path);
    assert(ms.take(13).push(ms[13]) =~= ms.take(14));
    push_string_member(&mut v, Ghost(ms.take(14)), "source_blob_sha", source.blob_sha);
    assert(ms.take(14).push(ms[14]) =~= ms.take(15));
    push_string_member(&mut v, Ghost(ms.take(15)), "source_verified_at", source.verified_at);
    assert(ms.take(15).push(ms[15]) =~= ms.take(16));
    push_array_member(&mut v, Ghost(ms.take(16)), "repositories", repositories);
    assert(ms.take(16).push(ms[16]) =~= ms.take(17));
    push_array_member(&mut v, Ghost(ms.take(17)), "pilot_repositories", pilot_repositories);
    assert(ms.take(17).push(ms[17]) =~= ms);
    push_object_end(&mut v, Ghost(ms));
    string_from_chars(v.as_slice())
}

/// The envelope bytes of a source package published into a workspace.
pub fn package_bytes(workspace_id: &str, input: &SourceSkill, source: &GitSource) -> (out: Vec<u8>)
    ensures
        out@ == package_payload(published_fields(workspace_id@, input, source)),
{
    let text = envelope_text(
        workspace_id,
        input.id.as_str(),
        input.name.as_str(),
        input.version.as_str(),
        input.summary.as_str(),
        input.targets.as_slice(),
        input.owner.as_str(),
        input.secrets.as_slice(),
        input.instructions.as_str(),
        input.adapters.entries(),
        source,
        input.repositories.as_slice(),
        input.pilot_repositories.as_slice(),
    );
    vstd::slice::slice_to_vec(text.as_str().as_bytes())
}

} // verus!

verus! {

/// A package record as the registry stores it: scalar fields as text, list
/// fields as JSON text.
pub struct StoredSkill {
    pub workspace_id: String,
    pub id: String,
    pub name: String,
    pub version: String,
    pub summary: String,
    pub targets: String,
    pub ring: String,
    pub updated: String,
    pub owner: String,
    pub secrets: String,
    pub instructions: String,
    pub adapters: String,
    pub git_url: String,
    pub git_credential_ref: String,
    pub git_commit: String,
    pub source_path: String,
    pub source_blob_sha: String,
    pub source_verified_at: String,
    pub package_digest: String,
    pub package_signature: String,
    pub signer_public_key: String,
    pub repositories: String,
    pub pilot_repositories: String,
    pub approved_by: Option<String>,
    pub approved_at: Option<String>,
    pub approval_id: Option<String>,
}

/// The envelope fields of a stored record, its list texts read back.
pub open spec fn stored_fields(s: &StoredSkill) -> PackageFields {
    PackageFields {
        workspace_id: s.workspace_id@,
        id: s.id@,
        name: s.name@,
        version: s.version@,
        summary: s.summary@,
        targets: stored_list(s.targets@),
        owner: s.owner@,
        secrets: stored_list(s.secrets@),
        instructions: s.instructions@,
        adapters: stored_map(s.adapters@),
        git_url: s.git_url@,
        git_commit: s.git_commit@,
        source_path: s.source_path@,
        source_blob_sha: s.source_blob_sha@,
        source_verified_at: s.source_verified_at@,
        repositories: stored_list(s.repositories@),
        pilot_repositories: stored_list(s.pilot_repositories@),
    }
}

/// A stored record still matches its signature: it names this registry's
/// public key, its digest is the SHA-256 of the envelope rebuilt from it, and
/// the signature over that envelope verifies under the named key.
pub open spec fn package_verifies(secret: Seq<u8>, s: &StoredSkill) -> bool {
    let payload = package_payload(stored_fields(s));
    &&& s.signer_public_key@ == hex_lower(ed25519_public_of(secret))
    &&& hex_lower(sha256_of(payload)) == s.package_digest@
    &&& hex_signature_accepts(s.signer_public_key@, payload, s.package_signature@)
}

/// `s` stores the envelope fields `f`: its scalar fields are those of `f`
/// and its list fields hold the compact JSON of those of `f`, the adapters
/// in increasing key order.
pub open spec fn stored_as(s: &StoredSkill, f: PackageFields) -> bool {
    &&& s.workspace_id@ == f.workspace_id
    &&& s.id@ == f.id
    &&& s.name@ == f.name
    &&& s.version@ == f.version
    &&& s.summary@ == f.summary
    &&& s.owner@ == f.owner
    &&& s.instructions@ == f.instructions
    &&& s.git_url@ == f.git_url
    &&& s.git_commit@ == f.git_commit
    &&& s.source_path@ == f.source_path
    &&& s.source_blob_sha@ == f.source_blob_sha
    &&& s.source_verified_at@ == f.source_verified_at
    &&& s.targets@ == json_string_array(f.targets)
    &&& s.secrets@ == json_string_array(f.secrets)
    &&& s.adapters@ == json_string_object(f.adapters)
    &&& keys_increasing(f.adapters)
    &&& s.repositories@ == json_string_array(f.repositories)
    &&& s.pilot_repositories@ == json_string_array(f.pilot_repositories)
}

/// `s` carries this registry's public key and the digest and signature of
/// the envelope of `f`.
pub open spec fn signed_as(secret: Seq<u8>, s: &StoredSkill, f: PackageFields) -> bool {
    let payload = package_payload(f);
    &&& s.signer_public_key@ == hex_lower(ed25519_public_of(secret))
    &&& s.package_digest@ == hex_lower(sha256_of(payload))
    &&& hex_signature_accepts(s.signer_public_key@, payload, s.package_signature@)
}

/// The envelope bytes rebuilt from a stored record. A record that stores the
/// envelope fields `f` reads back as `f`, so the rebuilt bytes are the bytes
/// of `f`'s envelope.
pub fn stored_package_bytes(skill: &StoredSkill) -> (out: Vec<u8>)
    ensures
        out@ == package_payload(stored_fields(skill)),
        forall|f: PackageFields| #[trigger] stored_as(skill, f) ==> stored_fields(skill) == f,
        forall|f: PackageFields| #[trigger] stored_as(skill, f) ==> out@ == package_payload(f),
{
    let targets = json_array(skill.targets.as_str());
    let secrets = json_array(skill.secrets.as_str());
    let adapters = json_map(skill.adapters.as_str());
    let repositories = json_array(skill.repositories.as_str());
    let pilots = json_array(skill.pilot_repositories.as_str());
    let source = GitSource {
        url: skill.git_url.as_str(),
        commit: skill.git_commit.as_str(),
        path: skill.source_path.as_str(),
        blob_sha: skill.source_blob_sha.as_str(),
        verified_at: skill.source_verified_at.as_str(),
    };
    let text = envelope_text(
        skill.workspace_id.as_str(),
        skill.id.as_str(),
        skill.name.as_str(),
        skill.version.as_str(),
        skill.summary.as_str(),
        targets.as_slice(),
        skill.owner.as_str(),
        secrets.as_slice(),
        skill.instructions.as_str(),
        adapters.as_slice(),
        &source,
        repositories.as_slice(),
        pilots.as_slice(),
    );
    vstd::slice::slice_to_vec(text.as_str().as_bytes())
}

/// The hex of the rebuilt envelope (`signed_payload` in responses).
pub fn signed_payload(skill: &StoredSkill) -> (out: String)
    ensures
        out@ == hex_lower(package_payload(stored_fields(skill))),
{
    let bytes = stored_package_bytes(skill);
    crate::hexcode::hex_encode(bytes.as_slice())
}

/// Whether a stored record still matches its signature under this registry's
/// key. A record that stores the envelope fields `f` and carries the digest
/// and signature of `f`'s envelope passes.
pub fn package_is_valid(key: &SignerKey, skill: &StoredSkill) -> (ok: bool)
    ensures
        ok == package_verifies(key.secret(), skill),
        forall|f: PackageFields|
            #[trigger] stored_as(skill, f) && signed_as(key.secret(), skill, f) ==> ok,
{
    let own = signer_public_key(key);
    if !str_equals(skill.signer_public_key.as_str(), own.as_str()) {
        return false;
    }
    let bytes = stored_package_bytes(skill);
    let digest = hash_bytes(bytes.as_slice());
    if !str_equals(digest.as_str(), skill.package_digest.as_str()) {
        return false;
    }
    verify_hex_signature(
        skill.signer_public_key.as_str(),
        bytes.as_slice(),
        skill.package_signature.as_str(),
    )
}

/// What publishing a package produces: the signed bytes and their hex, the
/// digest, the signature and public key, a one-time approval key with its
/// stored hash, and the JSON texts the list fields are stored in.
pub struct Publication {
    pub payload: Vec<u8>,
    pub signed_payload: String,
    pub package_digest: String,
    pub package_signature: String,
    pub signer_public_key: String,
    pub reviewer_key: String,
    pub reviewer_hash: String,
    pub targets: String,
    pub secrets: String,
    pub adapters: String,
    pub repositories: String,
    pub pilot_repositories: String,
}

/// `p` is the publication of `input` from `source` into a workspace under the
/// signing secret.
pub open spec fn is_publication(
    secret: Seq<u8>,
    workspace_id: Seq<char>,
    input: &SourceSkill,
    source: &GitSource,
    p: &Publication,
) -> bool {
    let payload = package_payload(published_fields(workspace_id, input, source));
    &&& p.payload@ == payload
    &&& p.signed_payload@ == hex_lower(payload)
    &&& p.package_digest@ == hex_lower(sha256_of(payload))
    &&& p.package_signature@ == hex_lower(ed25519_signature_of(secret, payload))
    &&& p.signer_public_key@ == hex_lower(ed25519_public_of(secret))
    &&& hex_signature_accepts(p.signer_public_key@, payload, p.package_signature@)
    &&& (exists|b: Seq<u8>| b.len() == 24 && p.reviewer_key@ == "tsr_review_"@ + hex_lower(b))
    &&& p.reviewer_hash@ == hex_lower(sha256_of(encode_utf8(p.reviewer_key@)))
    &&& p.targets@ == json_string_array(input.targets_view())
    &&& p.secrets@ == json_string_array(input.secrets_view())
    &&& p.adapters@ == json_string_object(input.adapters_view())
    &&& p.repositories@ == json_string_array(input.repositories_view())
    &&& p.pilot_repositories@ == json_string_array(input.pilots_view())
}

/// The signing step of a publication: builds, hashes and signs the envelope
/// of a verified source package and issues its one-time approval key;
/// refused when the random source fails.
pub fn publish_package(
    key: &SignerKey,
    workspace_id: &str,
    input: &SourceSkill,
    source: &GitSource,
) -> (out: Result<Publication, Denial>)
    ensures
        match out {
            Ok(p) => is_publication(key.secret(), workspace_id@, input, source, &p),
            Err(d) => d == Denial::RandomUnavailable,
        },
{
    let payload = package_bytes(workspace_id, input, source);
    let signed = crate::hexcode::hex_encode(payload.as_slice());
    let digest = hash_bytes(payload.as_slice());
    let signature = sign_bytes(key, payload.as_slice());
    let public_key = signer_public_key(key);
    let reviewer_key = match crate::crypto::prefixed_token("tsr_review_", 24) {
        Some(k) => k,
        None => return Err(Denial::RandomUnavailable),
    };
    let reviewer_hash = crate::crypto::hash(reviewer_key.as_str());
    proof {
        input.adapters.lemma_in_key_order();
    }
    Ok(Publication {
        payload,
        signed_payload: signed,
        package_digest: digest,
        package_signature: signature,
        signer_public_key: public_key,
        reviewer_key,
        reviewer_hash,
        targets: crate::json::json_array_text(input.targets.as_slice()),
        secrets: crate::json::json_array_text(input.secrets.as_slice()),
        adapters: crate::json::json_object_text(input.adapters.entries()),
        repositories: crate::json::json_array_text(input.repositories.as_slice()),
        pilot_repositories: crate::json::json_array_text(input.pilot_repositories.as_slice()),
    })
}

/// `record` stores publication `p` of `input` from `source` in a workspace.
pub open spec fn stores_publication(
    record: &StoredSkill,
    workspace_id: Seq<char>,
    input: &SourceSkill,
    source: &GitSource,
    p: &Publication,
) -> bool {
    &&& record.workspace_id@ == workspace_id
    &&& record.id@ == input.id@
    &&& record.name@ == input.name@
    &&& record.version@ == input.version@
    &&& record.summary@ == input.summary@
    &&& record.owner@ == input.owner@
    &&& record.instructions@ == input.instructions@
    &&& record.git_url@ == source.url@
    &&& record.git_commit@ == source.commit@
    &&& record.source_path@ == source.path@
    &&& record.source_blob_sha@ == source.blob_sha@
    &&& record.source_verified_at@ == source.verified_at@
    &&& record.package_digest@ == p.package_digest@
    &&& record.package_signature@ == p.package_signature@
    &&& record.signer_public_key@ == p.signer_public_key@
    &&& record.targets@ == p.targets@
    &&& record.secrets@ == p.secrets@
    &&& record.adapters@ == p.adapters@
    &&& record.repositories@ == p.repositories@
    &&& record.pilot_repositories@ == p.pilot_repositories@
}

/// Law: a published package, once stored, is stored as the fields of the
/// envelope that was signed, and carries that envelope's digest and
/// signature; so `stored_package_bytes` rebuilds the signed bytes and
/// `package_is_valid` accepts it under the same signing identity.
pub proof fn lemma_published_package_verifies(
    secret: Seq<u8>,
    workspace_id: Seq<char>,
    input: &SourceSkill,
    source: &GitSource,
    p: &Publication,
    record: &StoredSkill,
)
    requires
        is_publication(secret, workspace_id, input, source, p),
        stores_publication(record, workspace_id, input, source, p),
    ensures
        stored_as(record, published_fields(workspace_id, input, source)),
        signed_as(secret, record, published_fields(workspace_id, input, source)),
{
    input.adapters.lemma_in_key_order();
}

} // verus!

verus! {

/// The values that an execution receipt envelope holds.
pub struct ReceiptFields {
    pub id: Seq<char>,
    pub workspace_id: Seq<char>,
    pub skill_id: Seq<char>,
    pub skill_name: Seq<char>,
    pub skill_version: Seq<char>,
    pub package_digest: Seq<char>,
    pub package_signature: Seq<char>,
    pub approval_id: Seq<char>,
    pub repository: Seq<char>,
    pub agent: Seq<char>,
    pub ring: Seq<char>,
    pub at: Seq<char>,
}

/// The members of a receipt envelope, in this order: schema, id,
/// workspace_id, skill_id, skill_name, skill_version, package_digest,
/// package_signature, approval_id, repository, agent, ring, at, status.
pub open spec fn receipt_members(f: ReceiptFields) -> Seq<Seq<char>> {
    seq![
        json_member("schema"@, json_string("team-agent-execution-receipt/v2"@)),
        json_member("id"@, json_string(f.id)),
        json_member("workspace_id"@, json_string(f.workspace_id)),
        json_member("skill_id"@, json_string(f.skill_id)),
        json_member("skill_name"@, json_string(f.skill_name)),
        json_member("skill_version"@, json_string(f.skill_version)),
        json_member("package_digest"@, json_string(f.package_digest)),
        json_member("package_signature"@, json_string(f.package_signature)),
        json_member("approval_id"@, json_string(f.approval_id)),
        json_member("repository"@, json_string(f.repository)),
        json_member("agent"@, json_string(f.agent)),
        json_member("ring"@, json_string(f.ring)),
        json_member("at"@, json_string(f.at)),
        json_member("status"@, json_string("Recorded"@)),
    ]
}

/// The bytes of a receipt: the UTF-8 of its compact JSON envelope.
pub open spec fn receipt_payload(f: ReceiptFields) -> Seq<u8> {
    encode_utf8(json_object(receipt_members(f)))
}

/// The receipt fields for a run of a stored package.
pub open spec fn receipt_fields_of(
    id: Seq<char>,
    workspace_id: Seq<char>,
    skill: &StoredSkill,
    approval_id: Seq<char>,
    repository: Seq<char>,
    agent: Seq<char>,
    at: Seq<char>,
) -> ReceiptFields {
    ReceiptFields {
        id,
        workspace_id,
        skill_id: skill.id@,
        skill_name: skill.name@,
        skill_version: skill.version@,
        package_digest: skill.package_digest@,
        package_signature: skill.package_signature@,
        approval_id,
        repository,
        agent,
        ring: skill.ring@,
        at,
    }
}

/// Law: every field of a run's receipt stands in the signed text under its
/// own name: the text holds `"id":` the receipt id beside `"workspace_id":`
/// the workspace, `"skill_id":` beside `"skill_name":`, `"skill_version":`
/// beside `"package_digest":`, `"package_signature":` beside
/// `"approval_id":`, `"repository":` beside `"agent":`, and `"ring":` beside
/// `"at":`, each value the JSON string of the matching argument or field of
/// the released package.
pub proof fn lemma_receipt_members_hold_their_fields(
    id: Seq<char>,
    workspace_id: Seq<char>,
    skill: &StoredSkill,
    approval_id: Seq<char>,
    repository: Seq<char>,
    agent: Seq<char>,
    at: Seq<char>,
)
    ensures
        ({
            let text = json_object(
                receipt_members(receipt_fields_of(id, workspace_id, skill, approval_id, repository, agent, at)),
            );
            &&& receipt_payload(receipt_fields_of(id, workspace_id, skill, approval_id, repository, agent, at))
                == encode_utf8(text)
            &&& holds_part(text, json_member_pair("id"@, json_string(id), "workspace_id"@, json_string(workspace_id)))
            &&& holds_part(text, json_member_pair("skill_id"@, json_string(skill.id@), "skill_name"@, json_string(skill.name@)))
            &&& holds_part(text, json_member_pair("skill_version"@, json_string(skill.version@), "package_digest"@, json_string(skill.package_digest@)))
            &&& holds_part(text, json_member_pair("package_signature"@, json_string(skill.package_signature@), "approval_id"@, json_string(approval_id)))
            &&& holds_part(text, json_member_pair("repository"@, json_string(repository), "agent"@, json_string(agent)))
            &&& holds_part(text, json_member_pair("ring"@, json_string(skill.ring@), "at"@, json_string(at)))
        }),
{
    let ms = receipt_members(receipt_fields_of(id, workspace_id, skill, approval_id, repository, agent, at));
    assert(ms.len() == 14);
    assert(ms[1] == json_member("id"@, json_string(id)) && ms[2] == json_member("workspace_id"@, json_string(workspace_id)));
    lemma_object_holds_member_pair(ms, 1, "id"@, json_string(id), "workspace_id"@, json_string(workspace_id));
    assert(ms[3] == json_member("skill_id"@, json_string(skill.id@)) && ms[4] == json_member("skill_name"@, json_string(skill.name@)));
    lemma_object_holds_member_pair(ms, 3, "skill_id"@, json_string(skill.id@), "skill_name"@, json_string(skill.name@));
    assert(ms[5] == json_member("skill_version"@, json_string(skill.version@)) && ms[6] == json_member("package_digest"@, json_string(skill.package_digest@)));
    lemma_object_holds_member_pair(ms, 5, "skill_version"@, json_string(skill.version@), "package_digest"@, json_string(skill.package_digest@));
    assert(ms[7] == json_member("package_signature"@, json_string(skill.package_signature@)) && ms[8] == json_member("approval_id"@, json_string(approval_id)));
    lemma_object_holds_member_pair(ms, 7, "package_signature"@, json_string(skill.package_signature@), "approval_id"@, json_string(approval_id));
    assert(ms[9] == json_member("repository"@, json_string(repository)) && ms[10] == json_member("agent"@, json_string(agent)));
    lemma_object_holds_member_pair(ms, 9, "repository"@, json_string(repository), "agent"@, json_string(agent));
    assert(ms[11] == json_member("ring"@, json_string(skill.ring@)) && ms[12] == json_member("at"@, json_string(at)));
    lemma_object_holds_member_pair(ms, 11, "ring"@, json_string(skill.ring@), "at"@, json_string(at));
}

/// Law: every field of a published package stands in its signed envelope
/// under its own name: `"workspace_id":` beside `"id":`, `"name":` beside
/// `"version":`, `"summary":` beside `"targets":`, `"owner":` beside
/// `"secrets":`, `"instructions":` beside `"adapters":`, `"git_url":` beside
/// `"git_commit":`, `"source_path":` beside `"source_blob_sha":`,
/// `"source_verified_at":` beside `"repositories":`, and `"repositories":`
/// beside `"pilot_repositories":`, each value the JSON of the workspace, the
/// source package field or the source field of the same name.
pub proof fn lemma_envelope_members_hold_their_fields(
    workspace_id: Seq<char>,
    input: &SourceSkill,
    source: &GitSource,
)
    ensures
        ({
            let text = package_envelope(published_fields(workspace_id, input, source));
            &&& package_payload(published_fields(workspace_id, input, source)) == encode_utf8(text)
            &&& holds_part(text, json_member_pair("workspace_id"@, json_string(workspace_id), "id"@, json_string(input.id@)))
            &&& holds_part(text, json_member_pair("name"@, json_string(input.name@), "version"@, json_string(input.version@)))
            &&& holds_part(text, json_member_pair("summary"@, json_string(input.summary@), "targets"@, json_string_array(input.targets_view())))
            &&& holds_part(text, json_member_pair("owner"@, json_string(input.owner@), "secrets"@, json_string_array(input.secrets_view())))
            &&& holds_part(text, json_member_pair("instructions"@, json_string(input.instructions@), "adapters"@, json_string_object(input.adapters_view())))
            &&& holds_part(text, json_member_pair("git_url"@, json_string(source.url@), "git_commit"@, json_string(source.commit@)))
            &&& holds_part(text, json_member_pair("source_path"@, json_string(source.path@), "source_blob_sha"@, json_string(source.blob_sha@)))
            &&& holds_part(text, json_member_pair("source_verified_at"@, json_string(source.verified_at@), "repositories"@, json_string_array(input.repositories_view())))
            &&& holds_part(text, json_member_pair("repositories"@, json_string_array(input.repositories_view()), "pilot_repositories"@, json_string_array(input.pilots_view())))
        }),
{
    let ms = package_members(published_fields(workspace_id, input, source));
    assert(ms.len() == 18);
    assert(ms[1] == json_member("workspace_id"@, json_string(workspace_id)) && ms[2] == json_member("id"@, json_string(input.id@)));
    lemma_object_holds_member_pair(ms, 1, "workspace_id"@, json_string(workspace_id), "id"@, json_string(input.id@));
    assert(ms[3] == json_member("name"@, json_string(input.name@)) && ms[4] == json_member("version"@, json_string(input.version@)));
    lemma_object_holds_member_pair(ms, 3, "name"@, json_string(input.name@), "version"@, json_string(input.version@));
    assert(ms[5] == json_member("summary"@, json_string(input.summary@)) && ms[6] == json_member("targets"@, json_string_array(input.targets_view())));
    lemma_object_holds_member_pair(ms, 5, "summary"@, json_string(input.summary@), "targets"@, json_string_array(input.targets_view()));
    assert(ms[7] == json_member("owner"@, json_string(input.owner@)) && ms[8] == json_member("secrets"@, json_string_array(input.secrets_view())));
    lemma_object_holds_member_pair(ms, 7, "owner"@, json_string(input.owner@), "secrets"@, json_string_array(input.secrets_view()));
    assert(ms[9] == json_member("instructions"@, json_string(input.instructions@)) && ms[10] == json_member("adapters"@, json_string_object(input.adapters_view())));
    lemma_object_holds_member_pair(ms, 9, "instructions"@, json_string(input.instructions@), "adapters"@, json_string_object(input.adapters_view()));
    assert(ms[11] == json_member("git_url"@, json_string(source.url@)) && ms[12] == json_member("git_commit"@, json_string(source.commit@)));
    lemma_object_holds_member_pair(ms, 11, "git_url"@, json_string(source.url@), "git_commit"@, json_string(source.commit@));
    assert(ms[13] == json_member("source_path"@, json_string(source.path@)) && ms[14] == json_member("source_blob_sha"@, json_string(source.blob_sha@)));
    lemma_object_holds_member_pair(ms, 13, "source_path"@, json_string(source.path@), "source_blob_sha"@, json_string(source.blob_sha@));
    assert(ms[15] == json_member("source_verified_at"@, json_string(source.verified_at@)) && ms[16] == json_member("repositories"@, json_string_array(input.repositories_view())));
    lemma_object_holds_member_pair(ms, 15, "source_verified_at"@, json_string(source.verified_at@), "repositories"@, json_string_array(input.repositories_view()));
    assert(ms[17] == json_member("pilot_repositories"@, json_string_array(input.pilots_view())));
    lemma_object_holds_member_pair(ms, 16, "repositories"@, json_string_array(input.repositories_view()), "pilot_repositories"@, json_string_array(input.pilots_view()));
}

/// Law: a receipt's signed bytes are the UTF-8 of a JSON object in which the
/// member `"repository"` holds the run's repository and the member right
/// after it, `"agent"`, holds the run's agent: whatever the other fields, the
/// text is some prefix, then `"repository":` and the repository as a JSON
/// string, a comma, `"agent":` and the agent as a JSON string, then some
/// suffix.
pub proof fn lemma_receipt_names_repository_and_agent(
    id: Seq<char>,
    workspace_id: Seq<char>,
    skill: &StoredSkill,
    approval_id: Seq<char>,
    repository: Seq<char>,
    agent: Seq<char>,
    at: Seq<char>,
)
    ensures
        exists|pre: Seq<char>, post: Seq<char>|
            receipt_payload(receipt_fields_of(id, workspace_id, skill, approval_id, repository, agent, at))
                == encode_utf8(pre + (json_string("repository"@) + seq![':'] + json_string(repository)
                + seq![','] + json_string("agent"@) + seq![':'] + json_string(agent)) + post),
{
    let ms = receipt_members(receipt_fields_of(id, workspace_id, skill, approval_id, repository, agent, at));
    let a = json_string("repository"@) + seq![':'] + json_string(repository);
    let b = json_string("agent"@) + seq![':'] + json_string(agent);
    assert(ms.len() == 14 && ms[9] == a && ms[10] == b);
    lemma_object_holds_pair(ms, 9, a, b);
    let (pre, post) = choose|pre: Seq<char>, post: Seq<char>| json_object(ms) == pre + (a + seq![','] + b) + post;
    assert(a + seq![','] + b =~= json_string("repository"@) + seq![':'] + json_string(repository)
        + seq![','] + json_string("agent"@) + seq![':'] + json_string(agent));
}

/// The bytes of a run receipt.
pub fn receipt_bytes(
    id: &str,
    workspace_id: &str,
    skill: &StoredSkill,
    approval_id: &str,
    repository: &str,
    agent: &str,
    at: &str,
) -> (out: Vec<u8>)
    ensures
        out@ == receipt_payload(
            receipt_fields_of(id@, workspace_id@, skill, approval_id@, repository@, agent@, at@),
        ),
{
    let ghost ms = receipt_members(
        receipt_fields_of(id@, workspace_id@, skill, approval_id@, repository@, agent@, at@),
    );
    let mut v: Vec<char> = Vec::new();
    push_first_string_member(&mut v, "schema", "team-agent-execution-receipt/v2");
    assert(ms.take(1) =~= seq![ms[0]]);
    push_string_member(&mut v, Ghost(ms.take(1)), "id", id);
    assert(ms.take(1).push(ms[1]) =~= ms.take(2));
    push_string_member(&mut v, Ghost(ms.take(2)), "workspace_id", workspace_id);
    assert(ms.take(2).push(ms[2]) =~= ms.take(3));
    push_string_member(&mut v, Ghost(ms.take(3)), "skill_id", skill.id.as_str());
    assert(ms.take(3).push(ms[3]) =~= ms.take(4));
    push_string_member(&mut v, Ghost(ms.take(4)), "skill_name", skill.name.as_str());
    assert(ms.take(4).push(ms[4]) =~= ms.take(5));
    push_string_member(&mut v, Ghost(ms.take(5)), "skill_version", skill.version.as_str());
    assert(ms.take(5).push(ms[5]) =~= ms.take(6));
    push_string_member(&mut v, Ghost(ms.take(6)), "package_digest", skill.package_digest.as_str());
    assert(ms.take(6).push(ms[6]) =~= ms.take(7));
    push_string_member(
        &mut v,
        Ghost(ms.take(7)),
        "package_signature",
        skill.package_signature.as_str(),
    );
    assert(ms.take(7).push(ms[7]) =~= ms.take(8));
    push_string_member(&mut v, Ghost(ms.take(8)), "approval_id", approval_id);
    assert(ms.take(8).push(ms[8]) =~= ms.take(9));
    push_string_member(&mut v, Ghost(ms.take(9)), "repository", repository);
    assert(ms.take(9).push(ms[9]) =~= ms.take(10));
    push_string_member(&mut v, Ghost(ms.take(10)), "agent", agent);
    assert(ms.take(10).push(ms[10]) =~= ms.take(11));
    push_string_member(&mut v, Ghost(ms.take(11)), "ring", skill.ring.as_str());
    assert(ms.take(11).push(ms[11]) =~= ms.take(12));
    push_string_member(&mut v, Ghost(ms.take(12)), "at", at);
    assert(ms.take(12).push(ms[12]) =~= ms.take(13));
    push_string_member(&mut v, Ghost(ms.take(13)), "status", "Recorded");
    assert(ms.take(13).push(ms[13]) =~= ms);
    push_object_end(&mut v, Ghost(ms));
    let text = string_from_chars(v.as_slice());
    vstd::slice::slice_to_vec(text.as_str().as_bytes())
}

/// A receipt's signature and the public key it verifies under.
pub struct SignedReceipt {
    pub receipt_signature: String,
    pub signer_public_key: String,
}

/// Signs the receipt of a run: the signature over the receipt bytes verifies
/// under the published public key.
pub fn sign_receipt(
    key: &SignerKey,
    id: &str,
    workspace_id: &str,
    skill: &StoredSkill,
    approval_id: &str,
    repository: &str,
    agent: &str,
    at: &str,
) -> (out: SignedReceipt)
    ensures
        ({
            let payload = receipt_payload(
                receipt_fields_of(id@, workspace_id@, skill, approval_id@, repository@, agent@, at@),
            );
            &&& out.receipt_signature@ == hex_lower(ed25519_signature_of(key.secret(), payload))
            &&& out.signer_public_key@ == hex_lower(ed25519_public_of(key.secret()))
            &&& hex_signature_accepts(out.signer_public_key@, payload, out.receipt_signature@)
            &&& out.receipt_signature@.len() == 128
        }),
{
    let bytes = receipt_bytes(id, workspace_id, skill, approval_id, repository, agent, at);
    let receipt_signature = sign_bytes(key, bytes.as_slice());
    let signer_public_key = signer_public_key(key);
    SignedReceipt { receipt_signature, signer_public_key }
}

} // verus!
