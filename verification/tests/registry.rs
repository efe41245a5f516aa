use base64::Engine;
use ed25519_dalek::Verifier;
use sha2::Digest;
use std::collections::{BTreeMap, HashSet};
use team_agent_skills::access::{
    approval_lookup_outcome, approval_update_outcome, bearer, new_receipt_id, open_workspace,
    owner_key, owner_lookup_outcome, review_outcome, approver_name,
};
use team_agent_skills::crypto::{
    decode_signing_key, hash_bytes, random_hex, sign_bytes, signer_fingerprint,
    signer_public_key, KeyFileError, SignerKey,
};
use team_agent_skills::denial::Denial;
use team_agent_skills::package::{
    package_bytes, package_is_valid, publish_package, receipt_bytes, sign_receipt,
    signed_payload, stored_package_bytes, GitSource, Publication, StoredSkill,
};
use team_agent_skills::ratelimit::RateLimiter;
use team_agent_skills::release::{
    install_decision, install_lookup_outcome, issue_install_grant, receipt_decision,
    receipt_request, released_lookup_outcome, ring_request, ring_update_outcome,
};
use team_agent_skills::skill::{Adapters, SourceSkill};
use team_agent_skills::source::{
    binding_decision, binding_request, credential_request, publish_failure,
    ContentReply,
};
use team_agent_skills::source_check::{start_source_check, SourceStart};
use team_agent_skills::{
    canonical_github_url, github_repository, hash, repository_is_released, valid_commit,
    valid_package, valid_ring, valid_secret_reference, valid_source_path, valid_text,
};

const COMMIT: &str = "7fa45d6e0ca5274ed376bc86a0c8c6f1d959aad2";
const REPOSITORY_URL: &str = "https://github.com/B-Divyesh/sf-team-agent-skills";

fn strings(items: &[&str]) -> Vec<String> {
    items.iter().map(|s| s.to_string()).collect()
}

/// The package file that the stand-in GitHub serves for a path.
fn fixture_file(path: &str) -> String {
    let id = path
        .rsplit('/')
        .next()
        .unwrap_or("fixture.json")
        .trim_end_matches(".json");
    let secret = if id == "bad-secret" { "ghp_actualSecretValue" } else { "GITHUB_TOKEN" };
    let (target, adapter) = if id == "gemini" {
        ("Gemini CLI", "Read GEMINI.md and run the configured test command.")
    } else {
        ("Codex", "Read AGENTS.md and run the configured test command.")
    };
    format!(
        r#"{{"id":"{id}","name":"{id} package","version":"1.2.3","summary":"Check a release.","targets":["{target}"],"owner":"Mina","secrets":["{secret}"],"instructions":"Run tests and inspect the diff before release.","adapters":{{"{target}":"{adapter}"}},"repositories":["atlas-api","later-repo"],"pilot_repositories":["atlas-api"]}}"#
    )
}

/// Reads a package file into the package fields, as the service does.
fn parse_package(bytes: &[u8]) -> Option<SourceSkill> {
    let v: serde_json::Value = serde_json::from_slice(bytes).ok()?;
    let text = |k: &str| v.get(k).and_then(|x| x.as_str()).map(str::to_string);
    let list = |k: &str| -> Option<Vec<String>> {
        v.get(k)?
            .as_array()?
            .iter()
            .map(|x| x.as_str().map(str::to_string))
            .collect()
    };
    let adapters: BTreeMap<String, String> = v
        .get("adapters")?
        .as_object()?
        .iter()
        .map(|(k, x)| x.as_str().map(|s| (k.clone(), s.to_string())))
        .collect::<Option<_>>()?;
    Some(SourceSkill {
        id: text("id")?,
        name: text("name")?,
        version: text("version")?,
        summary: text("summary")?,
        targets: list("targets")?,
        owner: text("owner")?,
        secrets: list("secrets")?,
        instructions: text("instructions")?,
        adapters: Adapters::from_entries(adapters.into_iter().collect())?,
        repositories: list("repositories")?,
        pilot_repositories: list("pilot_repositories")?,
    })
}

/// Runs the source check of a public repository against a stand-in GitHub: it
/// confirms only the fixture commit and serves the fixture package file,
/// base64 in lines, as blob `blob-{id}`.
fn read_source(url: &str, commit: &str, path: &str) -> Result<(SourceSkill, String), Denial> {
    let start = start_source_check("http://git.test/", url, None, commit, path)?;
    let commit_step = match start {
        SourceStart::Commit(step) => step,
        SourceStart::Credential(_) => unreachable!("a public source needs no credential"),
    };
    let endpoint = commit_step.endpoint();
    assert!(endpoint.starts_with("http://git.test/repos/"));
    assert_eq!(commit_step.credential(), None);
    let sha = if endpoint.ends_with(COMMIT) { COMMIT } else { "not-the-requested-commit" };
    let content_step = commit_step.accept(Some(200), Ok(Some(sha.to_string())))?;
    let endpoint = content_step.endpoint();
    let file_path = endpoint
        .split("/contents/")
        .nth(1)
        .and_then(|rest| rest.split('?').next())
        .unwrap()
        .to_string();
    let id = file_path.rsplit('/').next().unwrap().trim_end_matches(".json").to_string();
    let encoded = base64::engine::general_purpose::STANDARD.encode(fixture_file(&file_path));
    let wrapped = format!("{}\n{}\n", &encoded[..20], &encoded[20..]);
    let package_step = content_step.accept(
        Some(200),
        Ok(ContentReply { sha: Some(format!("blob-{id}")), content: Some(wrapped) }),
    )?;
    assert_eq!(package_step.bytes(), fixture_file(&file_path).as_bytes());
    let parsed = parse_package(package_step.bytes());
    package_step.finish(parsed)
}

fn signer() -> SignerKey {
    SignerKey::from_secret([7u8; 32])
}

fn verified_at() -> String {
    "2024-05-01T10:00:00+00:00".to_string()
}

/// Publishes a fixture package and returns it with the record the registry
/// stores for it.
fn publish(key: &SignerKey, workspace: &str, id: &str) -> (SourceSkill, Publication, StoredSkill) {
    let path = format!("skills/{id}.json");
    let (input, blob) = read_source(REPOSITORY_URL, COMMIT, &path).unwrap();
    let at = verified_at();
    let source = GitSource {
        url: REPOSITORY_URL,
        commit: COMMIT,
        path: &path,
        blob_sha: &blob,
        verified_at: &at,
    };
    let p = publish_package(key, workspace, &input, &source).unwrap();
    let record = StoredSkill {
        workspace_id: workspace.to_string(),
        id: input.id.clone(),
        name: input.name.clone(),
        version: input.version.clone(),
        summary: input.summary.clone(),
        targets: p.targets.clone(),
        ring: "draft".to_string(),
        updated: at.clone(),
        owner: input.owner.clone(),
        secrets: p.secrets.clone(),
        instructions: input.instructions.clone(),
        adapters: p.adapters.clone(),
        git_url: REPOSITORY_URL.to_string(),
        git_credential_ref: String::new(),
        git_commit: COMMIT.to_string(),
        source_path: path.clone(),
        source_blob_sha: blob.clone(),
        source_verified_at: at.clone(),
        package_digest: p.package_digest.clone(),
        package_signature: p.package_signature.clone(),
        signer_public_key: p.signer_public_key.clone(),
        repositories: p.repositories.clone(),
        pilot_repositories: p.pilot_repositories.clone(),
        approved_by: None,
        approved_at: None,
        approval_id: None,
    };
    (input, p, record)
}

fn approved(mut record: StoredSkill, ring: &str) -> StoredSkill {
    record.approved_by = Some("Nora Singh".to_string());
    record.approved_at = Some(verified_at());
    record.approval_id = Some("apr-0011223344556677".to_string());
    record.ring = ring.to_string();
    record
}

/// The reviewed-release lookup: only approved pilot or full releases match.
fn released_row(record: &StoredSkill) -> Result<Option<StoredSkill>, ()> {
    if record.approved_at.is_some() && (record.ring == "pilot" || record.ring == "all") {
        Ok(Some(clone_record(record)))
    } else {
        Ok(None)
    }
}

fn clone_record(r: &StoredSkill) -> StoredSkill {
    StoredSkill {
        workspace_id: r.workspace_id.clone(),
        id: r.id.clone(),
        name: r.name.clone(),
        version: r.version.clone(),
        summary: r.summary.clone(),
        targets: r.targets.clone(),
        ring: r.ring.clone(),
        updated: r.updated.clone(),
        owner: r.owner.clone(),
        secrets: r.secrets.clone(),
        instructions: r.instructions.clone(),
        adapters: r.adapters.clone(),
        git_url: r.git_url.clone(),
        git_credential_ref: r.git_credential_ref.clone(),
        git_commit: r.git_commit.clone(),
        source_path: r.source_path.clone(),
        source_blob_sha: r.source_blob_sha.clone(),
        source_verified_at: r.source_verified_at.clone(),
        package_digest: r.package_digest.clone(),
        package_signature: r.package_signature.clone(),
        signer_public_key: r.signer_public_key.clone(),
        repositories: r.repositories.clone(),
        pilot_repositories: r.pilot_repositories.clone(),
        approved_by: r.approved_by.clone(),
        approved_at: r.approved_at.clone(),
        approval_id: r.approval_id.clone(),
    }
}

fn status<T>(r: Result<T, Denial>) -> u16 {
    match r {
        Ok(_) => 200,
        Err(d) => d.status(),
    }
}

#[test]
fn claim_private_workspace() {
    assert_eq!(owner_key(None).unwrap_err().status(), 401);
    let a = open_workspace("Team A").unwrap();
    let b = open_workspace("Team B").unwrap();
    assert!(!a.token_hash.contains(&a.token), "owner key is stored only as a hash");
    assert_eq!(a.token_hash, hash(&a.token));
    assert_ne!(a.id, b.id);
    // The same package id publishes in each workspace: the records differ in workspace.
    let key = signer();
    let (_, pa, _) = publish(&key, &a.id, "shared-id");
    let (_, pb, _) = publish(&key, &b.id, "shared-id");
    assert_ne!(pa.package_digest, pb.package_digest, "ids and versions are scoped to a workspace");
}

#[test]
fn claim_secret_reference_format() {
    let bad = read_source(REPOSITORY_URL, COMMIT, "skills/bad-secret.json");
    assert_eq!(status(bad), 400);
    let good = read_source(REPOSITORY_URL, COMMIT, "skills/good.json");
    assert!(good.is_ok());
}

#[test]
fn claim_git_signed_package() {
    let invented = read_source(
        REPOSITORY_URL,
        "aaaaaaaaaaaaaaaaaaaaaaaaaaaaaaaaaaaaaaaa",
        "skills/invented.json",
    );
    assert_eq!(status(invented), 422, "an invented Git commit is rejected");
    assert_eq!(
        status(read_source("https://example.com/not-a-repository", COMMIT, "skills/other-host.json")),
        400
    );

    let key = signer();
    let (input, first, record) = publish(&key, "ws-0001", "signed-a");
    assert_eq!(input.instructions, "Run tests and inspect the diff before release.");
    assert_eq!(record.source_path, "skills/signed-a.json");
    assert_eq!(record.source_blob_sha, "blob-signed-a");
    let (second, _, _) = {
        let (i, p, r) = publish(&key, "ws-0001", "gemini");
        (p, i, r)
    };
    assert_ne!(first.package_digest, second.package_digest);
    assert_eq!(first.package_signature.len(), 128);
    assert_eq!(first.signer_public_key.len(), 64);
    let payload = hex::decode(&first.signed_payload).unwrap();
    assert_eq!(format!("{:x}", sha2::Sha256::digest(&payload)), first.package_digest);
    let key_bytes: [u8; 32] = hex::decode(&first.signer_public_key).unwrap().try_into().unwrap();
    let signature_bytes: [u8; 64] =
        hex::decode(&first.package_signature).unwrap().try_into().unwrap();
    ed25519_dalek::VerifyingKey::from_bytes(&key_bytes)
        .unwrap()
        .verify(&payload, &ed25519_dalek::Signature::from_bytes(&signature_bytes))
        .unwrap();
    assert!(record.source_verified_at.contains('T'));
    assert_eq!(
        status::<()>(Err(publish_failure("UNIQUE constraint failed: skills.workspace_id, skills.id"))),
        409,
        "name and version identify one immutable package per workspace"
    );
}

#[test]
fn claim_independent_one_time_review() {
    let key = signer();
    let (_, p, record) = publish(&key, "ws-review", "review-me");
    assert!(!p.reviewer_hash.contains(&p.reviewer_key), "approval key is stored only as a hash");
    assert_eq!(p.reviewer_hash, hash(&p.reviewer_key));
    // The owner key matches no unreviewed package.
    assert_eq!(status(review_outcome(&key, Ok(None))), 401);
    let independent = review_outcome(&key, Ok(Some(clone_record(&record)))).unwrap();
    assert_eq!(independent.package_digest, p.package_digest);
    let approval = approval_lookup_outcome(&key, Ok(Some(clone_record(&record)))).unwrap();
    assert_eq!(approval.id, "review-me");
    assert!(approval_update_outcome(Ok(1)).is_ok());
    assert_eq!(approver_name("  Nora Singh ").unwrap(), "Nora Singh");
    // Reused: the key no longer matches an unreviewed package.
    assert_eq!(status(approval_lookup_outcome(&key, Ok(None))), 401, "approval key is consumed atomically");
    assert_eq!(status(approval_update_outcome(Ok(0))), 409);
}

#[test]
fn claim_governed_execution_receipt() {
    let key = signer();
    let (_, p, record) = publish(&key, "ws-receipts", "governed");
    assert!(receipt_request("governed", "atlas-api", "Codex").is_ok());
    assert_eq!(status(released_lookup_outcome(released_row(&record))), 409);
    let reviewed = approved(record, "review");
    assert_eq!(
        status(released_lookup_outcome(released_row(&reviewed))),
        409,
        "review ring is not installable"
    );
    assert_eq!(ring_request("pilot"), Ok(true));
    assert!(ring_update_outcome(true, Ok(1)).is_ok());
    let pilot = approved(clone_record(&reviewed), "pilot");
    let found = released_lookup_outcome(released_row(&pilot)).unwrap();
    assert_eq!(status(receipt_decision(&key, &found, "atlas-api", "Unassigned Agent")), 403);
    assert_eq!(status(receipt_decision(&key, &found, "other", "Codex")), 403);
    let approval_id = receipt_decision(&key, &found, "atlas-api", "Codex").unwrap();
    assert_eq!(approval_id, "apr-0011223344556677");
    let id = new_receipt_id().unwrap();
    let signed = sign_receipt(&key, &id, "ws-receipts", &found, &approval_id, "atlas-api", "Codex", "2024-05-01T10:00:00+00:00");
    assert_eq!(found.package_signature, p.package_signature);
    assert_eq!(signed.receipt_signature.len(), 128);
    let grant = issue_install_grant(&found, "atlas-api", "Codex").unwrap();
    assert!(grant.credential.starts_with("tsr_install_"));
    let installed = install_decision(&key, released_row(&pilot), "atlas-api", "Codex").unwrap();
    assert_eq!(installed.package_digest, p.package_digest);
    let ids: HashSet<String> = (0..40).map(|_| new_receipt_id().unwrap()).collect();
    assert_eq!(ids.len(), 40, "concurrent receipts have unique ids");
}

#[test]
fn claim_pilot_ring_access() {
    let key = signer();
    let (_, _, record) = publish(&key, "ws-pilot", "ring-check");
    let pilot = approved(record, "pilot");
    assert!(issue_install_grant(&pilot, "atlas-api", "Codex").is_ok());
    assert!(issue_install_grant(&pilot, "later-repo", "Codex").is_ok());
    assert_eq!(status(install_decision(&key, released_row(&pilot), "atlas-api", "Codex")), 200);
    assert_eq!(
        status(install_decision(&key, released_row(&pilot), "later-repo", "Codex")),
        403,
        "an assigned repository outside the pilot cohort cannot install"
    );
    let all = approved(clone_record(&pilot), "all");
    assert_eq!(status(install_decision(&key, released_row(&all), "later-repo", "Codex")), 200);
}

/// Install credentials as the registry stores them: hash, package, repository, agent.
fn credential_lookup(
    table: &[(String, String, String, String, String)],
    presented: &str,
    skill: &str,
    repository: &str,
    agent: &str,
) -> Result<Option<String>, ()> {
    let h = hash(presented);
    Ok(table
        .iter()
        .find(|(t, s, r, a, _)| *t == h && s == skill && r == repository && a == agent)
        .map(|(_, _, _, _, w)| w.clone()))
}

#[test]
fn claim_scoped_install_credentials() {
    let key = signer();
    let owner = open_workspace("Install boundary").unwrap();
    let (_, _, record) = publish(&key, &owner.id, "scoped");
    let all = approved(record, "all");
    let grant = issue_install_grant(&all, "atlas-api", "Codex").unwrap();
    let table = vec![(
        grant.credential_hash.clone(),
        "scoped".to_string(),
        "atlas-api".to_string(),
        "Codex".to_string(),
        owner.id.clone(),
    )];
    // The owner key is no install credential.
    let as_owner = install_lookup_outcome(credential_lookup(&table, &owner.token, "scoped", "atlas-api", "Codex"));
    assert_eq!(status(as_owner), 401);
    // The install credential is no owner key.
    let owner_lookup = owner_lookup_outcome(Ok(if hash(&grant.credential) == owner.token_hash { Some(owner.id.clone()) } else { None }));
    assert_eq!(status(owner_lookup), 401);
    assert_eq!(status(ring_request("draft").and_then(|_| owner_lookup_outcome(Ok(None)))), 401);
    let other_repo = install_lookup_outcome(credential_lookup(&table, &grant.credential, "scoped", "later-repo", "Codex"));
    assert_eq!(status(other_repo), 401);
    let other_agent = install_lookup_outcome(credential_lookup(&table, &grant.credential, "scoped", "atlas-api", "Gemini CLI"));
    assert_eq!(status(other_agent), 401);
    let workspace = install_lookup_outcome(credential_lookup(&table, &grant.credential, "scoped", "atlas-api", "Codex")).unwrap();
    assert_eq!(workspace, owner.id);
    assert_eq!(status(install_decision(&key, released_row(&all), "atlas-api", "Codex")), 200);
}

#[test]
fn claim_trusted_client_rate_limit() {
    let mut limits = RateLimiter::new();
    let first = team_agent_skills::http::first_forwarded_hop("198.51.100.20, 10.0.0.8");
    let second = team_agent_skills::http::first_forwarded_hop("198.51.100.21, 10.0.0.8");
    assert_eq!(first, "198.51.100.20");
    let a = team_agent_skills::http::client_key(Some(&first), None);
    let b = team_agent_skills::http::client_key(Some(&second), None);
    assert_eq!(a, "forwarded:198.51.100.20");
    for _ in 0..40 {
        assert!(!limits.check(&a, 5_000));
    }
    assert!(!limits.check(&b, 5_000), "a separate trusted first hop retains its own allowance");
    for _ in 0..10 {
        assert!(limits.check(&a, 5_100), "one trusted client cannot exceed its own limit");
        assert_eq!(Denial::TooManyRequests.status(), 429);
    }
}

/// Runs the credential steps of a private source at `url` against a binding
/// lookup and the deployment's configuration; the credential's value is read
/// (and `reads` counted) only when asked for.
fn private_credential(
    url: &str,
    bound: Result<Option<String>, ()>,
    configured: Option<&str>,
    reads: &mut u32,
) -> Result<String, Denial> {
    let step = match start_source_check("http://git.test", url, Some("PRIVATE_GITHUB"), COMMIT, "skills/private-source.json")? {
        SourceStart::Credential(step) => step,
        SourceStart::Commit(_) => unreachable!("a named reference waits for its credential"),
    };
    let secret_step = step.check_binding(bound, configured)?;
    assert_eq!(secret_step.reference(), "PRIVATE_GITHUB");
    *reads += 1;
    let commit_step = secret_step.take(Some("fixture-private-token".to_string()))?;
    Ok(commit_step.credential().unwrap().to_string())
}

#[test]
fn claim_private_git_source() {
    let owner = "ws-owner";
    let other = "ws-other";
    let url = "https://github.com/acme/private-skills.git";
    let configured = Some("https://github.com/acme/private-skills");
    let mut reads = 0;
    let request = credential_request(Some("PRIVATE_GITHUB"), url).unwrap().unwrap();
    assert_eq!(request.expected_url, "https://github.com/acme/private-skills");
    let unbound = private_credential(url, Ok(None), configured, &mut reads);
    assert_eq!(status(unbound), 403, "a reference must be workspace-bound first");
    assert_eq!(reads, 0, "no credential value is read for an unbound reference");
    let bound_url = binding_request("PRIVATE_GITHUB", url).unwrap();
    assert!(binding_decision(&bound_url, configured, true, Ok(None), owner).is_ok());
    let granted = private_credential(url, Ok(Some(bound_url.clone())), configured, &mut reads).unwrap();
    assert_eq!(granted, "fixture-private-token");
    assert_eq!(reads, 1);
    let second = binding_request("PRIVATE_GITHUB", "https://github.com/acme/private-skills").unwrap();
    assert_eq!(
        status(binding_decision(&second, configured, true, Ok(Some(owner.to_string())), other)),
        403,
        "a deployment reference cannot be claimed by a second workspace"
    );
    assert_eq!(
        status(private_credential(url, Ok(None), configured, &mut reads)),
        403,
        "a binding cannot cross workspaces"
    );
    assert_eq!(
        status(private_credential(
            "https://github.com/acme/other-private-skills",
            Ok(Some(bound_url)),
            configured,
            &mut reads
        )),
        403,
        "a binding cannot read another repository"
    );
    assert_eq!(reads, 1);
}

#[test]
fn health_and_rate_limit_contract() {
    let key = signer();
    assert_eq!(signer_fingerprint(&key).len(), 64);
    assert!(!team_agent_skills::http::is_rate_limited_path("/health"));
    assert!(team_agent_skills::http::is_rate_limited_path("/api/trust"));
}

#[test]
fn signing_identity_and_data_survive_restart() {
    let key = team_agent_skills::crypto::generate_signer_key().unwrap();
    let before = signer_fingerprint(&key);
    let stored = format!("{}\n", key.to_file_text());
    let restored = decode_signing_key(&stored).unwrap();
    assert_eq!(before, signer_fingerprint(&restored));
    assert_eq!(signer_public_key(&key), signer_public_key(&restored));
}
