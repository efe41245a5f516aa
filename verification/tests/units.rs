use ed25519_dalek::Verifier;
use sha2::Digest;
use std::collections::BTreeMap;
use team_agent_skills::source_check::{start_source_check, SourceStart};
use team_agent_skills::access::{
    bearer, open_workspace, recovery_key, recovery_lookup_outcome, recovery_update_outcome,
    replacement_owner_key,
};
use team_agent_skills::crypto::{
    decode_signing_key, hash_bytes, random_hex, sign_bytes, signer_fingerprint,
    signer_public_key, KeyFileError, SignerKey,
};
use team_agent_skills::denial::Denial;
use team_agent_skills::http::{cache_control, security_headers};
use team_agent_skills::json::{json_array, json_array_text, json_map, json_object_text};
use team_agent_skills::package::{
    package_bytes, package_is_valid, publish_package, signed_payload, stored_package_bytes,
    GitSource, StoredSkill,
};
use team_agent_skills::ratelimit::RateLimiter;
use team_agent_skills::release::{instruction_file, instruction_file_name, install_decision, released_lookup_outcome, ring_request, ring_update_outcome};
use team_agent_skills::skill::{text_before, Adapters, SourceSkill};
use team_agent_skills::source::{
    binding_boundary, configured_boundary, commit_body_outcome, commit_endpoint, commit_status_outcome, content_endpoint,
    content_outcome, content_status_outcome, publication_request, ContentReply,
};
use team_agent_skills::{
    canonical_github_url, github_repository, hash, repository_is_released, valid_commit,
    valid_package, valid_ring, valid_secret_reference, valid_source_path, valid_text,
};

fn adapters(items: &[(&str, &str)]) -> Adapters {
    Adapters::from_entries(items.iter().map(|(k, v)| (k.to_string(), v.to_string())).collect())
        .unwrap()
}

fn strings(items: &[&str]) -> Vec<String> {
    items.iter().map(|s| s.to_string()).collect()
}

fn sample() -> SourceSkill {
    SourceSkill {
        id: "lint".to_string(),
        name: "Lint \"strict\"".to_string(),
        version: "2.0.0".to_string(),
        summary: "Tabs\tand\nlines and \u{1}control and é".to_string(),
        targets: strings(&["Codex", "Gemini CLI"]),
        owner: "Mina".to_string(),
        secrets: strings(&["GITHUB_TOKEN", "NPM_TOKEN"]),
        instructions: "Run \\ checks".to_string(),
        adapters: adapters(&[("Codex", "Read AGENTS.md"), ("Gemini CLI", "Read GEMINI.md")]),
        repositories: strings(&["atlas-api", "later-repo"]),
        pilot_repositories: strings(&["atlas-api"]),
    }
}

#[test]
fn text_rules() {
    assert!(valid_text("Team A", 80));
    assert!(!valid_text("   \t\u{3000}", 80));
    assert!(!valid_text("a\0b", 80));
    assert!(valid_text("éé", 4));
    assert!(!valid_text("ééé", 5));
    assert!(!valid_text("", 10));
}

#[test]
fn ring_names() {
    for ring in ["draft", "review", "pilot", "all"] {
        assert!(valid_ring(ring));
    }
    assert!(!valid_ring("beta"));
    assert!(!valid_ring("All"));
    assert_eq!(ring_request("beta").unwrap_err().status(), 400);
    assert_eq!(ring_request("review"), Ok(false));
    assert_eq!(ring_request("all"), Ok(true));
    assert_eq!(ring_update_outcome(true, Ok(0)).unwrap_err().status(), 409);
    assert_eq!(ring_update_outcome(false, Ok(0)).unwrap_err().status(), 404);
    assert_eq!(ring_update_outcome(false, Err(())).unwrap_err().status(), 500);
}

#[test]
fn secret_reference_names() {
    assert!(valid_secret_reference("GITHUB_TOKEN"));
    assert!(valid_secret_reference("A1"));
    assert!(!valid_secret_reference("A"));
    assert!(!valid_secret_reference("ghp_actualSecretValue"));
    assert!(!valid_secret_reference("_TOKEN"));
    assert!(!valid_secret_reference("TOKEN-1"));
    assert!(!valid_secret_reference(&"A".repeat(65)));
    assert!(valid_secret_reference(&"A".repeat(64)));
}

#[test]
fn commits_and_paths() {
    assert!(valid_commit("7fa45d6e0ca5274ed376bc86a0c8c6f1d959aad2"));
    assert!(valid_commit("7FA45D6E0CA5274ED376BC86A0C8C6F1D959AAD2"));
    assert!(!valid_commit("7fa45d6e"));
    assert!(!valid_commit("gfa45d6e0ca5274ed376bc86a0c8c6f1d959aad2"));
    assert!(valid_source_path("skills/signed-a.json"));
    assert!(valid_source_path("a.json"));
    assert!(!valid_source_path("/skills/a.json"));
    assert!(!valid_source_path("skills/../a.json"));
    assert!(!valid_source_path("skills//a.json"));
    assert!(!valid_source_path("skills/a b.json"));
    assert!(!valid_source_path("skills/a.yaml"));
    assert!(!valid_source_path(""));
    assert!(!valid_source_path(&format!("{}.json", "a".repeat(236))));
    assert!(valid_source_path(&format!("{}.json", "a".repeat(235))));
    let lowered = publication_request("7FA45D6E0CA5274ED376BC86A0C8C6F1D959AAD2", "skills/a.json").unwrap();
    assert_eq!(lowered, "7fa45d6e0ca5274ed376bc86a0c8c6f1d959aad2");
    assert_eq!(publication_request("abc", "skills/a.json").unwrap_err(), Denial::CommitAndPath);
}

#[test]
fn github_urls() {
    assert_eq!(
        github_repository("https://github.com/acme/private-skills.git"),
        Some(("acme".to_string(), "private-skills".to_string()))
    );
    assert_eq!(
        github_repository("https://github.com/acme/tools///"),
        Some(("acme".to_string(), "tools".to_string()))
    );
    assert_eq!(github_repository("https://github.com/acme"), None);
    assert_eq!(github_repository("https://github.com/acme/a/b"), None);
    assert_eq!(github_repository("https://github.com/acme/tools?x=1"), None);
    assert_eq!(github_repository("https://github.com//tools"), None);
    assert_eq!(github_repository("https://github.com/acme/.git"), None);
    assert_eq!(github_repository("http://github.com/acme/tools"), None);
    assert_eq!(
        canonical_github_url("https://github.com/acme/private-skills.git").as_deref(),
        Some("https://github.com/acme/private-skills")
    );
    // A name that still ends in `.git` loses one suffix per reading.
    let once = canonical_github_url("https://github.com/a/b.git.git").unwrap();
    assert_eq!(once, "https://github.com/a/b.git");
    assert_eq!(canonical_github_url(&once).unwrap(), "https://github.com/a/b");
}

#[test]
fn sha256_hex() {
    assert_eq!(
        hash("abc"),
        "ba7816bf8f01cfea414140de5dae2223b00361a396177a9cb410ff61f20015ad"
    );
    assert_eq!(
        hash_bytes(b""),
        "e3b0c44298fc1c149afbf4c8996fb92427ae41e4649b934ca495991b7852b855"
    );
}

#[test]
fn ed25519_vector() {
    let secret: [u8; 32] = hex::decode("9d61b19deffd5a60ba844af492ec2cc44449c5697b326919703bac031cae7f60")
        .unwrap()
        .try_into()
        .unwrap();
    let key = SignerKey::from_secret(secret);
    assert_eq!(
        signer_public_key(&key),
        "d75a980182b10ab7d54bfed3c964073a0ee172f3daa62325af021a68f707511a"
    );
    assert_eq!(
        sign_bytes(&key, b""),
        "e5564300c360ac729086e2cc806e828a84877f1eb8e5d974d873e065224901555fb8821590a33bacc61e39701cf9b46bd25bf5f0595bbe24655141438e7a100b"
    );
}

#[test]
fn signing_key_text() {
    let key = decode_signing_key("  9d61b19deffd5a60ba844af492ec2cc44449c5697b326919703bac031cae7f60\n").unwrap();
    assert_eq!(
        signer_public_key(&key),
        "d75a980182b10ab7d54bfed3c964073a0ee172f3daa62325af021a68f707511a"
    );
    assert_eq!(decode_signing_key("abcd").err(), Some(KeyFileError::WrongLength));
    assert_eq!(decode_signing_key("xyz").err(), Some(KeyFileError::NotHex));
    assert_eq!(decode_signing_key("abc").err(), Some(KeyFileError::NotHex));
    let text = key.to_file_text();
    assert_eq!(text, "9d61b19deffd5a60ba844af492ec2cc44449c5697b326919703bac031cae7f60");
}

#[test]
fn stored_key_reads_back() {
    let key = SignerKey::from_secret([0x5au8; 32]);
    let text = format!("\t {}\r\n", key.to_file_text());
    let restored = decode_signing_key(&text).unwrap();
    assert_eq!(signer_public_key(&restored), signer_public_key(&key));
}

#[test]
fn fingerprint_of_published_key() {
    let key = SignerKey::from_secret([3u8; 32]);
    let public = hex::decode(signer_public_key(&key)).unwrap();
    assert_eq!(signer_fingerprint(&key), hash_bytes(&public));
    assert_eq!(
        signer_fingerprint(&key),
        format!("{:x}", sha2::Sha256::digest(&public))
    );
}

#[test]
fn recovery_key_replaces_owner_key() {
    let grant = open_workspace("Recovery").unwrap();
    assert!(grant.recovery_key.starts_with("tsr_recovery_"));
    assert_eq!(grant.recovery_key.len(), "tsr_recovery_".len() + 48);
    assert_eq!(grant.recovery_hash, hash(&grant.recovery_key));
    assert_ne!(grant.recovery_key, grant.token);
    assert_ne!(grant.recovery_hash, grant.token_hash);
    let header = format!("Bearer {}", grant.recovery_key);
    assert_eq!(recovery_key(Some(&header)).unwrap(), grant.recovery_key);
    assert_eq!(recovery_key(None).err(), Some(Denial::RecoveryKeyMissing));
    assert_eq!(recovery_lookup_outcome(Ok(None)).unwrap_err().status(), 401);
    assert_eq!(recovery_lookup_outcome(Err(())).err(), Some(Denial::WorkspaceCheckFailed));
    assert_eq!(recovery_lookup_outcome(Ok(Some(grant.id.clone()))).unwrap(), grant.id);
    let replaced = replacement_owner_key().unwrap();
    assert!(replaced.token.starts_with("tsr_"));
    assert_eq!(replaced.token.len(), 4 + 48);
    assert_eq!(replaced.token_hash, hash(&replaced.token));
    assert_ne!(replaced.token, grant.token);
    assert!(recovery_update_outcome(Ok(1)).is_ok());
    assert_eq!(recovery_update_outcome(Ok(0)).err(), Some(Denial::RecoveryFailed));
}

#[test]
fn install_instruction_files() {
    assert_eq!(instruction_file_name("Codex"), "AGENTS.md");
    assert_eq!(instruction_file_name("Gemini CLI"), "GEMINI.md");
    assert_eq!(instruction_file_name("Other Agent"), "INSTRUCTIONS.md");
    let input = sample();
    let source = GitSource {
        url: "https://github.com/acme/tools",
        commit: "7fa45d6e0ca5274ed376bc86a0c8c6f1d959aad2",
        path: "skills/lint.json",
        blob_sha: "blob-1",
        verified_at: "2024-05-01T10:00:00+00:00",
    };
    let key = SignerKey::from_secret([3u8; 32]);
    let record = record_of(&input, &source, &key);
    let codex = instruction_file(&record, "Codex");
    assert_eq!(codex.path, "AGENTS.md");
    assert_eq!(codex.content, "Run \\ checks\n\nRead AGENTS.md\n");
    let gemini = instruction_file(&record, "Gemini CLI");
    assert_eq!(gemini.path, "GEMINI.md");
    assert_eq!(gemini.content, "Run \\ checks\n\nRead GEMINI.md\n");
    let other = instruction_file(&record, "Other Agent");
    assert_eq!(other.path, "INSTRUCTIONS.md");
    assert_eq!(other.content, "Run \\ checks\n");
}

#[test]
fn fixed_security_headers() {
    let headers = security_headers();
    assert_eq!(headers.len(), 5);
    assert_eq!(headers[0], ("x-content-type-options", "nosniff"));
    assert_eq!(headers[2], ("strict-transport-security", "max-age=31536000; includeSubDomains"));
    assert!(headers[4].1.contains("frame-ancestors 'none'"));
}

#[test]
fn key_kinds_differ() {
    let owner = open_workspace("Keys").unwrap().token;
    assert!(owner.starts_with("tsr_"));
    assert!(owner[4..].chars().all(|c| c.is_ascii_hexdigit()));
    assert_eq!(owner.len(), 4 + 48);
    // The fifth character of an install or approval key is no hex digit.
    assert!(!"tsr_install_".chars().nth(4).unwrap().is_ascii_hexdigit());
    assert!(!"tsr_review_".chars().nth(4).unwrap().is_ascii_hexdigit());
}

#[test]
fn random_identifiers() {
    let a = random_hex(8).unwrap();
    let b = random_hex(8).unwrap();
    assert_eq!(a.len(), 16);
    assert!(a.chars().all(|c| c.is_ascii_hexdigit() && !c.is_ascii_uppercase()));
    assert_ne!(a, b);
    let grant = open_workspace("  Team A  ").unwrap();
    assert_eq!(grant.name, "Team A");
    assert!(grant.id.starts_with("ws-") && grant.id.len() == 19);
    assert!(grant.token.starts_with("tsr_") && grant.token.len() == 52);
    assert_eq!(open_workspace(" ").err(), Some(Denial::NameWorkspace));
}

#[test]
fn json_text_matches_serde_json() {
    let items = strings(&["plain", "quote \" and \\ slash /", "ctl \u{0} \u{1f} \u{7f} \u{8}\u{c}\n\r\t", "é 中 😀"]);
    assert_eq!(json_array_text(&items), serde_json::to_string(&items).unwrap());
    let empty: Vec<String> = Vec::new();
    assert_eq!(json_array_text(&empty), serde_json::to_string(&empty).unwrap());
    let mut map = BTreeMap::new();
    map.insert("b\"".to_string(), "\u{2}".to_string());
    map.insert("a".to_string(), "x".to_string());
    let entries: Vec<(String, String)> = map.clone().into_iter().collect();
    assert_eq!(json_object_text(&entries), serde_json::to_string(&map).unwrap());
}

#[test]
fn stored_json_reads_back() {
    assert_eq!(json_array("[\"a\", \"b\"]"), strings(&["a", "b"]));
    assert_eq!(json_array("not json"), Vec::<String>::new());
    assert_eq!(
        json_map("{\"k\":\"v\",\"a\":\"b\"}"),
        vec![("a".to_string(), "b".to_string()), ("k".to_string(), "v".to_string())]
    );
    assert_eq!(json_map("[1]"), Vec::<(String, String)>::new());
}

#[test]
fn envelope_matches_serde_layout() {
    let input = sample();
    let source = GitSource {
        url: "https://github.com/acme/tools",
        commit: "7fa45d6e0ca5274ed376bc86a0c8c6f1d959aad2",
        path: "skills/lint.json",
        blob_sha: "blob-1",
        verified_at: "2024-05-01T10:00:00+00:00",
    };
    let bytes = package_bytes("ws-1", &input, &source);
    let s = |v: &str| serde_json::to_string(v).unwrap();
    let a = |v: &Vec<String>| serde_json::to_string(v).unwrap();
    let adapters: BTreeMap<String, String> = input.adapters.entries().iter().cloned().collect();
    let expected = format!(
        "{{\"schema\":{},\"workspace_id\":{},\"id\":{},\"name\":{},\"version\":{},\"summary\":{},\"targets\":{},\"owner\":{},\"secrets\":{},\"instructions\":{},\"adapters\":{},\"git_url\":{},\"git_commit\":{},\"source_path\":{},\"source_blob_sha\":{},\"source_verified_at\":{},\"repositories\":{},\"pilot_repositories\":{}}}",
        s("team-agent-skill-envelope/v2"), s("ws-1"), s(&input.id), s(&input.name), s(&input.version),
        s(&input.summary), a(&input.targets), s(&input.owner), a(&input.secrets), s(&input.instructions),
        serde_json::to_string(&adapters).unwrap(), s(source.url), s(source.commit), s(source.path),
        s(source.blob_sha), s(source.verified_at), a(&input.repositories), a(&input.pilot_repositories)
    );
    assert_eq!(String::from_utf8(bytes).unwrap(), expected);
}

fn record_of(input: &SourceSkill, source: &GitSource, key: &SignerKey) -> StoredSkill {
    let p = publish_package(key, "ws-1", input, source).unwrap();
    StoredSkill {
        workspace_id: "ws-1".to_string(),
        id: input.id.clone(),
        name: input.name.clone(),
        version: input.version.clone(),
        summary: input.summary.clone(),
        targets: p.targets,
        ring: "all".to_string(),
        updated: "now".to_string(),
        owner: input.owner.clone(),
        secrets: p.secrets,
        instructions: input.instructions.clone(),
        adapters: p.adapters,
        git_url: source.url.to_string(),
        git_credential_ref: String::new(),
        git_commit: source.commit.to_string(),
        source_path: source.path.to_string(),
        source_blob_sha: source.blob_sha.to_string(),
        source_verified_at: source.verified_at.to_string(),
        package_digest: p.package_digest,
        package_signature: p.package_signature,
        signer_public_key: p.signer_public_key,
        repositories: p.repositories,
        pilot_repositories: p.pilot_repositories,
        approved_by: None,
        approved_at: None,
        approval_id: None,
    }
}

#[test]
fn stored_record_verifies_and_tampering_fails() {
    let input = sample();
    assert!(valid_package(&input));
    let source = GitSource {
        url: "https://github.com/acme/tools",
        commit: "7fa45d6e0ca5274ed376bc86a0c8c6f1d959aad2",
        path: "skills/lint.json",
        blob_sha: "blob-1",
        verified_at: "2024-05-01T10:00:00+00:00",
    };
    let key = SignerKey::from_secret([3u8; 32]);
    let record = record_of(&input, &source, &key);
    assert_eq!(stored_package_bytes(&record), package_bytes("ws-1", &input, &source));
    assert!(package_is_valid(&key, &record));
    assert!(repository_is_released(&record, "later-repo"));
    let mut tampered = record_of(&input, &source, &key);
    tampered.instructions = "Release without tests.".to_string();
    assert!(!package_is_valid(&key, &tampered));
    let other = SignerKey::from_secret([4u8; 32]);
    assert!(!package_is_valid(&other, &record));
    let mut bad_signature = record_of(&input, &source, &key);
    bad_signature.package_signature = "00".repeat(64);
    assert!(!package_is_valid(&key, &bad_signature));
}

#[test]
fn installed_record_checks_on_its_own() {
    let input = sample();
    let source = GitSource {
        url: "https://github.com/acme/tools",
        commit: "7fa45d6e0ca5274ed376bc86a0c8c6f1d959aad2",
        path: "skills/lint.json",
        blob_sha: "blob-1",
        verified_at: "2024-05-01T10:00:00+00:00",
    };
    let key = SignerKey::from_secret([3u8; 32]);
    let mut record = record_of(&input, &source, &key);
    record.approved_at = Some("2024-05-02T10:00:00+00:00".to_string());
    let installed = install_decision(&key, Ok(Some(record)), "atlas-api", "Codex").unwrap();
    let payload = hex::decode(signed_payload(&installed)).unwrap();
    assert_eq!(format!("{:x}", sha2::Sha256::digest(&payload)), installed.package_digest);
    let public: [u8; 32] = hex::decode(&installed.signer_public_key).unwrap().try_into().unwrap();
    let signature: [u8; 64] = hex::decode(&installed.package_signature).unwrap().try_into().unwrap();
    ed25519_dalek::VerifyingKey::from_bytes(&public)
        .unwrap()
        .verify(&payload, &ed25519_dalek::Signature::from_bytes(&signature))
        .unwrap();
}

#[test]
fn envelope_binds_workspace() {
    let input = sample();
    let source = GitSource {
        url: "https://github.com/acme/tools",
        commit: "7fa45d6e0ca5274ed376bc86a0c8c6f1d959aad2",
        path: "skills/lint.json",
        blob_sha: "blob-1",
        verified_at: "2024-05-01T10:00:00+00:00",
    };
    let a = package_bytes("ws-a", &input, &source);
    let b = package_bytes("ws-b", &input, &source);
    assert_ne!(a, b);
    // A quote inside a workspace id is escaped, so no id can imitate another
    // id followed by more members.
    let c = package_bytes("ws-a\",\"x", &input, &source);
    assert_ne!(a, c);
    assert!(String::from_utf8(c).unwrap().contains(r#""workspace_id":"ws-a\",\"x""#));
}

#[test]
fn adapter_keys_in_order() {
    let swapped = vec![
        ("Gemini CLI".to_string(), "Read GEMINI.md".to_string()),
        ("Codex".to_string(), "Read AGENTS.md".to_string()),
    ];
    assert!(Adapters::from_entries(swapped).is_none(), "adapters are listed in key order");
    let twice = vec![
        ("Codex".to_string(), "Read AGENTS.md".to_string()),
        ("Codex".to_string(), "Read GEMINI.md".to_string()),
    ];
    assert!(Adapters::from_entries(twice).is_none(), "no agent has two adapters");
    let in_order = adapters(&[("Codex", "a"), ("Gemini CLI", "b")]);
    assert_eq!(in_order.entries().len(), 2);
    assert!(text_before("Codex", "Gemini CLI"));
    assert!(text_before("Code", "Codex"));
    assert!(!text_before("Codex", "Codex"));
    assert!(text_before("Z", "a"));
    assert!(text_before("a", "é"));
}

#[test]
fn installs_need_a_reviewed_release() {
    let input = sample();
    let source = GitSource {
        url: "https://github.com/acme/tools",
        commit: "7fa45d6e0ca5274ed376bc86a0c8c6f1d959aad2",
        path: "skills/lint.json",
        blob_sha: "blob-1",
        verified_at: "2024-05-01T10:00:00+00:00",
    };
    let key = SignerKey::from_secret([3u8; 32]);
    let unapproved = record_of(&input, &source, &key);
    assert_eq!(
        install_decision(&key, Ok(Some(unapproved)), "atlas-api", "Codex").err(),
        Some(Denial::NoReleasedPackage)
    );
    let mut review = record_of(&input, &source, &key);
    review.approved_at = Some("now".to_string());
    review.ring = "review".to_string();
    assert_eq!(
        install_decision(&key, Ok(Some(review)), "atlas-api", "Codex").err(),
        Some(Denial::NoReleasedPackage)
    );
    let unapproved = record_of(&input, &source, &key);
    assert_eq!(released_lookup_outcome(Ok(Some(unapproved))).err(), Some(Denial::NotReleased));
}

#[test]
fn package_rules() {
    let mut p = sample();
    assert!(valid_package(&p));
    p.pilot_repositories = strings(&["elsewhere"]);
    assert!(!valid_package(&p));
    let mut p = sample();
    p.targets = strings(&["Codex", "Codex"]);
    assert!(!valid_package(&p));
    let mut p = sample();
    p.adapters = adapters(&[("Codex", "Read AGENTS.md")]);
    assert!(!valid_package(&p));
    let mut p = sample();
    p.adapters = adapters(&[("Gemini", "Read AGENTS.md"), ("Gemini CLI", "Read GEMINI.md")]);
    assert!(!valid_package(&p));
    let mut p = sample();
    p.secrets = (0..17).map(|i| format!("TOKEN_{i}")).collect();
    assert!(!valid_package(&p));
    let mut p = sample();
    p.pilot_repositories = Vec::new();
    assert!(!valid_package(&p));
}

#[test]
fn source_replies() {
    assert_eq!(commit_status_outcome(None).unwrap_err().status(), 502);
    assert_eq!(commit_status_outcome(Some(404)).unwrap_err().status(), 422);
    assert_eq!(commit_status_outcome(Some(500)).unwrap_err().status(), 502);
    assert!(commit_status_outcome(Some(200)).is_ok());
    assert_eq!(content_status_outcome(Some(404)).unwrap_err(), Denial::ContentNotFound);
    assert!(commit_body_outcome(Ok(Some("7FA45D6E0CA5274ED376BC86A0C8C6F1D959AAD2".to_string())), "7fa45d6e0ca5274ed376bc86a0c8c6f1d959aad2").is_ok());
    assert_eq!(commit_body_outcome(Err(()), "x").unwrap_err().status(), 502);
    assert_eq!(commit_body_outcome(Ok(None), "x").unwrap_err().status(), 422);
    let file = content_outcome(Ok(ContentReply {
        sha: Some("blob-1".to_string()),
        content: Some("aGVs\nbG8=\n".to_string()),
    }))
    .unwrap();
    assert_eq!(file.blob_sha, "blob-1");
    assert_eq!(file.bytes, b"hello".to_vec());
    let bad = content_outcome(Ok(ContentReply { sha: Some("b".to_string()), content: Some("***".to_string()) }));
    assert_eq!(bad.err().map(|d| d.status()), Some(422));
    let missing = content_outcome(Ok(ContentReply { sha: Some(String::new()), content: Some("aGVsbG8=".to_string()) }));
    assert_eq!(missing.err(), Some(Denial::BlobMissing));
    let no_content = content_outcome(Ok(ContentReply { sha: Some("b".to_string()), content: None }));
    assert_eq!(no_content.err(), Some(Denial::ContentMissing));
    assert_eq!(content_outcome(Err(())).err(), Some(Denial::ContentUnreadable));
}

#[test]
fn verification_endpoints() {
    assert_eq!(
        commit_endpoint("https://api.github.com//", "acme", "tools", "abc"),
        "https://api.github.com/repos/acme/tools/commits/abc"
    );
    assert_eq!(
        content_endpoint("http://127.0.0.1:9", "acme", "tools", "skills/a.json", "abc"),
        "http://127.0.0.1:9/repos/acme/tools/contents/skills/a.json?ref=abc"
    );
}

#[test]
fn source_check_steps() {
    let url = "https://github.com/acme/private-skills.git";
    let commit = "7fa45d6e0ca5274ed376bc86a0c8c6f1d959aad2";
    // A bad reference name is refused before anything is fetched.
    assert_eq!(
        start_source_check("http://h", url, Some("lower"), commit, "a.json").err(),
        Some(Denial::ReferenceName)
    );
    // An empty reference is a public source.
    assert!(matches!(
        start_source_check("http://h", url, Some(""), commit, "a.json"),
        Ok(SourceStart::Commit(_))
    ));
    // A private source resolves its credential, which both requests carry.
    let step = match start_source_check("http://h/", url, Some("PRIVATE_GITHUB"), commit, "skills/a.json") {
        Ok(SourceStart::Credential(step)) => step,
        _ => panic!("a named reference waits for its credential"),
    };
    assert_eq!(step.reference(), "PRIVATE_GITHUB");
    let secret_step = step
        .check_binding(
            Ok(Some("https://github.com/acme/private-skills".to_string())),
            Some("https://github.com/acme/private-skills/"),
        )
        .unwrap();
    assert_eq!(secret_step.reference(), "PRIVATE_GITHUB");
    let commit_step = secret_step.take(Some("token".to_string())).unwrap();
    assert_eq!(commit_step.credential(), Some("token"));
    assert_eq!(
        commit_step.endpoint(),
        format!("http://h/repos/acme/private-skills/commits/{commit}")
    );
    let content_step = commit_step.accept(Some(200), Ok(Some(commit.to_uppercase()))).unwrap();
    assert_eq!(content_step.credential(), Some("token"));
    assert_eq!(
        content_step.endpoint(),
        format!("http://h/repos/acme/private-skills/contents/skills/a.json?ref={commit}")
    );
    assert_eq!(
        content_step.accept(Some(404), Err(())).err(),
        Some(Denial::ContentNotFound)
    );
    // A missing binding refuses the credential.
    let step = match start_source_check("http://h", url, Some("PRIVATE_GITHUB"), commit, "a.json") {
        Ok(SourceStart::Credential(step)) => step,
        _ => panic!("a named reference waits for its credential"),
    };
    assert_eq!(
        step.check_binding(Ok(None), Some("https://github.com/acme/private-skills")).err(),
        Some(Denial::ReferenceNotBound)
    );
    // A deployment that holds no value for a bound reference refuses it.
    let step = match start_source_check("http://h", url, Some("PRIVATE_GITHUB"), commit, "a.json") {
        Ok(SourceStart::Credential(step)) => step,
        _ => panic!("a named reference waits for its credential"),
    };
    let secret_step = step
        .check_binding(
            Ok(Some("https://github.com/acme/private-skills".to_string())),
            Some("https://github.com/acme/private-skills"),
        )
        .unwrap();
    assert_eq!(secret_step.take(None).err(), Some(Denial::CredentialUnavailable));
}

#[test]
fn credential_boundaries() {
    assert_eq!(configured_boundary(None).err(), Some(Denial::BoundaryMissing));
    assert_eq!(configured_boundary(None).unwrap_err().status(), 422);
    assert_eq!(
        configured_boundary(Some("https://gitlab.com/acme/tools")).err(),
        Some(Denial::BoundaryInvalid)
    );
    assert_eq!(
        configured_boundary(Some("https://github.com/acme/tools.git/")).unwrap(),
        "https://github.com/acme/tools"
    );
}

#[test]
fn binding_boundary_first() {
    let url = "https://github.com/acme/tools";
    assert_eq!(binding_boundary(url, None).err(), Some(Denial::BoundaryMissing));
    assert_eq!(
        binding_boundary(url, Some("https://github.com/acme/other")).err(),
        Some(Denial::BindingRepository)
    );
    assert!(binding_boundary(url, Some("https://github.com/acme/tools.git")).is_ok());
}

#[test]
fn source_check_commit_replies() {
    let commit = "7fa45d6e0ca5274ed376bc86a0c8c6f1d959aad2";
    let start = |path: &str| match start_source_check("http://h", "https://github.com/a/b", None, commit, path) {
        Ok(SourceStart::Commit(step)) => step,
        _ => panic!("a public source goes to the commit"),
    };
    assert_eq!(start("a.json").accept(None, Err(())).err(), Some(Denial::CommitUnavailable));
    assert_eq!(start("a.json").accept(Some(404), Err(())).err(), Some(Denial::CommitNotFound));
    assert_eq!(start("a.json").accept(Some(503), Err(())).err(), Some(Denial::CommitUnavailable));
    assert_eq!(start("a.json").accept(Some(200), Err(())).err(), Some(Denial::CommitUnreadable));
    assert_eq!(start("a.json").accept(Some(200), Ok(None)).err(), Some(Denial::CommitMismatch));
    // The path is checked once the commit is confirmed.
    assert_eq!(
        start("../a.json").accept(Some(200), Ok(Some(commit.to_string()))).err(),
        Some(Denial::PackagePath)
    );
    assert_eq!(
        start("../a.json").accept(Some(200), Ok(Some("other".to_string()))).err(),
        Some(Denial::CommitMismatch)
    );
    let content_step = start("a.json").accept(Some(200), Ok(Some(commit.to_string()))).unwrap();
    let package_step = content_step
        .accept(Some(200), Ok(ContentReply { sha: Some("blob".to_string()), content: Some("e30=".to_string()) }))
        .unwrap();
    assert_eq!(package_step.bytes(), b"{}");
    assert_eq!(package_step.finish(None).err(), Some(Denial::PackageNotJson));
}

#[test]
fn bearer_keys() {
    let short = format!("Bearer {}", "k".repeat(31));
    let long = format!("Bearer {}", "k".repeat(32));
    assert_eq!(bearer(Some(&short)), None);
    assert_eq!(bearer(Some(&long)), Some("k".repeat(32)));
    assert_eq!(bearer(Some(&format!("Token {}", "k".repeat(40)))), None);
    assert_eq!(bearer(None), None);
}

#[test]
fn cache_rules() {
    assert_eq!(cache_control("/assets/app.js"), Some("public, max-age=31536000, immutable"));
    assert_eq!(cache_control("/assets/logo.svg"), Some("public, max-age=604800"));
    assert_eq!(cache_control("/hero.webp"), Some("public, max-age=604800"));
    assert_eq!(cache_control("/api/trust"), None);
}

#[test]
fn rate_window_resets_after_a_second() {
    let mut limits = RateLimiter::new();
    for _ in 0..40 {
        assert!(!limits.check("peer:127.0.0.1", 10_000));
    }
    assert!(limits.check("peer:127.0.0.1", 10_999));
    assert!(!limits.check("peer:127.0.0.1", 11_000));
    assert_eq!(Denial::TooManyRequests.message(), "Too many requests. Wait one second.");
}
