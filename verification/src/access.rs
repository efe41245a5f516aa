//! Workspaces, bearer keys, and the one-time review of a package.

use crate::crypto::{hash, prefixed_token, sha256_of, SignerKey};
use crate::denial::Denial;
use crate::hexcode::hex_lower;
use crate::package::{package_is_valid, package_verifies, StoredSkill};
use crate::text::{chars_of, is_valid_text, slice_chars, starts_with_chars, string_from_chars, trim, trimmed, utf8_len, valid_text};
use vstd::prelude::*;
use vstd::utf8::encode_utf8;

verus! {

/// The key carried by an `Authorization` header value: the text after
/// `Bearer `, when it is at least 32 bytes long.
pub open spec fn bearer_key(value: Seq<char>) -> Option<Seq<char>> {
    let p = "Bearer "@;
    if p.len() <= value.len() && value.subrange(0, p.len() as int) == p {
        let key = value.subrange(p.len() as int, value.len() as int);
        if utf8_len(key) >= 32 {
            Some(key)
        } else {
            None
        }
    } else {
        None
    }
}

/// The bearer key of an optional header value.
pub open spec fn header_key(value: Option<&str>) -> Option<Seq<char>> {
    match value {
        Some(v) => bearer_key(v@),
        None => None,
    }
}

/// The bearer key of an `Authorization` header's text (`None` when the
/// header is absent or not visible ASCII).
pub fn bearer(value: Option<&str>) -> (out: Option<String>)
    ensures
        match value {
            None => out is None,
            Some(v) => match bearer_key(v@) {
                Some(k) => out matches Some(s) && s@ == k,
                None => out is None,
            },
        },
{
    match value {
        None => None,
        Some(v) => {
            let c = chars_of(v);
            let p = chars_of("Bearer ");
            if !starts_with_chars(c.as_slice(), p.as_slice()) {
                return None;
            }
            let key = string_from_chars(slice_chars(c.as_slice(), p.len(), c.len()).as_slice());
            if key.as_str().as_bytes().len() >= 32 {
                Some(key)
            } else {
                None
            }
        },
    }
}

/// The owner key of a request, or the refusal for a request without one.
pub fn owner_key(value: Option<&str>) -> (out: Result<String, Denial>)
    ensures
        match header_key(value) {
            Some(k) => out matches Ok(s) && s@ == k,
            None => out == Err::<String, Denial>(Denial::OpenWorkspaceFirst),
        },
{
    match bearer(value) {
        Some(k) => Ok(k),
        None => Err(Denial::OpenWorkspaceFirst),
    }
}

/// The approval key of a request, or the refusal for a request without one.
pub fn reviewer_key(value: Option<&str>) -> (out: Result<String, Denial>)
    ensures
        match header_key(value) {
            Some(k) => out matches Ok(s) && s@ == k,
            None => out == Err::<String, Denial>(Denial::EnterApprovalKey),
        },
{
    match bearer(value) {
        Some(k) => Ok(k),
        None => Err(Denial::EnterApprovalKey),
    }
}

/// The install credential of a request, or the refusal for a request without
/// one.
pub fn install_key(value: Option<&str>) -> (out: Result<String, Denial>)
    ensures
        match header_key(value) {
            Some(k) => out matches Ok(s) && s@ == k,
            None => out == Err::<String, Denial>(Denial::InstallCredentialMissing),
        },
{
    match bearer(value) {
        Some(k) => Ok(k),
        None => Err(Denial::InstallCredentialMissing),
    }
}

/// The answer to looking up the workspace of an owner key's hash.
pub fn owner_lookup_outcome(found: Result<Option<String>, ()>) -> (out: Result<String, Denial>)
    ensures
        match found {
            Ok(Some(w)) => out == Ok::<String, Denial>(w),
            Ok(None) => out == Err::<String, Denial>(Denial::WorkspaceKeyInactive),
            Err(_) => out == Err::<String, Denial>(Denial::WorkspaceCheckFailed),
        },
{
    match found {
        Ok(Some(w)) => Ok(w),
        Ok(None) => Err(Denial::WorkspaceKeyInactive),
        Err(_) => Err(Denial::WorkspaceCheckFailed),
    }
}

/// A new private workspace: its id, trimmed name, owner key and recovery
/// key, and the hashes the two keys are stored as.
pub struct WorkspaceGrant {
    pub id: String,
    pub name: String,
    pub token: String,
    pub token_hash: String,
    pub recovery_key: String,
    pub recovery_hash: String,
}

/// The checks and identifiers of a new workspace: it needs a name of at most
/// 80 bytes; it gets an id `ws-` and 16 hex digits, an owner key `tsr_` and
/// 48 hex digits, and a separate recovery key `tsr_recovery_` and 48 hex
/// digits, each key stored only as its hash.
pub fn open_workspace(name: &str) -> (out: Result<WorkspaceGrant, Denial>)
    ensures
        !is_valid_text(name@, 80) ==> out == Err::<WorkspaceGrant, Denial>(Denial::NameWorkspace),
        is_valid_text(name@, 80) ==> (out == Err::<WorkspaceGrant, Denial>(Denial::RandomUnavailable)
            || (out matches Ok(g) && g.name@ == trim(name@) && (exists|b: Seq<u8>|
            b.len() == 8 && g.id@ == "ws-"@ + hex_lower(b)) && (exists|b: Seq<u8>|
            b.len() == 24 && g.token@ == "tsr_"@ + hex_lower(b)) && g.token_hash@ == hex_lower(
            sha256_of(encode_utf8(g.token@)),
        ) && (exists|b: Seq<u8>|
            b.len() == 24 && g.recovery_key@ == "tsr_recovery_"@ + hex_lower(b))
            && g.recovery_hash@ == hex_lower(sha256_of(encode_utf8(g.recovery_key@))))),
{
    if !valid_text(name, 80) {
        return Err(Denial::NameWorkspace);
    }
    let id = match prefixed_token("ws-", 8) {
        Some(v) => v,
        None => return Err(Denial::RandomUnavailable),
    };
    let token = match prefixed_token("tsr_", 24) {
        Some(v) => v,
        None => return Err(Denial::RandomUnavailable),
    };
    let recovery_key = match prefixed_token("tsr_recovery_", 24) {
        Some(v) => v,
        None => return Err(Denial::RandomUnavailable),
    };
    let token_hash = hash(token.as_str());
    let recovery_hash = hash(recovery_key.as_str());
    Ok(WorkspaceGrant { id, name: trimmed(name), token, token_hash, recovery_key, recovery_hash })
}

/// The recovery key of a request, or the refusal for a request without one.
pub fn recovery_key(value: Option<&str>) -> (out: Result<String, Denial>)
    ensures
        match header_key(value) {
            Some(k) => out matches Ok(s) && s@ == k,
            None => out == Err::<String, Denial>(Denial::RecoveryKeyMissing),
        },
{
    match bearer(value) {
        Some(k) => Ok(k),
        None => Err(Denial::RecoveryKeyMissing),
    }
}

/// The answer to looking up the workspace of a recovery key's hash.
pub fn recovery_lookup_outcome(found: Result<Option<String>, ()>) -> (out: Result<String, Denial>)
    ensures
        match found {
            Ok(Some(w)) => out == Ok::<String, Denial>(w),
            Ok(None) => out == Err::<String, Denial>(Denial::RecoveryKeyInactive),
            Err(_) => out == Err::<String, Denial>(Denial::WorkspaceCheckFailed),
        },
{
    match found {
        Ok(Some(w)) => Ok(w),
        Ok(None) => Err(Denial::RecoveryKeyInactive),
        Err(_) => Err(Denial::WorkspaceCheckFailed),
    }
}

/// A workspace owner key and the hash it is stored as.
pub struct OwnerKey {
    pub token: String,
    pub token_hash: String,
}

/// A fresh owner key to replace a lost one: `tsr_` and 48 hex digits, stored
/// only as its hash; refused when the random source fails.
pub fn replacement_owner_key() -> (out: Result<OwnerKey, Denial>)
    ensures
        match out {
            Ok(k) => (exists|b: Seq<u8>| b.len() == 24 && k.token@ == "tsr_"@ + hex_lower(b))
                && k.token_hash@ == hex_lower(sha256_of(encode_utf8(k.token@))),
            Err(d) => d == Denial::RandomUnavailable,
        },
{
    let token = match prefixed_token("tsr_", 24) {
        Some(v) => v,
        None => return Err(Denial::RandomUnavailable),
    };
    let token_hash = hash(token.as_str());
    Ok(OwnerKey { token, token_hash })
}

/// The answer to storing the replacement owner key: exactly the workspace's
/// row must change.
pub fn recovery_update_outcome(changed: Result<u64, ()>) -> (out: Result<(), Denial>)
    ensures
        out == match changed {
            Ok(n) => if n == 1 {
                Ok::<(), Denial>(())
            } else {
                Err(Denial::RecoveryFailed)
            },
            Err(_) => Err(Denial::RecoveryFailed),
        },
{
    match changed {
        Ok(n) => if n == 1 {
            Ok(())
        } else {
            Err(Denial::RecoveryFailed)
        },
        Err(_) => Err(Denial::RecoveryFailed),
    }
}

/// The answer to opening a package for review by its approval key.
pub fn review_outcome(key: &SignerKey, row: Result<Option<StoredSkill>, ()>) -> (out: Result<StoredSkill, Denial>)
    ensures
        match row {
            Ok(Some(s)) => if package_verifies(key.secret(), &s) {
                out == Ok::<StoredSkill, Denial>(s)
            } else {
                out == Err::<StoredSkill, Denial>(Denial::SignatureFailed)
            },
            Ok(None) => out == Err::<StoredSkill, Denial>(Denial::ApprovalKeyInvalid),
            Err(_) => out == Err::<StoredSkill, Denial>(Denial::ReviewLoadFailed),
        },
{
    match row {
        Ok(Some(s)) => if package_is_valid(key, &s) {
            Ok(s)
        } else {
            Err(Denial::SignatureFailed)
        },
        Ok(None) => Err(Denial::ApprovalKeyInvalid),
        Err(_) => Err(Denial::ReviewLoadFailed),
    }
}

/// The approver's name as it is recorded: trimmed, and required.
pub fn approver_name(approver: &str) -> (out: Result<String, Denial>)
    ensures
        !is_valid_text(approver@, 100) ==> out == Err::<String, Denial>(Denial::NameApprover),
        is_valid_text(approver@, 100) ==> (out matches Ok(s) && s@ == trim(approver@)),
{
    if !valid_text(approver, 100) {
        return Err(Denial::NameApprover);
    }
    Ok(trimmed(approver))
}

/// The answer to looking up an unreviewed package by its approval key inside
/// the approval transaction.
pub fn approval_lookup_outcome(key: &SignerKey, row: Result<Option<StoredSkill>, ()>) -> (out: Result<StoredSkill, Denial>)
    ensures
        match row {
            Ok(Some(s)) => if package_verifies(key.secret(), &s) {
                out == Ok::<StoredSkill, Denial>(s)
            } else {
                out == Err::<StoredSkill, Denial>(Denial::SignatureFailed)
            },
            Ok(None) => out == Err::<StoredSkill, Denial>(Denial::ApprovalKeyInvalid),
            Err(_) => out == Err::<StoredSkill, Denial>(Denial::PackageCheckFailed),
        },
{
    match row {
        Ok(Some(s)) => if package_is_valid(key, &s) {
            Ok(s)
        } else {
            Err(Denial::SignatureFailed)
        },
        Ok(None) => Err(Denial::ApprovalKeyInvalid),
        Err(_) => Err(Denial::PackageCheckFailed),
    }
}

/// The answer to consuming the approval key: exactly one package row must
/// change.
pub fn approval_update_outcome(changed: Result<u64, ()>) -> (out: Result<(), Denial>)
    ensures
        out == match changed {
            Ok(n) => if n == 1 {
                Ok::<(), Denial>(())
            } else {
                Err(Denial::AlreadyReviewed)
            },
            Err(_) => Err(Denial::AlreadyReviewed),
        },
{
    match changed {
        Ok(n) => if n == 1 {
            Ok(())
        } else {
            Err(Denial::AlreadyReviewed)
        },
        Err(_) => Err(Denial::AlreadyReviewed),
    }
}

/// A fresh approval id: `apr-` and 16 hex digits; refused when the random
/// source fails.
pub fn new_approval_id() -> (out: Result<String, Denial>)
    ensures
        match out {
            Ok(s) => exists|b: Seq<u8>| b.len() == 8 && s@ == "apr-"@ + hex_lower(b),
            Err(d) => d == Denial::RandomUnavailable,
        },
{
    match prefixed_token("apr-", 8) {
        Some(s) => Ok(s),
        None => Err(Denial::RandomUnavailable),
    }
}

/// A fresh receipt id: `rcpt-` and 16 hex digits; refused when the random
/// source fails.
pub fn new_receipt_id() -> (out: Result<String, Denial>)
    ensures
        match out {
            Ok(s) => exists|b: Seq<u8>| b.len() == 8 && s@ == "rcpt-"@ + hex_lower(b),
            Err(d) => d == Denial::RandomUnavailable,
        },
{
    match prefixed_token("rcpt-", 8) {
        Some(s) => Ok(s),
        None => Err(Denial::RandomUnavailable),
    }
}

/// Law: the four kinds of keys the registry hands out never coincide: an
/// install credential, a package approval key, a workspace recovery key and
/// a workspace owner key are pairwise different. (Each kind is looked up by
/// its hash in its own column.)
pub proof fn lemma_key_kinds_are_distinct(a: Seq<u8>, b: Seq<u8>, c: Seq<u8>, r: Seq<u8>)
    ensures
        "tsr_install_"@ + hex_lower(a) != "tsr_"@ + hex_lower(b),
        "tsr_review_"@ + hex_lower(c) != "tsr_"@ + hex_lower(b),
        "tsr_install_"@ + hex_lower(a) != "tsr_review_"@ + hex_lower(c),
        "tsr_recovery_"@ + hex_lower(r) != "tsr_"@ + hex_lower(b),
        "tsr_recovery_"@ + hex_lower(r) != "tsr_install_"@ + hex_lower(a),
        "tsr_recovery_"@ + hex_lower(r) != "tsr_review_"@ + hex_lower(c),
{
    reveal_strlit("tsr_install_");
    reveal_strlit("tsr_review_");
    reveal_strlit("tsr_recovery_");
    reveal_strlit("tsr_");
    let install = "tsr_install_"@ + hex_lower(a);
    let review = "tsr_review_"@ + hex_lower(c);
    let recovery = "tsr_recovery_"@ + hex_lower(r);
    let owner = "tsr_"@ + hex_lower(b);
    assert(install[4] == 'i');
    assert(review[4] == 'r');
    assert(recovery[4] == 'r');
    assert(review[6] == 'v');
    assert(recovery[6] == 'c');
    assert(recovery.len() == review.len() ==> recovery[6] != review[6]);
    assert(recovery.len() == install.len() ==> recovery[4] != install[4]);
    if owner.len() > 4 {
        let d = hex_lower(b)[0];
        assert(owner[4] == d);
        assert(0 <= b[0] / 16 < 16);
        assert(d == crate::hexcode::hex_digit(b[0] as int / 16));
    }
    assert(install.len() == owner.len() ==> install[4] != owner[4]);
    assert(review.len() == owner.len() ==> review[4] != owner[4]);
    assert(recovery.len() == owner.len() ==> recovery[4] != owner[4]);
}

/// Law: a header `Bearer ` followed by a key of at least 32 UTF-8 bytes
/// carries exactly that key, a shorter key carries none, and any header that
/// carries a key is `Bearer ` followed by it.
pub proof fn lemma_bearer_carries_its_key(k: Seq<char>, v: Seq<char>)
    ensures
        utf8_len(k) >= 32 ==> bearer_key("Bearer "@ + k) == Some(k),
        utf8_len(k) < 32 ==> bearer_key("Bearer "@ + k) is None,
        bearer_key(v) matches Some(key) ==> v == "Bearer "@ + key && utf8_len(key) >= 32,
{
    let p = "Bearer "@;
    assert((p + k).subrange(0, p.len() as int) =~= p);
    assert((p + k).subrange(p.len() as int, (p + k).len() as int) =~= k);
    if bearer_key(v) is Some {
        assert(v =~= p + v.subrange(p.len() as int, v.len() as int));
    }
}

} // verus!
