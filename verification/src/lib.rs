//! Release rules, package signing and source checks of a team registry of
//! agent skill packages.
//!
//! A package is read from a JSON file at a verified GitHub commit, checked
//! against the package rules, wrapped in a canonical JSON envelope, hashed and
//! signed with the registry's Ed25519 identity. A one-time approval key
//! approves it; its owner moves it through the release rings (draft, review,
//! pilot, all); pilot reaches only the pilot repositories and the full release
//! all assigned repositories; installs and execution receipts need a reviewed
//! release whose stored record still matches its signature.

pub mod access;
pub mod crypto;
pub mod denial;
pub mod github;
pub mod hexcode;
pub mod http;
pub mod json;
pub mod package;
pub mod ratelimit;
pub mod release;
pub mod skill;
pub mod source;
pub mod source_check;
pub mod text;
pub mod validate;

pub use crypto::hash;
pub use github::{canonical_github_url, github_repository};
pub use release::repository_is_released;
pub use skill::valid_package;
pub use text::valid_text;
pub use validate::{valid_commit, valid_ring, valid_secret_reference, valid_source_path};
