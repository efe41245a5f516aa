//! The refusals the registry answers with: an HTTP status and a message.

use vstd::prelude::*;

verus! {

/// A refused request.
#[derive(Debug, PartialEq, Eq, Structural, Clone, Copy)]
pub enum Denial {
    /// 400: Name the workspace and try again.
    NameWorkspace,
    /// 500: The private workspace could not be created.
    WorkspaceNotCreated,
    /// 401: Open or restore a private workspace first.
    OpenWorkspaceFirst,
    /// 500: The workspace could not be checked.
    WorkspaceCheckFailed,
    /// 401: That workspace key is not active.
    WorkspaceKeyInactive,
    /// 500: The registry could not load.
    RegistryLoadFailed,
    /// 422: That deployment-managed Git credential reference has no repository boundary.
    BoundaryMissing,
    /// 422: That deployment-managed Git credential repository boundary is invalid.
    BoundaryInvalid,
    /// 400: Use an uppercase Git credential reference name.
    ReferenceName,
    /// 400: Use a GitHub repository URL for source verification.
    SourceUrl,
    /// 500: The Git credential binding could not be checked.
    BindingCheckFailed,
    /// 403: That Git credential reference is not bound to this repository in this workspace.
    ReferenceNotBound,
    /// 403: That Git credential reference cannot read this repository.
    ReferenceCannotRead,
    /// 422: That deployment-managed Git credential reference is not available.
    CredentialUnavailable,
    /// 400: Use a GitHub repository URL when binding a Git credential reference.
    BindingUrl,
    /// 403: That Git credential reference cannot be bound to this repository.
    BindingRepository,
    /// 403: That Git credential reference belongs to a different workspace.
    ReferenceTaken,
    /// 500: The Git credential reference could not be bound.
    BindingNotSaved,
    /// 502: GitHub source verification is unavailable. Try again.
    CommitUnavailable,
    /// 422: GitHub could not find that commit in the named repository.
    CommitNotFound,
    /// 502: GitHub returned an unreadable verification response.
    CommitUnreadable,
    /// 422: GitHub did not verify that exact commit.
    CommitMismatch,
    /// 400: Use a safe JSON package path inside the repository.
    PackagePath,
    /// 502: GitHub package verification is unavailable. Try again.
    ContentUnavailable,
    /// 422: GitHub could not find that package file at the verified commit.
    ContentNotFound,
    /// 502: GitHub returned an unreadable package file.
    ContentUnreadable,
    /// 502: GitHub did not return a package blob identifier.
    BlobMissing,
    /// 422: The source path must point to a UTF-8 JSON skill package.
    ContentMissing,
    /// 422: The source package is not valid base64 content.
    ContentNotBase64,
    /// 422: The source package must be valid JSON with every immutable skill field.
    PackageNotJson,
    /// 400: The source package has invalid skill fields or pilot membership.
    PackageInvalid,
    /// 400: Use a 40-character commit and a safe JSON package path.
    CommitAndPath,
    /// 409: That skill id or name and version already exists in this workspace.
    PackageExists,
    /// 500: The skill package could not be published.
    PublishFailed,
    /// 401: Enter the package approval key.
    EnterApprovalKey,
    /// 409: The signed package failed verification.
    SignatureFailed,
    /// 401: That approval key is invalid or already used.
    ApprovalKeyInvalid,
    /// 500: The review package could not load.
    ReviewLoadFailed,
    /// 400: Name the approver and try again.
    NameApprover,
    /// 500: Review could not start.
    ReviewNotStarted,
    /// 500: The package could not be checked.
    PackageCheckFailed,
    /// 409: This package was already reviewed.
    AlreadyReviewed,
    /// 500: The approval record could not save.
    ApprovalNotSaved,
    /// 400: Choose a valid release ring.
    RingInvalid,
    /// 409: A recorded review is required before this release.
    ReviewRequired,
    /// 404: That skill version no longer exists.
    SkillMissing,
    /// 500: The release ring could not save.
    RingNotSaved,
    /// 500: The receipts could not load.
    ReceiptsLoadFailed,
    /// 400: Name an assigned repository and agent.
    NameRepositoryAndAgent,
    /// 500: The skill version could not be checked.
    SkillCheckFailed,
    /// 403: This credential must match an assigned repository and agent.
    CredentialScope,
    /// 500: The scoped install credential could not be issued.
    CredentialNotIssued,
    /// 400: Name a skill, repository, and agent.
    NameSkillRepositoryAgent,
    /// 409: Only an installed pilot or full release can record a run.
    NotReleased,
    /// 403: This repository is not in the active release ring.
    RepositoryOutsideRing,
    /// 403: This skill version has no adapter for that agent.
    NoAdapter,
    /// 409: The package has no approval record.
    NoApproval,
    /// 500: The receipt could not save.
    ReceiptNotSaved,
    /// 401: Use a repository and agent scoped install credential.
    InstallCredentialMissing,
    /// 401: That install credential cannot read this package.
    InstallCredentialRejected,
    /// 500: The install credential could not be checked.
    InstallCredentialCheckFailed,
    /// 404: No reviewed released package matches that request.
    NoReleasedPackage,
    /// 500: The package could not be installed.
    InstallFailed,
    /// 503: Frontend files are not built.
    FrontendMissing,
    /// 429: Too many requests. Wait one second.
    TooManyRequests,
    /// 500: The secure random source is unavailable. Try again.
    RandomUnavailable,
    /// 401: Enter the workspace recovery key.
    RecoveryKeyMissing,
    /// 401: That recovery key is not active.
    RecoveryKeyInactive,
    /// 500: The workspace owner key could not be replaced.
    RecoveryFailed,
}

/// The HTTP status of a refusal.
pub open spec fn denial_status(d: Denial) -> u16 {
    match d {
        Denial::NameWorkspace => 400,
        Denial::WorkspaceNotCreated => 500,
        Denial::OpenWorkspaceFirst => 401,
        Denial::WorkspaceCheckFailed => 500,
        Denial::WorkspaceKeyInactive => 401,
        Denial::RegistryLoadFailed => 500,
        Denial::BoundaryMissing => 422,
        Denial::BoundaryInvalid => 422,
        Denial::ReferenceName => 400,
        Denial::SourceUrl => 400,
        Denial::BindingCheckFailed => 500,
        Denial::ReferenceNotBound => 403,
        Denial::ReferenceCannotRead => 403,
        Denial::CredentialUnavailable => 422,
        Denial::BindingUrl => 400,
        Denial::BindingRepository => 403,
        Denial::ReferenceTaken => 403,
        Denial::BindingNotSaved => 500,
        Denial::CommitUnavailable => 502,
        Denial::CommitNotFound => 422,
        Denial::CommitUnreadable => 502,
        Denial::CommitMismatch => 422,
        Denial::PackagePath => 400,
        Denial::ContentUnavailable => 502,
        Denial::ContentNotFound => 422,
        Denial::ContentUnreadable => 502,
        Denial::BlobMissing => 502,
        Denial::ContentMissing => 422,
        Denial::ContentNotBase64 => 422,
        Denial::PackageNotJson => 422,
        Denial::PackageInvalid => 400,
        Denial::CommitAndPath => 400,
        Denial::PackageExists => 409,
        Denial::PublishFailed => 500,
        Denial::EnterApprovalKey => 401,
        Denial::SignatureFailed => 409,
        Denial::ApprovalKeyInvalid => 401,
        Denial::ReviewLoadFailed => 500,
        Denial::NameApprover => 400,
        Denial::ReviewNotStarted => 500,
        Denial::PackageCheckFailed => 500,
        Denial::AlreadyReviewed => 409,
        Denial::ApprovalNotSaved => 500,
        Denial::RingInvalid => 400,
        Denial::ReviewRequired => 409,
        Denial::SkillMissing => 404,
        Denial::RingNotSaved => 500,
        Denial::ReceiptsLoadFailed => 500,
        Denial::NameRepositoryAndAgent => 400,
        Denial::SkillCheckFailed => 500,
        Denial::CredentialScope => 403,
        Denial::CredentialNotIssued => 500,
        Denial::NameSkillRepositoryAgent => 400,
        Denial::NotReleased => 409,
        Denial::RepositoryOutsideRing => 403,
        Denial::NoAdapter => 403,
        Denial::NoApproval => 409,
        Denial::ReceiptNotSaved => 500,
        Denial::InstallCredentialMissing => 401,
        Denial::InstallCredentialRejected => 401,
        Denial::InstallCredentialCheckFailed => 500,
        Denial::NoReleasedPackage => 404,
        Denial::InstallFailed => 500,
        Denial::FrontendMissing => 503,
        Denial::TooManyRequests => 429,
        Denial::RandomUnavailable => 500,
        Denial::RecoveryKeyMissing => 401,
        Denial::RecoveryKeyInactive => 401,
        Denial::RecoveryFailed => 500,
    }
}

/// The message of a refusal.
pub open spec fn denial_message(d: Denial) -> Seq<char> {
    match d {
        Denial::NameWorkspace => "Name the workspace and try again."@,
        Denial::WorkspaceNotCreated => "The private workspace could not be created."@,
        Denial::OpenWorkspaceFirst => "Open or restore a private workspace first."@,
        Denial::WorkspaceCheckFailed => "The workspace could not be checked."@,
        Denial::WorkspaceKeyInactive => "That workspace key is not active."@,
        Denial::RegistryLoadFailed => "The registry could not load."@,
        Denial::BoundaryMissing => "That deployment-managed Git credential reference has no repository boundary."@,
        Denial::BoundaryInvalid => "That deployment-managed Git credential repository boundary is invalid."@,
        Denial::ReferenceName => "Use an uppercase Git credential reference name."@,
        Denial::SourceUrl => "Use a GitHub repository URL for source verification."@,
        Denial::BindingCheckFailed => "The Git credential binding could not be checked."@,
        Denial::ReferenceNotBound => "That Git credential reference is not bound to this repository in this workspace."@,
        Denial::ReferenceCannotRead => "That Git credential reference cannot read this repository."@,
        Denial::CredentialUnavailable => "That deployment-managed Git credential reference is not available."@,
        Denial::BindingUrl => "Use a GitHub repository URL when binding a Git credential reference."@,
        Denial::BindingRepository => "That Git credential reference cannot be bound to this repository."@,
        Denial::ReferenceTaken => "That Git credential reference belongs to a different workspace."@,
        Denial::BindingNotSaved => "The Git credential reference could not be bound."@,
        Denial::CommitUnavailable => "GitHub source verification is unavailable. Try again."@,
        Denial::CommitNotFound => "GitHub could not find that commit in the named repository."@,
        Denial::CommitUnreadable => "GitHub returned an unreadable verification response."@,
        Denial::CommitMismatch => "GitHub did not verify that exact commit."@,
        Denial::PackagePath => "Use a safe JSON package path inside the repository."@,
        Denial::ContentUnavailable => "GitHub package verification is unavailable. Try again."@,
        Denial::ContentNotFound => "GitHub could not find that package file at the verified commit."@,
        Denial::ContentUnreadable => "GitHub returned an unreadable package file."@,
        Denial::BlobMissing => "GitHub did not return a package blob identifier."@,
        Denial::ContentMissing => "The source path must point to a UTF-8 JSON skill package."@,
        Denial::ContentNotBase64 => "The source package is not valid base64 content."@,
        Denial::PackageNotJson => "The source package must be valid JSON with every immutable skill field."@,
        Denial::PackageInvalid => "The source package has invalid skill fields or pilot membership."@,
        Denial::CommitAndPath => "Use a 40-character commit and a safe JSON package path."@,
        Denial::PackageExists => "That skill id or name and version already exists in this workspace."@,
        Denial::PublishFailed => "The skill package could not be published."@,
        Denial::EnterApprovalKey => "Enter the package approval key."@,
        Denial::SignatureFailed => "The signed package failed verification."@,
        Denial::ApprovalKeyInvalid => "That approval key is invalid or already used."@,
        Denial::ReviewLoadFailed => "The review package could not load."@,
        Denial::NameApprover => "Name the approver and try again."@,
        Denial::ReviewNotStarted => "Review could not start."@,
        Denial::PackageCheckFailed => "The package could not be checked."@,
        Denial::AlreadyReviewed => "This package was already reviewed."@,
        Denial::ApprovalNotSaved => "The approval record could not save."@,
        Denial::RingInvalid => "Choose a valid release ring."@,
        Denial::ReviewRequired => "A recorded review is required before this release."@,
        Denial::SkillMissing => "That skill version no longer exists."@,
        Denial::RingNotSaved => "The release ring could not save."@,
        Denial::ReceiptsLoadFailed => "The receipts could not load."@,
        Denial::NameRepositoryAndAgent => "Name an assigned repository and agent."@,
        Denial::SkillCheckFailed => "The skill version could not be checked."@,
        Denial::CredentialScope => "This credential must match an assigned repository and agent."@,
        Denial::CredentialNotIssued => "The scoped install credential could not be issued."@,
        Denial::NameSkillRepositoryAgent => "Name a skill, repository, and agent."@,
        Denial::NotReleased => "Only an installed pilot or full release can record a run."@,
        Denial::RepositoryOutsideRing => "This repository is not in the active release ring."@,
        Denial::NoAdapter => "This skill version has no adapter for that agent."@,
        Denial::NoApproval => "The package has no approval record."@,
        Denial::ReceiptNotSaved => "The receipt could not save."@,
        Denial::InstallCredentialMissing => "Use a repository and agent scoped install credential."@,
        Denial::InstallCredentialRejected => "That install credential cannot read this package."@,
        Denial::InstallCredentialCheckFailed => "The install credential could not be checked."@,
        Denial::NoReleasedPackage => "No reviewed released package matches that request."@,
        Denial::InstallFailed => "The package could not be installed."@,
        Denial::FrontendMissing => "Frontend files are not built."@,
        Denial::TooManyRequests => "Too many requests. Wait one second."@,
        Denial::RandomUnavailable => "The secure random source is unavailable. Try again."@,
        Denial::RecoveryKeyMissing => "Enter the workspace recovery key."@,
        Denial::RecoveryKeyInactive => "That recovery key is not active."@,
        Denial::RecoveryFailed => "The workspace owner key could not be replaced."@,
    }
}

impl Denial {
    /// The HTTP status.
    pub fn status(&self) -> (s: u16)
        ensures
            s == denial_status(*self),
    {
        match self {
            Denial::NameWorkspace => 400,
            Denial::WorkspaceNotCreated => 500,
            Denial::OpenWorkspaceFirst => 401,
            Denial::WorkspaceCheckFailed => 500,
            Denial::WorkspaceKeyInactive => 401,
            Denial::RegistryLoadFailed => 500,
            Denial::BoundaryMissing => 422,
            Denial::BoundaryInvalid => 422,
            Denial::ReferenceName => 400,
            Denial::SourceUrl => 400,
            Denial::BindingCheckFailed => 500,
            Denial::ReferenceNotBound => 403,
            Denial::ReferenceCannotRead => 403,
            Denial::CredentialUnavailable => 422,
            Denial::BindingUrl => 400,
            Denial::BindingRepository => 403,
            Denial::ReferenceTaken => 403,
            Denial::BindingNotSaved => 500,
            Denial::CommitUnavailable => 502,
            Denial::CommitNotFound => 422,
            Denial::CommitUnreadable => 502,
            Denial::CommitMismatch => 422,
            Denial::PackagePath => 400,
            Denial::ContentUnavailable => 502,
            Denial::ContentNotFound => 422,
            Denial::ContentUnreadable => 502,
            Denial::BlobMissing => 502,
            Denial::ContentMissing => 422,
            Denial::ContentNotBase64 => 422,
            Denial::PackageNotJson => 422,
            Denial::PackageInvalid => 400,
            Denial::CommitAndPath => 400,
            Denial::PackageExists => 409,
            Denial::PublishFailed => 500,
            Denial::EnterApprovalKey => 401,
            Denial::SignatureFailed => 409,
            Denial::ApprovalKeyInvalid => 401,
            Denial::ReviewLoadFailed => 500,
            Denial::NameApprover => 400,
            Denial::ReviewNotStarted => 500,
            Denial::PackageCheckFailed => 500,
            Denial::AlreadyReviewed => 409,
            Denial::ApprovalNotSaved => 500,
            Denial::RingInvalid => 400,
            Denial::ReviewRequired => 409,
            Denial::SkillMissing => 404,
            Denial::RingNotSaved => 500,
            Denial::ReceiptsLoadFailed => 500,
            Denial::NameRepositoryAndAgent => 400,
            Denial::SkillCheckFailed => 500,
            Denial::CredentialScope => 403,
            Denial::CredentialNotIssued => 500,
            Denial::NameSkillRepositoryAgent => 400,
            Denial::NotReleased => 409,
            Denial::RepositoryOutsideRing => 403,
            Denial::NoAdapter => 403,
            Denial::NoApproval => 409,
            Denial::ReceiptNotSaved => 500,
            Denial::InstallCredentialMissing => 401,
            Denial::InstallCredentialRejected => 401,
            Denial::InstallCredentialCheckFailed => 500,
            Denial::NoReleasedPackage => 404,
            Denial::InstallFailed => 500,
            Denial::FrontendMissing => 503,
            Denial::TooManyRequests => 429,
            Denial::RandomUnavailable => 500,
            Denial::RecoveryKeyMissing => 401,
            Denial::RecoveryKeyInactive => 401,
            Denial::RecoveryFailed => 500,
        }
    }

    /// The message shown to the caller.
    pub fn message(&self) -> (m: &'static str)
        ensures
            m@ == denial_message(*self),
    {
        match self {
            Denial::NameWorkspace => "Name the workspace and try again.",
            Denial::WorkspaceNotCreated => "The private workspace could not be created.",
            Denial::OpenWorkspaceFirst => "Open or restore a private workspace first.",
            Denial::WorkspaceCheckFailed => "The workspace could not be checked.",
            Denial::WorkspaceKeyInactive => "That workspace key is not active.",
            Denial::RegistryLoadFailed => "The registry could not load.",
            Denial::BoundaryMissing => "That deployment-managed Git credential reference has no repository boundary.",
            Denial::BoundaryInvalid => "That deployment-managed Git credential repository boundary is invalid.",
            Denial::ReferenceName => "Use an uppercase Git credential reference name.",
            Denial::SourceUrl => "Use a GitHub repository URL for source verification.",
            Denial::BindingCheckFailed => "The Git credential binding could not be checked.",
            Denial::ReferenceNotBound => "That Git credential reference is not bound to this repository in this workspace.",
            Denial::ReferenceCannotRead => "That Git credential reference cannot read this repository.",
            Denial::CredentialUnavailable => "That deployment-managed Git credential reference is not available.",
            Denial::BindingUrl => "Use a GitHub repository URL when binding a Git credential reference.",
            Denial::BindingRepository => "That Git credential reference cannot be bound to this repository.",
            Denial::ReferenceTaken => "That Git credential reference belongs to a different workspace.",
            Denial::BindingNotSaved => "The Git credential reference could not be bound.",
            Denial::CommitUnavailable => "GitHub source verification is unavailable. Try again.",
            Denial::CommitNotFound => "GitHub could not find that commit in the named repository.",
            Denial::CommitUnreadable => "GitHub returned an unreadable verification response.",
            Denial::CommitMismatch => "GitHub did not verify that exact commit.",
            Denial::PackagePath => "Use a safe JSON package path inside the repository.",
            Denial::ContentUnavailable => "GitHub package verification is unavailable. Try again.",
            Denial::ContentNotFound => "GitHub could not find that package file at the verified commit.",
            Denial::ContentUnreadable => "GitHub returned an unreadable package file.",
            Denial::BlobMissing => "GitHub did not return a package blob identifier.",
            Denial::ContentMissing => "The source path must point to a UTF-8 JSON skill package.",
            Denial::ContentNotBase64 => "The source package is not valid base64 content.",
            Denial::PackageNotJson => "The source package must be valid JSON with every immutable skill field.",
            Denial::PackageInvalid => "The source package has invalid skill fields or pilot membership.",
            Denial::CommitAndPath => "Use a 40-character commit and a safe JSON package path.",
            Denial::PackageExists => "That skill id or name and version already exists in this workspace.",
            Denial::PublishFailed => "The skill package could not be published.",
            Denial::EnterApprovalKey => "Enter the package approval key.",
            Denial::SignatureFailed => "The signed package failed verification.",
            Denial::ApprovalKeyInvalid => "That approval key is invalid or already used.",
            Denial::ReviewLoadFailed => "The review package could not load.",
            Denial::NameApprover => "Name the approver and try again.",
            Denial::ReviewNotStarted => "Review could not start.",
            Denial::PackageCheckFailed => "The package could not be checked.",
            Denial::AlreadyReviewed => "This package was already reviewed.",
            Denial::ApprovalNotSaved => "The approval record could not save.",
            Denial::RingInvalid => "Choose a valid release ring.",
            Denial::ReviewRequired => "A recorded review is required before this release.",
            Denial::SkillMissing => "That skill version no longer exists.",
            Denial::RingNotSaved => "The release ring could not save.",
            Denial::ReceiptsLoadFailed => "The receipts could not load.",
            Denial::NameRepositoryAndAgent => "Name an assigned repository and agent.",
            Denial::SkillCheckFailed => "The skill version could not be checked.",
            Denial::CredentialScope => "This credential must match an assigned repository and agent.",
            Denial::CredentialNotIssued => "The scoped install credential could not be issued.",
            Denial::NameSkillRepositoryAgent => "Name a skill, repository, and agent.",
            Denial::NotReleased => "Only an installed pilot or full release can record a run.",
            Denial::RepositoryOutsideRing => "This repository is not in the active release ring.",
            Denial::NoAdapter => "This skill version has no adapter for that agent.",
            Denial::NoApproval => "The package has no approval record.",
            Denial::ReceiptNotSaved => "The receipt could not save.",
            Denial::InstallCredentialMissing => "Use a repository and agent scoped install credential.",
            Denial::InstallCredentialRejected => "That install credential cannot read this package.",
            Denial::InstallCredentialCheckFailed => "The install credential could not be checked.",
            Denial::NoReleasedPackage => "No reviewed released package matches that request.",
            Denial::InstallFailed => "The package could not be installed.",
            Denial::FrontendMissing => "Frontend files are not built.",
            Denial::TooManyRequests => "Too many requests. Wait one second.",
            Denial::RandomUnavailable => "The secure random source is unavailable. Try again.",
            Denial::RecoveryKeyMissing => "Enter the workspace recovery key.",
            Denial::RecoveryKeyInactive => "That recovery key is not active.",
            Denial::RecoveryFailed => "The workspace owner key could not be replaced.",
        }
    }
}

} // verus!
