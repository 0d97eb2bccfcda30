//! What can end an installation early.

use vstd::prelude::*;
use crate::manifest::{decode_message, ManifestDecodeError, ManifestDecodeErrorView};
use crate::text::{push_signed_decimal, signed_decimal};

verus! {

/// Why an installation failed. Every failure ends the attempt.
#[derive(Debug, PartialEq, Eq)]
pub enum InstallError {
    /// The identifier is neither a GitHub repository URL nor `owner/repo`.
    InvalidRepositoryIdentifier { identifier: String },
    /// The list of releases could not be had.
    RemoteVersionFetchFailed { detail: String },
    /// `latest` was asked for and the package has no release.
    NoStableVersionFound,
    /// The repository could not be cloned.
    CloneFailed { detail: String },
    /// The revision could not be checked out.
    CheckoutFailed { detail: String },
    /// The toolchain could not print the manifest.
    ManifestDumpFailed { detail: String },
    /// What the toolchain printed is not a manifest.
    ManifestDecodeError(ManifestDecodeError),
    /// The package offers no executable.
    NoExecutablesFound,
    /// The build of a product ended with a status other than 0.
    BuildFailed { product: String, status: i32 },
    /// A build output could not be copied to its destination.
    CopyFailed { detail: String },
    /// Another filesystem or process step failed.
    IOFailed { detail: String },
}

/// The mathematical view of [`InstallError`]: the same value over sequences of
/// characters.
pub enum InstallErrorView {
    InvalidRepositoryIdentifier { identifier: Seq<char> },
    RemoteVersionFetchFailed { detail: Seq<char> },
    NoStableVersionFound,
    CloneFailed { detail: Seq<char> },
    CheckoutFailed { detail: Seq<char> },
    ManifestDumpFailed { detail: Seq<char> },
    ManifestDecodeError(ManifestDecodeErrorView),
    NoExecutablesFound,
    BuildFailed { product: Seq<char>, status: i32 },
    CopyFailed { detail: Seq<char> },
    IOFailed { detail: Seq<char> },
}

impl View for InstallError {
    type V = InstallErrorView;

    open spec fn view(&self) -> InstallErrorView {
        match self {
            InstallError::InvalidRepositoryIdentifier { identifier } => {
                InstallErrorView::InvalidRepositoryIdentifier { identifier: identifier@ }
            },
            InstallError::RemoteVersionFetchFailed { detail } => {
                InstallErrorView::RemoteVersionFetchFailed { detail: detail@ }
            },
            InstallError::NoStableVersionFound => InstallErrorView::NoStableVersionFound,
            InstallError::CloneFailed { detail } => InstallErrorView::CloneFailed {
                detail: detail@,
            },
            InstallError::CheckoutFailed { detail } => InstallErrorView::CheckoutFailed {
                detail: detail@,
            },
            InstallError::ManifestDumpFailed { detail } => InstallErrorView::ManifestDumpFailed {
                detail: detail@,
            },
            InstallError::ManifestDecodeError(error) => InstallErrorView::ManifestDecodeError(
                error@,
            ),
            InstallError::NoExecutablesFound => InstallErrorView::NoExecutablesFound,
            InstallError::BuildFailed { product, status } => InstallErrorView::BuildFailed {
                product: product@,
                status: *status,
            },
            InstallError::CopyFailed { detail } => InstallErrorView::CopyFailed { detail: detail@ },
            InstallError::IOFailed { detail } => InstallErrorView::IOFailed { detail: detail@ },
        }
    }
}

/// The message of an error: what happened, and with it the identifier, the
/// product and status, or what the failed step said.
pub open spec fn install_message(error: InstallErrorView) -> Seq<char> {
    match error {
        InstallErrorView::InvalidRepositoryIdentifier { identifier } => {
            "Invalid swift package repo: "@ + identifier
        },
        InstallErrorView::RemoteVersionFetchFailed { detail } => {
            "Failed to list remote versions: "@ + detail
        },
        InstallErrorView::NoStableVersionFound => "No stable versions found"@,
        InstallErrorView::CloneFailed { detail } => "Failed to clone the repository: "@ + detail,
        InstallErrorView::CheckoutFailed { detail } => {
            "Failed to check out the revision: "@ + detail
        },
        InstallErrorView::ManifestDumpFailed { detail } => {
            "Failed to dump package description: "@ + detail
        },
        InstallErrorView::ManifestDecodeError(error) => {
            "Failed to parse package description. Details: "@ + decode_message(error)
        },
        InstallErrorView::NoExecutablesFound => "No executables found in the package"@,
        InstallErrorView::BuildFailed { product, status } => "Failed to build "@ + product
            + ": exit status "@ + signed_decimal(status as int),
        InstallErrorView::CopyFailed { detail } => "Failed to copy build artifacts: "@ + detail,
        InstallErrorView::IOFailed { detail } => detail,
    }
}

/// `head` followed by `tail`.
fn joined(head: &str, tail: &str) -> (r: String)
    ensures
        r@ == head@ + tail@,
{
    let mut out = head.to_owned();
    out.append(tail);
    out
}

impl InstallError {
    /// The message of the error, for the user.
    pub fn message(&self) -> (r: String)
        ensures
            r@ == install_message(self@),
    {
        match self {
            InstallError::InvalidRepositoryIdentifier { identifier } => joined(
                "Invalid swift package repo: ",
                identifier.as_str(),
            ),
            InstallError::RemoteVersionFetchFailed { detail } => joined(
                "Failed to list remote versions: ",
                detail.as_str(),
            ),
            InstallError::NoStableVersionFound => "No stable versions found".to_owned(),
            InstallError::CloneFailed { detail } => joined(
                "Failed to clone the repository: ",
                detail.as_str(),
            ),
            InstallError::CheckoutFailed { detail } => joined(
                "Failed to check out the revision: ",
                detail.as_str(),
            ),
            InstallError::ManifestDumpFailed { detail } => joined(
                "Failed to dump package description: ",
                detail.as_str(),
            ),
            InstallError::ManifestDecodeError(error) => joined(
                "Failed to parse package description. Details: ",
                error.message().as_str(),
            ),
            InstallError::NoExecutablesFound => "No executables found in the package".to_owned(),
            InstallError::BuildFailed { product, status } => {
                let mut out = joined("Failed to build ", product.as_str());
                out.append(": exit status ");
                push_signed_decimal(&mut out, *status);
                out
            },
            InstallError::CopyFailed { detail } => joined(
                "Failed to copy build artifacts: ",
                detail.as_str(),
            ),
            InstallError::IOFailed { detail } => detail.clone(),
        }
    }
}

} // verus!
