//! The fatal error kinds of a run. Every kind ends the run with exit
//! status 1; `describe` yields the user-visible text, pinned over views.
use vstd::prelude::*;

use crate::messages::spec_conflict_message;
use crate::messages::conflict_message;
use vstd::string::StringExecFns;

use crate::text::concat2;
use crate::text::spec_decimal;
use crate::text::u16_decimal;

verus! {

/// A fatal condition of one run.
#[derive(Debug)]
pub enum RunError {
    /// The manifest could not be read or lacks the package fields.
    ManifestError { cause: String },
    /// The packaging command exited non-zero; `cause` is its standard error.
    PackagingFailure { cause: String },
    /// The registry gave no response at the network level.
    RegistryTransportError { cause: String },
    /// The registry responded outside its protocol: an unexpected status,
    /// or a success body that is no versions listing.
    RegistryProtocolError { detail: String },
    /// The declared version is on the registry with different content.
    ChecksumConflict {
        declared_version: String,
        local_checksum: String,
        remote_checksum: String,
        manifest_path: String,
    },
    /// The publishing command exited non-zero; `cause` is its standard error.
    PublishingFailure { cause: String },
}

/// The abstract value of a `RunError`: the same kinds over `Seq<char>`.
pub enum RunErrorView {
    ManifestError { cause: Seq<char> },
    PackagingFailure { cause: Seq<char> },
    RegistryTransportError { cause: Seq<char> },
    RegistryProtocolError { detail: Seq<char> },
    ChecksumConflict {
        declared_version: Seq<char>,
        local_checksum: Seq<char>,
        remote_checksum: Seq<char>,
        manifest_path: Seq<char>,
    },
    PublishingFailure { cause: Seq<char> },
}

impl View for RunError {
    type V = RunErrorView;

    open spec fn view(&self) -> RunErrorView {
        match self {
            RunError::ManifestError { cause } => RunErrorView::ManifestError { cause: cause@ },
            RunError::PackagingFailure { cause } => RunErrorView::PackagingFailure {
                cause: cause@,
            },
            RunError::RegistryTransportError { cause } => RunErrorView::RegistryTransportError {
                cause: cause@,
            },
            RunError::RegistryProtocolError { detail } => RunErrorView::RegistryProtocolError {
                detail: detail@,
            },
            RunError::ChecksumConflict {
                declared_version,
                local_checksum,
                remote_checksum,
                manifest_path,
            } => RunErrorView::ChecksumConflict {
                declared_version: declared_version@,
                local_checksum: local_checksum@,
                remote_checksum: remote_checksum@,
                manifest_path: manifest_path@,
            },
            RunError::PublishingFailure { cause } => RunErrorView::PublishingFailure {
                cause: cause@,
            },
        }
    }
}

/// The user-visible text of each error kind.
pub open spec fn spec_describe(e: RunErrorView) -> Seq<char> {
    match e {
        RunErrorView::ManifestError { cause } => "err while loading crate's toml: "@ + cause,
        RunErrorView::PackagingFailure { cause } => "exec cargo package: "@ + cause,
        RunErrorView::RegistryTransportError { cause } =>
            "err while attempting to connect to remote registry: "@ + cause,
        RunErrorView::RegistryProtocolError { detail } => "remote registry err: "@ + detail,
        RunErrorView::ChecksumConflict {
            declared_version,
            local_checksum,
            remote_checksum,
            manifest_path,
        } => spec_conflict_message(
            declared_version,
            local_checksum,
            remote_checksum,
            manifest_path,
        ),
        RunErrorView::PublishingFailure { cause } => "exec cargo publish: "@ + cause,
    }
}

impl RunError {
    /// The user-visible text of this error.
    pub fn describe(&self) -> (r: String)
        ensures
            r@ == spec_describe(self@),
    {
        match self {
            RunError::ManifestError { cause } => concat2(
                "err while loading crate's toml: ",
                cause.as_str(),
            ),
            RunError::PackagingFailure { cause } => concat2(
                "exec cargo package: ",
                cause.as_str(),
            ),
            RunError::RegistryTransportError { cause } => concat2(
                "err while attempting to connect to remote registry: ",
                cause.as_str(),
            ),
            RunError::RegistryProtocolError { detail } => concat2(
                "remote registry err: ",
                detail.as_str(),
            ),
            RunError::ChecksumConflict {
                declared_version,
                local_checksum,
                remote_checksum,
                manifest_path,
            } => conflict_message(
                declared_version.as_str(),
                local_checksum.as_str(),
                remote_checksum.as_str(),
                manifest_path.as_str(),
            ),
            RunError::PublishingFailure { cause } => concat2(
                "exec cargo publish: ",
                cause.as_str(),
            ),
        }
    }
}

/// The protocol-error detail for a response status that is neither
/// success nor not-found.
pub open spec fn spec_status_detail(status: u16) -> Seq<char> {
    "unexpected status "@ + spec_decimal(status as nat)
}

/// The error reported when the registry answers with an unexpected status.
pub fn protocol_error_for_status(status: u16) -> (r: RunError)
    ensures
        r@ == (RunErrorView::RegistryProtocolError { detail: spec_status_detail(status) }),
{
    let rendered = u16_decimal(status);
    let detail = concat2("unexpected status ", rendered.as_str());
    RunError::RegistryProtocolError { detail }
}

/// The protocol-error detail for a success body that does not decode
/// into a versions listing.
pub open spec fn spec_body_detail() -> Seq<char> {
    "could not decode the versions listing in the response body"@
}

/// The error reported when the registry's success body does not decode.
pub fn protocol_error_for_body() -> (r: RunError)
    ensures
        r@ == (RunErrorView::RegistryProtocolError { detail: spec_body_detail() }),
{
    let detail = String::from_str("could not decode the versions listing in the response body");
    RunError::RegistryProtocolError { detail }
}

} // verus!
