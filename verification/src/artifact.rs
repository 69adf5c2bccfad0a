//! The locally packaged artifact: where the packaging step leaves it, and
//! the content checksum compared against the registry's record. Reading
//! the file is a caller's concern; the digest of its bytes is computed
//! here, behind one trusted wrapper.
use vstd::prelude::*;

use crate::text::concat2;
use vstd::string::StringExecFns;

verus! {

/// The path under which the packaging step leaves the artifact for a
/// package name and version: `target/package/<name>-<version>.crate`
/// under the current directory.
pub open spec fn spec_artifact_path(name: Seq<char>, version: Seq<char>) -> Seq<char> {
    "./target/package/"@ + name + "-"@ + version + ".crate"@
}

/// Builds the artifact path for `name` and `version`.
pub fn artifact_path(name: &str, version: &str) -> (r: String)
    ensures
        r@ == spec_artifact_path(name@, version@),
{
    let mut r = concat2("./target/package/", name);
    r.append("-");
    r.append(version);
    r.append(".crate");
    proof {
        assert(r@ =~= spec_artifact_path(name@, version@));
    }
    r
}

/// The lower-case hexadecimal SHA-256 digest of a byte sequence: the
/// digest the registry records for an artifact's content. A function of
/// the bytes alone.
pub uninterp spec fn sha256_hex_of(bytes: Seq<u8>) -> Seq<char>;

/// Relies on `sha256::digest`: the lower-case hexadecimal SHA-256 digest
/// of the input bytes, a function of the bytes alone.
#[verifier::external_body]
fn sha256_hex(bytes: &Vec<u8>) -> (r: String)
    ensures
        r@ == sha256_hex_of(bytes@),
{
    sha256::digest(bytes)
}

/// Computes the content checksum of an artifact's bytes.
pub fn artifact_checksum(bytes: &Vec<u8>) -> (r: String)
    ensures
        r@ == sha256_hex_of(bytes@),
{
    sha256_hex(bytes)
}

/// A freshly packaged artifact: its path and its content checksum. One
/// is only constructed from the artifact's bytes, so the file existed
/// when they were read.
pub struct LocalArtifact {
    pub path: String,
    pub content_checksum: String,
}

/// The abstract value of a `LocalArtifact`.
pub struct LocalArtifactView {
    pub path: Seq<char>,
    pub content_checksum: Seq<char>,
}

impl View for LocalArtifact {
    type V = LocalArtifactView;

    open spec fn view(&self) -> LocalArtifactView {
        LocalArtifactView { path: self.path@, content_checksum: self.content_checksum@ }
    }
}

impl LocalArtifact {
    /// A `LocalArtifact` is well-formed for a package when its path is
    /// the one derived from the package's name and version.
    pub open spec fn wf_for(self, name: Seq<char>, version: Seq<char>) -> bool {
        self@.path == spec_artifact_path(name, version)
    }

    /// Describes the artifact of `name` and `version` whose content is
    /// `bytes`.
    pub fn new(name: &str, version: &str, bytes: &Vec<u8>) -> (r: LocalArtifact)
        ensures
            r@.path == spec_artifact_path(name@, version@),
            r@.content_checksum == sha256_hex_of(bytes@),
            r.wf_for(name@, version@),
    {
        let path = artifact_path(name, version);
        let content_checksum = artifact_checksum(bytes);
        LocalArtifact { path, content_checksum }
    }
}

} // verus!
