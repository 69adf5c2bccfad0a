//! The user-visible texts of a run's terminal outcomes, each built by a
//! function whose contract pins the text as a concatenation over `Seq<char>`.
use vstd::prelude::*;

use crate::text::concat2;
use crate::text::concat3;

verus! {

/// The text reported when the declared version is already on the registry
/// with the same checksum.
pub open spec fn spec_skip_message(version: Seq<char>) -> Seq<char> {
    "the version "@ + version
        + " is already published at the remote registry. nothing to do here."@
}

/// Builds the message for a `Skip` decision.
pub fn skip_message(version: &str) -> (r: String)
    ensures
        r@ == spec_skip_message(version@),
{
    let r = concat3(
        "the version ",
        version,
        " is already published at the remote registry. nothing to do here.",
    );
    proof {
        assert(r@ =~= spec_skip_message(version@));
    }
    r
}

/// The text reported when the declared version is already on the registry
/// with a different checksum. It carries the declared version, both
/// checksums, and the path of the manifest whose version was likely not
/// bumped.
pub open spec fn spec_conflict_message(
    version: Seq<char>,
    local_checksum: Seq<char>,
    remote_checksum: Seq<char>,
    manifest_path: Seq<char>,
) -> Seq<char> {
    "the version "@ + version
        + " is already published at the remote registry but your local .crate checksum differs from the one on the remote:\nlocal : "@
        + local_checksum + "\nremote: "@ + remote_checksum
        + "\nhint: maybe you forgot to update the version at "@ + manifest_path + "!?"@
}

/// Builds the message for a `Conflict` decision.
pub fn conflict_message(
    version: &str,
    local_checksum: &str,
    remote_checksum: &str,
    manifest_path: &str,
) -> (r: String)
    ensures
        r@ == spec_conflict_message(
            version@,
            local_checksum@,
            remote_checksum@,
            manifest_path@,
        ),
{
    let mut r = concat2("the version ", version);
    r.append(
        " is already published at the remote registry but your local .crate checksum differs from the one on the remote:\nlocal : ",
    );
    r.append(local_checksum);
    r.append("\nremote: ");
    r.append(remote_checksum);
    r.append("\nhint: maybe you forgot to update the version at ");
    r.append(manifest_path);
    r.append("!?");
    proof {
        assert(r@ =~= spec_conflict_message(
            version@,
            local_checksum@,
            remote_checksum@,
            manifest_path@,
        ));
    }
    r
}

/// `needle` stands verbatim in `hay`, starting at index `k`.
pub open spec fn occurs_at(hay: Seq<char>, needle: Seq<char>, k: int) -> bool {
    &&& 0 <= k
    &&& k + needle.len() <= hay.len()
    &&& hay.subrange(k, k + needle.len()) == needle
}

/// `needle` stands verbatim somewhere in `hay`.
pub open spec fn occurs_in(hay: Seq<char>, needle: Seq<char>) -> bool {
    exists|k: int| occurs_at(hay, needle, k)
}

/// The conflict message carries the declared version and both checksum
/// values verbatim.
pub proof fn lemma_conflict_message_contains(
    version: Seq<char>,
    local_checksum: Seq<char>,
    remote_checksum: Seq<char>,
    manifest_path: Seq<char>,
)
    ensures
        occurs_in(
            spec_conflict_message(version, local_checksum, remote_checksum, manifest_path),
            version,
        ),
        occurs_in(
            spec_conflict_message(version, local_checksum, remote_checksum, manifest_path),
            local_checksum,
        ),
        occurs_in(
            spec_conflict_message(version, local_checksum, remote_checksum, manifest_path),
            remote_checksum,
        ),
{
    let msg = spec_conflict_message(version, local_checksum, remote_checksum, manifest_path);
    let c1 = "the version "@;
    let c2 =
        " is already published at the remote registry but your local .crate checksum differs from the one on the remote:\nlocal : "@;
    let c3 = "\nremote: "@;
    let kv = c1.len() as int;
    let kl = kv + version.len() + c2.len();
    let kr = kl + local_checksum.len() + c3.len();
    assert(msg.subrange(kv, kv + version.len()) =~= version);
    assert(occurs_at(msg, version, kv));
    assert(msg.subrange(kl, kl + local_checksum.len()) =~= local_checksum);
    assert(occurs_at(msg, local_checksum, kl));
    assert(msg.subrange(kr, kr + remote_checksum.len()) =~= remote_checksum);
    assert(occurs_at(msg, remote_checksum, kr));
}

} // verus!
