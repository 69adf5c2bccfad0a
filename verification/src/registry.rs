//! The remote registry's side of the decision: the version-listing
//! resource, and the taxonomy of what one lookup of it can yield. The
//! network transfer is a caller's concern; this module classifies the
//! captured response, decoding its body behind one trusted wrapper.
use vstd::prelude::*;

use crate::errors::RunError;
use crate::errors::RunErrorView;
use crate::errors::protocol_error_for_body;
use crate::errors::spec_body_detail;
use crate::text::concat2;

verus! {

/// One version the registry has recorded: its version string and the
/// checksum of its content.
#[derive(Debug, Clone)]
pub struct RemoteVersionEntry {
    pub version: String,
    pub checksum: String,
}

impl View for RemoteVersionEntry {
    /// The version string, then the checksum.
    type V = (Seq<char>, Seq<char>);

    open spec fn view(&self) -> (Seq<char>, Seq<char>) {
        (self.version@, self.checksum@)
    }
}

/// The abstract value of a remote catalog: each entry as its version
/// string and checksum.
pub open spec fn entries_view(es: Seq<RemoteVersionEntry>) -> Seq<(Seq<char>, Seq<char>)> {
    es.map_values(|e: RemoteVersionEntry| e@)
}

/// What one registry lookup yielded. `NotFound` is a valid outcome, not a
/// failure: the package has never been published. The two error variants
/// are fatal once the engine consumes them.
#[derive(Debug)]
pub enum RegistryQueryOutcome {
    NotFound,
    Found(Vec<RemoteVersionEntry>),
    TransportError(String),
    UnexpectedStatus(u16),
}

/// The abstract value of a `RegistryQueryOutcome`.
pub enum RegistryQueryOutcomeView {
    NotFound,
    Found(Seq<(Seq<char>, Seq<char>)>),
    TransportError(Seq<char>),
    UnexpectedStatus(u16),
}

impl View for RegistryQueryOutcome {
    type V = RegistryQueryOutcomeView;

    open spec fn view(&self) -> RegistryQueryOutcomeView {
        match self {
            RegistryQueryOutcome::NotFound => RegistryQueryOutcomeView::NotFound,
            RegistryQueryOutcome::Found(es) => RegistryQueryOutcomeView::Found(entries_view(es@)),
            RegistryQueryOutcome::TransportError(cause) =>
                RegistryQueryOutcomeView::TransportError(cause@),
            RegistryQueryOutcome::UnexpectedStatus(status) =>
                RegistryQueryOutcomeView::UnexpectedStatus(*status),
        }
    }
}

/// The registry's version-listing resource for a package name.
pub open spec fn spec_registry_url(name: Seq<char>) -> Seq<char> {
    "https://crates.io/api/v1/crates/"@ + name
}

/// Builds the URL of the version-listing resource for `name`.
pub fn registry_url(name: &str) -> (r: String)
    ensures
        r@ == spec_registry_url(name@),
{
    concat2("https://crates.io/api/v1/crates/", name)
}

/// What the registry's success body decodes to: the `num` and `checksum`
/// of each element of its `versions` array, in order, where the body is
/// such a listing, and nothing otherwise. A function of the body alone.
pub uninterp spec fn versions_json_of(body: Seq<char>) -> Option<Seq<(Seq<char>, Seq<char>)>>;

/// Relies on `serde_json::from_str` and `serde_json::Value`'s accessors
/// (`get`, `as_array`, `as_str`) for decoding the fixed shape
/// `{"versions": [{"num": .., "checksum": ..}, ..]}`. The result depends
/// on the body text alone.
#[verifier::external_body]
fn decode_versions_json(body: &str) -> (r: Option<Vec<RemoteVersionEntry>>)
    ensures
        r is Some <==> versions_json_of(body@) is Some,
        r matches Some(v) ==> versions_json_of(body@) == Some(entries_view(v@)),
{
    let root: serde_json::Value = serde_json::from_str(body).ok()?;
    let list = root.get("versions")?.as_array()?;
    let mut out: Vec<RemoteVersionEntry> = Vec::new();
    for item in list {
        let version = item.get("num")?.as_str()?.to_string();
        let checksum = item.get("checksum")?.as_str()?.to_string();
        out.push(RemoteVersionEntry { version, checksum });
    }
    Some(out)
}

/// The abstract value of a captured transport result: the status and body
/// on response, the cause on network-level failure.
pub open spec fn transport_view(
    resp: Result<(u16, String), String>,
) -> Result<(u16, Seq<char>), Seq<char>> {
    match resp {
        Ok((status, body)) => Ok((status, body@)),
        Err(cause) => Err(cause@),
    }
}

/// The abstract value of a classified response.
pub open spec fn outcome_result_view(
    r: Result<RegistryQueryOutcome, RunError>,
) -> Result<RegistryQueryOutcomeView, RunErrorView> {
    match r {
        Ok(o) => Ok(o@),
        Err(e) => Err(e@),
    }
}

/// How one captured lookup is classified: not-found is the valid absence
/// of the package; a decodable success body is the catalog; a success
/// body that does not decode is a fatal protocol error, never a silent
/// not-found; any other status is unexpected; a network-level failure is
/// a transport error.
pub open spec fn spec_registry_outcome(
    resp: Result<(u16, Seq<char>), Seq<char>>,
) -> Result<RegistryQueryOutcomeView, RunErrorView> {
    match resp {
        Err(cause) => Ok(RegistryQueryOutcomeView::TransportError(cause)),
        Ok((status, body)) => {
            if status == 404 {
                Ok(RegistryQueryOutcomeView::NotFound)
            } else if status != 200 {
                Ok(RegistryQueryOutcomeView::UnexpectedStatus(status))
            } else {
                match versions_json_of(body) {
                    Some(es) => Ok(RegistryQueryOutcomeView::Found(es)),
                    None => Err(
                        RunErrorView::RegistryProtocolError { detail: spec_body_detail() },
                    ),
                }
            }
        },
    }
}

/// Classifies one captured registry lookup.
pub fn registry_outcome(resp: Result<(u16, String), String>) -> (r: Result<
    RegistryQueryOutcome,
    RunError,
>)
    ensures
        outcome_result_view(r) == spec_registry_outcome(transport_view(resp)),
{
    match resp {
        Err(cause) => Ok(RegistryQueryOutcome::TransportError(cause)),
        Ok((status, body)) => {
            if status == 404 {
                Ok(RegistryQueryOutcome::NotFound)
            } else if status != 200 {
                Ok(RegistryQueryOutcome::UnexpectedStatus(status))
            } else {
                match decode_versions_json(body.as_str()) {
                    Some(es) => Ok(RegistryQueryOutcome::Found(es)),
                    None => Err(protocol_error_for_body()),
                }
            }
        },
    }
}

} // verus!
