//! The decision engine: a pure classification of one registry outcome
//! against the declared version and the local content checksum, into one
//! of three terminal decisions, with the fatal outcomes surfaced as
//! errors. The laws of the classification stand below it as proof
//! functions.
use vstd::prelude::*;

use crate::errors::RunError;
use crate::errors::RunErrorView;
use crate::errors::protocol_error_for_status;
use crate::errors::spec_status_detail;
use crate::messages::lemma_conflict_message_contains;
use crate::messages::occurs_in;
use crate::messages::spec_conflict_message;
use crate::registry::RegistryQueryOutcome;
use crate::registry::RegistryQueryOutcomeView;
use crate::registry::entries_view;

verus! {

/// The one classification of a run: skip the publish, perform it, or
/// refuse because the version is already there with different content.
#[derive(Debug)]
pub enum Decision {
    /// The declared version is on the registry with the same checksum.
    Skip,
    /// The registry does not know the declared version yet.
    Publish,
    /// The declared version is on the registry with another checksum;
    /// the engine never overwrites.
    Conflict { remote_checksum: String },
}

/// The abstract value of a `Decision`.
pub enum DecisionView {
    Skip,
    Publish,
    Conflict { remote_checksum: Seq<char> },
}

impl View for Decision {
    type V = DecisionView;

    open spec fn view(&self) -> DecisionView {
        match self {
            Decision::Skip => DecisionView::Skip,
            Decision::Publish => DecisionView::Publish,
            Decision::Conflict { remote_checksum } => DecisionView::Conflict {
                remote_checksum: remote_checksum@,
            },
        }
    }
}

/// The checksum of the first catalog entry whose version string equals
/// `declared`, byte for byte. Each entry is a (version, checksum) pair.
pub open spec fn first_match(
    entries: Seq<(Seq<char>, Seq<char>)>,
    declared: Seq<char>,
) -> Option<Seq<char>>
    decreases entries.len(),
{
    if entries.len() == 0 {
        None
    } else if entries[0].0 == declared {
        Some(entries[0].1)
    } else {
        first_match(entries.drop_first(), declared)
    }
}

/// The decision for a catalog the registry returned: publish when the
/// declared version is absent, skip when its first match carries the
/// local checksum, and conflict otherwise.
pub open spec fn spec_decide_found(
    declared: Seq<char>,
    local: Seq<char>,
    entries: Seq<(Seq<char>, Seq<char>)>,
) -> DecisionView {
    match first_match(entries, declared) {
        None => DecisionView::Publish,
        Some(remote) => if remote == local {
            DecisionView::Skip
        } else {
            DecisionView::Conflict { remote_checksum: remote }
        },
    }
}

/// The decision for any registry outcome. The two fatal outcomes become
/// the corresponding error kinds; the engine never decides past them.
pub open spec fn spec_decide(
    declared: Seq<char>,
    local: Seq<char>,
    outcome: RegistryQueryOutcomeView,
) -> Result<DecisionView, RunErrorView> {
    match outcome {
        RegistryQueryOutcomeView::NotFound => Ok(DecisionView::Publish),
        RegistryQueryOutcomeView::Found(entries) => Ok(
            spec_decide_found(declared, local, entries),
        ),
        RegistryQueryOutcomeView::TransportError(cause) => Err(
            RunErrorView::RegistryTransportError { cause },
        ),
        RegistryQueryOutcomeView::UnexpectedStatus(status) => Err(
            RunErrorView::RegistryProtocolError { detail: spec_status_detail(status) },
        ),
    }
}

/// The abstract value of a decision result.
pub open spec fn decision_result_view(r: Result<Decision, RunError>) -> Result<
    DecisionView,
    RunErrorView,
> {
    match r {
        Ok(d) => Ok(d@),
        Err(e) => Err(e@),
    }
}

proof fn lemma_first_match_skip(
    entries: Seq<(Seq<char>, Seq<char>)>,
    declared: Seq<char>,
    k: int,
)
    requires
        0 <= k <= entries.len(),
        forall|j: int| 0 <= j < k ==> entries[j].0 != declared,
    ensures
        first_match(entries, declared) == first_match(entries.skip(k), declared),
    decreases k,
{
    if k > 0 {
        let t = entries.drop_first();
        assert(t =~= entries.skip(1));
        lemma_first_match_skip(t, declared, k - 1);
        assert(t.skip(k - 1) =~= entries.skip(k));
    } else {
        assert(entries.skip(0) =~= entries);
    }
}

/// Decides for `outcome`, the declared version and the local checksum.
/// The result is exactly `spec_decide` of the inputs' abstract values.
pub fn decide(
    declared_version: &String,
    local_checksum: &String,
    outcome: &RegistryQueryOutcome,
) -> (r: Result<Decision, RunError>)
    ensures
        decision_result_view(r) == spec_decide(declared_version@, local_checksum@, outcome@),
{
    match outcome {
        RegistryQueryOutcome::NotFound => Ok(Decision::Publish),
        RegistryQueryOutcome::Found(entries) => {
            let ghost es = entries_view(entries@);
            let n = entries.len();
            let mut i: usize = 0;
            while i < n
                invariant
                    0 <= i <= n == entries@.len(),
                    es == entries_view(entries@),
                    outcome@ == RegistryQueryOutcomeView::Found(es),
                    forall|j: int| 0 <= j < i ==> es[j].0 != declared_version@,
                decreases n - i,
            {
                let e = &entries[i];
                proof {
                    assert(es[i as int] == (e.version@, e.checksum@));
                }
                if e.version == *declared_version {
                    proof {
                        lemma_first_match_skip(es, declared_version@, i as int);
                        assert(es.skip(i as int).len() > 0);
                        assert(es.skip(i as int)[0] == es[i as int]);
                        assert(first_match(es, declared_version@) == Some(e.checksum@));
                    }
                    if e.checksum == *local_checksum {
                        return Ok(Decision::Skip);
                    } else {
                        return Ok(
                            Decision::Conflict { remote_checksum: e.checksum.clone() },
                        );
                    }
                }
                i = i + 1;
            }
            proof {
                lemma_first_match_skip(es, declared_version@, n as int);
                assert(es.skip(n as int).len() == 0);
            }
            Ok(Decision::Publish)
        },
        RegistryQueryOutcome::TransportError(cause) => Err(
            RunError::RegistryTransportError { cause: cause.clone() },
        ),
        RegistryQueryOutcome::UnexpectedStatus(status) => Err(protocol_error_for_status(*status)),
    }
}

/// When the registry outcome is not-found, the decision is to publish,
/// whatever the declared version and the local checksum.
pub proof fn lemma_not_found_publishes(declared: Seq<char>, local: Seq<char>)
    ensures
        spec_decide(declared, local, RegistryQueryOutcomeView::NotFound) == Ok::<
            DecisionView,
            RunErrorView,
        >(DecisionView::Publish),
{
}

proof fn lemma_first_match_none(entries: Seq<(Seq<char>, Seq<char>)>, declared: Seq<char>)
    requires
        forall|j: int| 0 <= j < entries.len() ==> entries[j].0 != declared,
    ensures
        first_match(entries, declared) is None,
    decreases entries.len(),
{
    if entries.len() > 0 {
        lemma_first_match_none(entries.drop_first(), declared);
    }
}

proof fn lemma_first_match_at(
    entries: Seq<(Seq<char>, Seq<char>)>,
    declared: Seq<char>,
    i: int,
)
    requires
        0 <= i < entries.len(),
        entries[i].0 == declared,
        forall|j: int| 0 <= j < i ==> entries[j].0 != declared,
    ensures
        first_match(entries, declared) == Some(entries[i].1),
    decreases i,
{
    if i > 0 {
        let t = entries.drop_first();
        lemma_first_match_at(t, declared, i - 1);
    }
}

/// When no catalog entry carries the declared version, the decision is
/// to publish, regardless of the entries' checksums.
pub proof fn lemma_unknown_version_publishes(
    declared: Seq<char>,
    local: Seq<char>,
    entries: Seq<(Seq<char>, Seq<char>)>,
)
    requires
        forall|j: int| 0 <= j < entries.len() ==> entries[j].0 != declared,
    ensures
        spec_decide(declared, local, RegistryQueryOutcomeView::Found(entries)) == Ok::<
            DecisionView,
            RunErrorView,
        >(DecisionView::Publish),
{
    lemma_first_match_none(entries, declared);
}

/// When the first catalog entry carrying the declared version carries
/// the local checksum too, the decision is to skip.
pub proof fn lemma_matching_checksum_skips(
    declared: Seq<char>,
    local: Seq<char>,
    entries: Seq<(Seq<char>, Seq<char>)>,
    i: int,
)
    requires
        0 <= i < entries.len(),
        entries[i].0 == declared,
        entries[i].1 == local,
        forall|j: int| 0 <= j < i ==> entries[j].0 != declared,
    ensures
        spec_decide(declared, local, RegistryQueryOutcomeView::Found(entries)) == Ok::<
            DecisionView,
            RunErrorView,
        >(DecisionView::Skip),
{
    lemma_first_match_at(entries, declared, i);
}

/// When the first catalog entry carrying the declared version carries a
/// different checksum, the decision is the conflict naming that remote
/// checksum, and the conflict message carries both checksum values
/// verbatim.
pub proof fn lemma_differing_checksum_conflicts(
    declared: Seq<char>,
    local: Seq<char>,
    entries: Seq<(Seq<char>, Seq<char>)>,
    i: int,
    manifest_path: Seq<char>,
)
    requires
        0 <= i < entries.len(),
        entries[i].0 == declared,
        entries[i].1 != local,
        forall|j: int| 0 <= j < i ==> entries[j].0 != declared,
    ensures
        spec_decide(declared, local, RegistryQueryOutcomeView::Found(entries)) == Ok::<
            DecisionView,
            RunErrorView,
        >(DecisionView::Conflict { remote_checksum: entries[i].1 }),
        occurs_in(
            spec_conflict_message(declared, local, entries[i].1, manifest_path),
            local,
        ),
        occurs_in(
            spec_conflict_message(declared, local, entries[i].1, manifest_path),
            entries[i].1,
        ),
{
    lemma_first_match_at(entries, declared, i);
    lemma_conflict_message_contains(declared, local, entries[i].1, manifest_path);
}

/// Deciding twice on identical inputs yields an identical decision: the
/// classification is a function of its inputs alone, with no hidden
/// state.
pub proof fn lemma_decide_deterministic(
    declared_a: Seq<char>,
    local_a: Seq<char>,
    outcome_a: RegistryQueryOutcomeView,
    declared_b: Seq<char>,
    local_b: Seq<char>,
    outcome_b: RegistryQueryOutcomeView,
)
    requires
        declared_a == declared_b,
        local_a == local_b,
        outcome_a == outcome_b,
    ensures
        spec_decide(declared_a, local_a, outcome_a) == spec_decide(declared_b, local_b, outcome_b),
{
}

} // verus!
