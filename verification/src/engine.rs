//! The run as a state machine: every decision of one publish run, from
//! the packaging step to the terminal exit status, as a function from
//! state and event to next state and action. A caller performs each
//! action (spawn, read, query) and hands the captured result back as the
//! next event; all the choices in between are made, and proved, here.
use vstd::prelude::*;

use crate::artifact::artifact_path;
use crate::artifact::spec_artifact_path;
use crate::command::CommandResult;
use crate::command::CommandResultView;
use crate::command::option_as_str;
use crate::command::package_command;
use crate::command::publish_command;
use crate::command::spec_package_command;
use crate::command::spec_publish_command;
use crate::decision::Decision;
use crate::decision::DecisionView;
use crate::decision::decide;
use crate::decision::spec_decide;
use crate::errors::RunError;
use crate::errors::RunErrorView;
use crate::errors::spec_describe;
use crate::manifest::CargoTomlPackage;
use crate::manifest::CargoTomlPackageView;
use crate::messages::skip_message;
use crate::messages::spec_skip_message;
use crate::registry::registry_outcome;
use crate::registry::registry_url;
use crate::registry::spec_registry_outcome;
use crate::registry::spec_registry_url;
use crate::registry::transport_view;
use crate::text::concat2;

verus! {

/// Where a run stands between two of its outside steps.
pub enum Phase {
    /// The packaging command is running.
    Packaging,
    /// The artifact file's existence is being checked.
    LocatingArtifact,
    /// The artifact's content checksum is being computed.
    Hashing,
    /// The registry is being queried; the local checksum is in hand.
    Querying { local_checksum: String },
    /// The publishing command is running.
    Publishing,
    /// The run is over.
    Done { exit_code: u8 },
}

/// The abstract value of a `Phase`.
pub enum PhaseView {
    Packaging,
    LocatingArtifact,
    Hashing,
    Querying { local_checksum: Seq<char> },
    Publishing,
    Done { exit_code: u8 },
}

impl View for Phase {
    type V = PhaseView;

    open spec fn view(&self) -> PhaseView {
        match self {
            Phase::Packaging => PhaseView::Packaging,
            Phase::LocatingArtifact => PhaseView::LocatingArtifact,
            Phase::Hashing => PhaseView::Hashing,
            Phase::Querying { local_checksum } => PhaseView::Querying {
                local_checksum: local_checksum@,
            },
            Phase::Publishing => PhaseView::Publishing,
            Phase::Done { exit_code } => PhaseView::Done { exit_code: *exit_code },
        }
    }
}

/// What a caller reports back after performing an action.
pub enum Event {
    /// The captured outcome of the packaging command.
    PackagingResult(CommandResult),
    /// Whether the artifact file exists.
    ArtifactPresence(bool),
    /// The artifact's content checksum.
    ArtifactChecksum(String),
    /// The registry's response: status and body, or the network-level
    /// failure's cause.
    RegistryResponse(Result<(u16, String), String>),
    /// The captured outcome of the publishing command.
    PublishResult(CommandResult),
}

/// The abstract value of an `Event`.
pub enum EventView {
    PackagingResult(CommandResultView),
    ArtifactPresence(bool),
    ArtifactChecksum(Seq<char>),
    RegistryResponse(Result<(u16, Seq<char>), Seq<char>>),
    PublishResult(CommandResultView),
}

impl View for Event {
    type V = EventView;

    open spec fn view(&self) -> EventView {
        match self {
            Event::PackagingResult(r) => EventView::PackagingResult(r@),
            Event::ArtifactPresence(present) => EventView::ArtifactPresence(*present),
            Event::ArtifactChecksum(c) => EventView::ArtifactChecksum(c@),
            Event::RegistryResponse(resp) => EventView::RegistryResponse(transport_view(*resp)),
            Event::PublishResult(r) => EventView::PublishResult(r@),
        }
    }
}

/// What a caller is to do next.
pub enum Action {
    /// Run this packaging command and report its captured outcome.
    RunPackaging { command: String },
    /// Report whether this file exists.
    CheckArtifact { path: String },
    /// Report the checksum of this file's bytes.
    ComputeChecksum { path: String },
    /// Perform the registry lookup at this URL and report the response.
    QueryRegistry { url: String },
    /// Run this publishing command and report its captured outcome.
    RunPublish { command: String },
    /// The run is over: exit with this status after printing this message.
    Finish { exit_code: u8, message: String },
}

/// The abstract value of an `Action`.
pub enum ActionView {
    RunPackaging { command: Seq<char> },
    CheckArtifact { path: Seq<char> },
    ComputeChecksum { path: Seq<char> },
    QueryRegistry { url: Seq<char> },
    RunPublish { command: Seq<char> },
    Finish { exit_code: u8, message: Seq<char> },
}

impl View for Action {
    type V = ActionView;

    open spec fn view(&self) -> ActionView {
        match self {
            Action::RunPackaging { command } => ActionView::RunPackaging { command: command@ },
            Action::CheckArtifact { path } => ActionView::CheckArtifact { path: path@ },
            Action::ComputeChecksum { path } => ActionView::ComputeChecksum { path: path@ },
            Action::QueryRegistry { url } => ActionView::QueryRegistry { url: url@ },
            Action::RunPublish { command } => ActionView::RunPublish { command: command@ },
            Action::Finish { exit_code, message } => ActionView::Finish {
                exit_code: *exit_code,
                message: message@,
            },
        }
    }
}

/// The state of one run: the package being published, the manifest path
/// reported in a conflict, the caller's extra publish arguments, and the
/// phase reached so far.
pub struct Engine {
    pub package: CargoTomlPackage,
    pub manifest_path: String,
    pub publish_args: Option<String>,
    pub phase: Phase,
}

/// The abstract value of an `Engine`.
pub struct EngineView {
    pub package: CargoTomlPackageView,
    pub manifest_path: Seq<char>,
    pub publish_args: Option<Seq<char>>,
    pub phase: PhaseView,
}

impl View for Engine {
    type V = EngineView;

    open spec fn view(&self) -> EngineView {
        EngineView {
            package: self.package@,
            manifest_path: self.manifest_path@,
            publish_args: self.publish_args.deep_view(),
            phase: self.phase@,
        }
    }
}

/// Which event each phase awaits.
pub open spec fn expects(phase: PhaseView, event: EventView) -> bool {
    match (phase, event) {
        (PhaseView::Packaging, EventView::PackagingResult(_)) => true,
        (PhaseView::LocatingArtifact, EventView::ArtifactPresence(_)) => true,
        (PhaseView::Hashing, EventView::ArtifactChecksum(_)) => true,
        (PhaseView::Querying { .. }, EventView::RegistryResponse(_)) => true,
        (PhaseView::Publishing, EventView::PublishResult(_)) => true,
        _ => false,
    }
}

/// `pre` with another phase.
pub open spec fn with_phase(pre: EngineView, phase: PhaseView) -> EngineView {
    EngineView {
        package: pre.package,
        manifest_path: pre.manifest_path,
        publish_args: pre.publish_args,
        phase,
    }
}

/// The terminal transition: the run ends with `exit_code` and `message`.
pub open spec fn finished(pre: EngineView, exit_code: u8, message: Seq<char>) -> (
    EngineView,
    ActionView,
) {
    (
        with_phase(pre, PhaseView::Done { exit_code }),
        ActionView::Finish { exit_code, message },
    )
}

/// The message reported when the packaging step left no artifact file.
pub open spec fn spec_missing_artifact_message(path: Seq<char>) -> Seq<char> {
    "crate file does not exists: "@ + path
}

/// The whole transition relation of a run: for each phase and its event,
/// the next state and the action handed back to the caller.
///
/// - A failed packaging command ends the run at once: the registry is
///   never queried.
/// - A missing artifact file ends the run, distinctly from a packaging
///   failure.
/// - Once the checksum is in hand the registry is queried, and its
///   response is classified and decided by `spec_registry_outcome` and
///   `spec_decide`: a fatal outcome ends the run with its message; `Skip`
///   ends it with status 0 and the skip message, never publishing;
///   `Conflict` ends it with status 1 and the conflict message, never
///   publishing; only `Publish` runs the publishing command.
/// - A successful publish ends the run with status 0, echoing the
///   command's output; a failed one with status 1 and its standard error.
pub open spec fn spec_step(pre: EngineView, event: EventView) -> (EngineView, ActionView)
    recommends
        expects(pre.phase, event),
{
    match (pre.phase, event) {
        (PhaseView::Packaging, EventView::PackagingResult(r)) => {
            if r.ok {
                (
                    with_phase(pre, PhaseView::LocatingArtifact),
                    ActionView::CheckArtifact {
                        path: spec_artifact_path(pre.package.name, pre.package.version),
                    },
                )
            } else {
                finished(
                    pre,
                    1,
                    spec_describe(RunErrorView::PackagingFailure { cause: r.stderr }),
                )
            }
        },
        (PhaseView::LocatingArtifact, EventView::ArtifactPresence(present)) => {
            if present {
                (
                    with_phase(pre, PhaseView::Hashing),
                    ActionView::ComputeChecksum {
                        path: spec_artifact_path(pre.package.name, pre.package.version),
                    },
                )
            } else {
                finished(
                    pre,
                    1,
                    spec_missing_artifact_message(
                        spec_artifact_path(pre.package.name, pre.package.version),
                    ),
                )
            }
        },
        (PhaseView::Hashing, EventView::ArtifactChecksum(c)) => {
            (
                with_phase(pre, PhaseView::Querying { local_checksum: c }),
                ActionView::QueryRegistry { url: spec_registry_url(pre.package.name) },
            )
        },
        (PhaseView::Querying { local_checksum }, EventView::RegistryResponse(resp)) => {
            match spec_registry_outcome(resp) {
                Err(e) => finished(pre, 1, spec_describe(e)),
                Ok(outcome) => match spec_decide(pre.package.version, local_checksum, outcome) {
                    Err(e) => finished(pre, 1, spec_describe(e)),
                    Ok(DecisionView::Skip) => finished(
                        pre,
                        0,
                        spec_skip_message(pre.package.version),
                    ),
                    Ok(DecisionView::Publish) => (
                        with_phase(pre, PhaseView::Publishing),
                        ActionView::RunPublish {
                            command: spec_publish_command(
                                Some(pre.package.name),
                                pre.publish_args,
                            ),
                        },
                    ),
                    Ok(DecisionView::Conflict { remote_checksum }) => finished(
                        pre,
                        1,
                        spec_describe(
                            RunErrorView::ChecksumConflict {
                                declared_version: pre.package.version,
                                local_checksum,
                                remote_checksum,
                                manifest_path: pre.manifest_path,
                            },
                        ),
                    ),
                },
            }
        },
        (PhaseView::Publishing, EventView::PublishResult(r)) => {
            if r.ok {
                finished(pre, 0, r.stdout)
            } else {
                finished(
                    pre,
                    1,
                    spec_describe(RunErrorView::PublishingFailure { cause: r.stderr }),
                )
            }
        },
        _ => (pre, ActionView::Finish { exit_code: 1, message: Seq::empty() }),
    }
}

/// The engine never overwrites: whatever the phase and event, the
/// publishing command is requested only where the registry's response was
/// classified without error and the decision for it was `Publish`. In
/// particular a `Skip` or a `Conflict` never leads to a publish action.
pub proof fn lemma_publish_action_needs_publish_decision(pre: EngineView, event: EventView)
    requires
        expects(pre.phase, event),
    ensures
        (spec_step(pre, event).1 matches ActionView::RunPublish { .. }) ==> ({
            &&& pre.phase matches PhaseView::Querying { local_checksum }
            &&& event matches EventView::RegistryResponse(resp)
            &&& spec_registry_outcome(resp) matches Ok(outcome)
            &&& spec_decide(pre.package.version, local_checksum, outcome) == Ok::<
                DecisionView,
                RunErrorView,
            >(DecisionView::Publish)
        }),
{
}

impl Engine {
    /// Begins a run for `package`, read from the manifest at
    /// `manifest_path`: the first action is the packaging command with
    /// the caller's extra packaging arguments; the extra publishing
    /// arguments are kept for the publish action.
    pub fn start(
        package: CargoTomlPackage,
        manifest_path: String,
        package_args: Option<String>,
        publish_args: Option<String>,
    ) -> (r: (Engine, Action))
        ensures
            r.0@ == (EngineView {
                package: package@,
                manifest_path: manifest_path@,
                publish_args: publish_args.deep_view(),
                phase: PhaseView::Packaging,
            }),
            r.1@ == (ActionView::RunPackaging {
                command: spec_package_command(Some(package@.name), package_args.deep_view()),
            }),
    {
        let command = package_command(Some(package.name.as_str()), option_as_str(&package_args));
        (
            Engine { package, manifest_path, publish_args, phase: Phase::Packaging },
            Action::RunPackaging { command },
        )
    }

    /// Consumes one event and yields the next state and action, exactly
    /// as `spec_step` of the abstract values.
    pub fn step(self, event: Event) -> (r: (Engine, Action))
        requires
            expects(self@.phase, event@),
        ensures
            r.0@ == spec_step(self@, event@).0,
            r.1@ == spec_step(self@, event@).1,
    {
        let Engine { package, manifest_path, publish_args, phase } = self;
        match (phase, event) {
            (Phase::Packaging, Event::PackagingResult(r)) => {
                if r.ok {
                    let path = artifact_path(package.name.as_str(), package.version.as_str());
                    (
                        Engine {
                            package,
                            manifest_path,
                            publish_args,
                            phase: Phase::LocatingArtifact,
                        },
                        Action::CheckArtifact { path },
                    )
                } else {
                    let message = RunError::PackagingFailure { cause: r.stderr }.describe();
                    (
                        Engine {
                            package,
                            manifest_path,
                            publish_args,
                            phase: Phase::Done { exit_code: 1 },
                        },
                        Action::Finish { exit_code: 1, message },
                    )
                }
            },
            (Phase::LocatingArtifact, Event::ArtifactPresence(present)) => {
                let path = artifact_path(package.name.as_str(), package.version.as_str());
                if present {
                    (
                        Engine { package, manifest_path, publish_args, phase: Phase::Hashing },
                        Action::ComputeChecksum { path },
                    )
                } else {
                    let message = concat2("crate file does not exists: ", path.as_str());
                    (
                        Engine {
                            package,
                            manifest_path,
                            publish_args,
                            phase: Phase::Done { exit_code: 1 },
                        },
                        Action::Finish { exit_code: 1, message },
                    )
                }
            },
            (Phase::Hashing, Event::ArtifactChecksum(c)) => {
                let url = registry_url(package.name.as_str());
                (
                    Engine {
                        package,
                        manifest_path,
                        publish_args,
                        phase: Phase::Querying { local_checksum: c },
                    },
                    Action::QueryRegistry { url },
                )
            },
            (Phase::Querying { local_checksum }, Event::RegistryResponse(resp)) => {
                match registry_outcome(resp) {
                    Err(e) => {
                        let message = e.describe();
                        (
                            Engine {
                                package,
                                manifest_path,
                                publish_args,
                                phase: Phase::Done { exit_code: 1 },
                            },
                            Action::Finish { exit_code: 1, message },
                        )
                    },
                    Ok(outcome) => match decide(&package.version, &local_checksum, &outcome) {
                        Err(e) => {
                            let message = e.describe();
                            (
                                Engine {
                                    package,
                                    manifest_path,
                                    publish_args,
                                    phase: Phase::Done { exit_code: 1 },
                                },
                                Action::Finish { exit_code: 1, message },
                            )
                        },
                        Ok(Decision::Skip) => {
                            let message = skip_message(package.version.as_str());
                            (
                                Engine {
                                    package,
                                    manifest_path,
                                    publish_args,
                                    phase: Phase::Done { exit_code: 0 },
                                },
                                Action::Finish { exit_code: 0, message },
                            )
                        },
                        Ok(Decision::Publish) => {
                            let command = publish_command(
                                Some(package.name.as_str()),
                                option_as_str(&publish_args),
                            );
                            (
                                Engine {
                                    package,
                                    manifest_path,
                                    publish_args,
                                    phase: Phase::Publishing,
                                },
                                Action::RunPublish { command },
                            )
                        },
                        Ok(Decision::Conflict { remote_checksum }) => {
                            let message = RunError::ChecksumConflict {
                                declared_version: package.version.clone(),
                                local_checksum,
                                remote_checksum,
                                manifest_path: manifest_path.clone(),
                            }.describe();
                            (
                                Engine {
                                    package,
                                    manifest_path,
                                    publish_args,
                                    phase: Phase::Done { exit_code: 1 },
                                },
                                Action::Finish { exit_code: 1, message },
                            )
                        },
                    },
                }
            },
            (Phase::Publishing, Event::PublishResult(r)) => {
                if r.ok {
                    (
                        Engine {
                            package,
                            manifest_path,
                            publish_args,
                            phase: Phase::Done { exit_code: 0 },
                        },
                        Action::Finish { exit_code: 0, message: r.stdout },
                    )
                } else {
                    let message = RunError::PublishingFailure { cause: r.stderr }.describe();
                    (
                        Engine {
                            package,
                            manifest_path,
                            publish_args,
                            phase: Phase::Done { exit_code: 1 },
                        },
                        Action::Finish { exit_code: 1, message },
                    )
                }
            },
            (other_phase, _) => {
                (
                    Engine { package, manifest_path, publish_args, phase: other_phase },
                    Action::Finish { exit_code: 1, message: String::new() },
                )
            },
        }
    }
}

} // verus!
