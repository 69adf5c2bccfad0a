//! The packaging and publishing command lines, and what their outcomes
//! mean. Spawning is a caller's concern: the engine only builds the
//! command text and classifies the captured result.
use vstd::prelude::*;

use crate::text::concat2;
use crate::text::concat3;
use crate::text::spec_trim;
use crate::text::trim_spaces;
use vstd::string::StringExecFns;

verus! {

/// The captured outcome of one external command: whether it succeeded,
/// its exit code, and its captured output streams.
#[derive(Debug, Clone)]
pub struct CommandResult {
    pub ok: bool,
    pub exit_code: i32,
    pub stdout: String,
    pub stderr: String,
}

/// The abstract value of a `CommandResult`.
pub struct CommandResultView {
    pub ok: bool,
    pub exit_code: int,
    pub stdout: Seq<char>,
    pub stderr: Seq<char>,
}

impl View for CommandResult {
    type V = CommandResultView;

    open spec fn view(&self) -> CommandResultView {
        CommandResultView {
            ok: self.ok,
            exit_code: self.exit_code as int,
            stdout: self.stdout@,
            stderr: self.stderr@,
        }
    }
}

/// The command line that packages the crate, with the optional package
/// name and the caller's extra arguments appended verbatim.
pub open spec fn spec_package_command(
    package: Option<Seq<char>>,
    args: Option<Seq<char>>,
) -> Seq<char> {
    let base = match package {
        Some(p) => "cargo package -p "@ + p,
        None => "cargo package"@,
    };
    match args {
        Some(a) => base + " "@ + a,
        None => base,
    }
}

/// The command line that publishes the crate.
pub open spec fn spec_publish_command(
    package: Option<Seq<char>>,
    args: Option<Seq<char>>,
) -> Seq<char> {
    let base = match package {
        Some(p) => "cargo publish -p "@ + p,
        None => "cargo publish"@,
    };
    match args {
        Some(a) => base + " "@ + a,
        None => base,
    }
}

/// Builds the packaging command line.
pub fn package_command(package: Option<&str>, args: Option<&str>) -> (r: String)
    ensures
        r@ == spec_package_command(package.deep_view(), args.deep_view()),
{
    let base = match package {
        Some(p) => concat2("cargo package -p ", p),
        None => String::from_str("cargo package"),
    };
    match args {
        Some(a) => {
            let r = concat3(base.as_str(), " ", a);
            proof {
                assert(r@ =~= spec_package_command(package.deep_view(), args.deep_view()));
            }
            r
        },
        None => base,
    }
}

/// Builds the publishing command line.
pub fn publish_command(package: Option<&str>, args: Option<&str>) -> (r: String)
    ensures
        r@ == spec_publish_command(package.deep_view(), args.deep_view()),
{
    let base = match package {
        Some(p) => concat2("cargo publish -p ", p),
        None => String::from_str("cargo publish"),
    };
    match args {
        Some(a) => {
            let r = concat3(base.as_str(), " ", a);
            proof {
                assert(r@ =~= spec_publish_command(package.deep_view(), args.deep_view()));
            }
            r
        },
        None => base,
    }
}

/// Borrows an optional argument string for a command builder.
pub fn option_as_str(o: &Option<String>) -> (r: Option<&str>)
    ensures
        r.deep_view() == o.deep_view(),
{
    match o {
        Some(s) => Some(s.as_str()),
        None => None,
    }
}

/// The command line that reports the local tool version.
pub fn version_command() -> (r: String)
    ensures
        r@ == "cargo version"@,
{
    String::from_str("cargo version")
}

/// What a captured command outcome means: its standard output on
/// success, its standard error as the cause otherwise.
pub fn command_output(r: CommandResult) -> (out: Result<String, String>)
    ensures
        r.ok ==> out == Ok::<String, String>(r.stdout),
        !r.ok ==> out == Err::<String, String>(r.stderr),
{
    if r.ok {
        Ok(r.stdout)
    } else {
        Err(r.stderr)
    }
}

/// The identifier sent with a registry query when the version lookup
/// fails: a fixed, well-formed fallback.
pub open spec fn spec_fallback_identifier() -> Seq<char> {
    "cargo 1.82.0 (8f40fc59f 2024-08-21)"@
}

/// The client identifier for a registry query, from the outcome of the
/// local tool-version lookup: the looked-up text trimmed on success, and
/// the fixed fallback on failure. This is the one degraded continuation:
/// a failed lookup never aborts the run.
pub open spec fn spec_client_identifier(lookup: Result<Seq<char>, Seq<char>>) -> Seq<char> {
    match lookup {
        Ok(s) => spec_trim(s),
        Err(_) => spec_fallback_identifier(),
    }
}

/// The abstract value of a version lookup's outcome.
pub open spec fn lookup_view(lookup: Result<String, String>) -> Result<Seq<char>, Seq<char>> {
    match lookup {
        Ok(s) => Ok(s@),
        Err(e) => Err(e@),
    }
}

/// Derives the client identifier from the version lookup's outcome.
pub fn client_identifier(lookup: &Result<String, String>) -> (r: String)
    ensures
        r@ == spec_client_identifier(lookup_view(*lookup)),
{
    match lookup {
        Ok(s) => trim_spaces(s.as_str()),
        Err(_) => String::from_str("cargo 1.82.0 (8f40fc59f 2024-08-21)"),
    }
}

} // verus!
