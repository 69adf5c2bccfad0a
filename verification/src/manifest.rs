//! The package descriptor: reading a package's name and declared version
//! out of its manifest text. The parse itself is the toml crate's work,
//! behind one trusted wrapper; everything around it is verified.
use vstd::prelude::*;

use crate::errors::RunError;
use crate::errors::RunErrorView;
use vstd::string::StringExecFns;

verus! {

/// The `package` section of a manifest: its name and declared version.
#[derive(Debug, Clone)]
pub struct CargoTomlPackage {
    pub name: String,
    pub version: String,
}

/// The abstract value of a `CargoTomlPackage`.
pub struct CargoTomlPackageView {
    pub name: Seq<char>,
    pub version: Seq<char>,
}

impl View for CargoTomlPackage {
    type V = CargoTomlPackageView;

    open spec fn view(&self) -> CargoTomlPackageView {
        CargoTomlPackageView { name: self.name@, version: self.version@ }
    }
}

/// A manifest, reduced to the fields the engine reads.
#[derive(Debug, Clone)]
pub struct CargoToml {
    pub package: CargoTomlPackage,
}

impl View for CargoToml {
    type V = CargoTomlPackageView;

    open spec fn view(&self) -> CargoTomlPackageView {
        self.package@
    }
}

/// What the toml parse yields for a manifest text: the `package.name` and
/// `package.version` strings, in that order, where the text is a toml
/// document holding both, and nothing otherwise. A function of the text
/// alone.
pub uninterp spec fn manifest_package_of(text: Seq<char>) -> Option<(Seq<char>, Seq<char>)>;

/// Relies on the toml crate: `str::parse::<toml::Table>` for the parse, and
/// `Map::get`, `Value::as_table`, `Value::as_str` for reading the fixed path
/// `package.name` / `package.version` out of the parsed document. The result
/// depends on the text alone.
#[verifier::external_body]
fn parse_manifest_package(text: &str) -> (r: Option<CargoTomlPackage>)
    ensures
        r is Some <==> manifest_package_of(text@) is Some,
        r matches Some(p) ==> manifest_package_of(text@) == Some((p.name@, p.version@)),
{
    let table: toml::Table = text.parse().ok()?;
    let package = table.get("package")?.as_table()?;
    let name = package.get("name")?.as_str()?.to_string();
    let version = package.get("version")?.as_str()?.to_string();
    Some(CargoTomlPackage { name, version })
}

impl CargoToml {
    /// Reads a manifest out of its text. Returns the manifest exactly when
    /// the text declares `package.name` and `package.version`, and a
    /// `ManifestError` otherwise.
    pub fn from(text: &str) -> (r: Result<CargoToml, RunError>)
        ensures
            r is Ok <==> manifest_package_of(text@) is Some,
            r matches Ok(m) ==> manifest_package_of(text@) == Some((m@.name, m@.version)),
            r matches Err(e) ==> e@ == (RunErrorView::ManifestError {
                cause: "the manifest lacks package.name or package.version"@,
            }),
    {
        match parse_manifest_package(text) {
            Some(package) => Ok(CargoToml { package }),
            None => Err(
                RunError::ManifestError {
                    cause: String::from_str(
                        "the manifest lacks package.name or package.version",
                    ),
                },
            ),
        }
    }
}

} // verus!
