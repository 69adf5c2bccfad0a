//! A checksum-aware publish guard: before a package release, it decides
//! whether publishing is necessary (the registry does not know the
//! declared version), redundant (the same content is already there), or
//! dangerous (the version is there with different content), and never
//! overwrites. The decision logic, the command lines, the artifact path
//! and checksum, the registry-response classification and every
//! user-visible message are verified; spawning processes and moving bytes
//! are a caller's concern, driven through `engine::Engine`.
pub mod artifact;
pub mod command;
pub mod decision;
pub mod engine;
pub mod errors;
pub mod manifest;
pub mod messages;
pub mod registry;
pub mod text;

pub use artifact::LocalArtifact;
pub use command::CommandResult;
pub use decision::Decision;
pub use decision::decide;
pub use engine::Action;
pub use engine::Engine;
pub use engine::Event;
pub use errors::RunError;
pub use manifest::CargoToml;
pub use manifest::CargoTomlPackage;
pub use registry::RegistryQueryOutcome;
pub use registry::RemoteVersionEntry;
