use cargo_caw_publish::artifact::LocalArtifact;
use cargo_caw_publish::artifact::artifact_checksum;
use cargo_caw_publish::artifact::artifact_path;
use cargo_caw_publish::command::CommandResult;
use cargo_caw_publish::command::client_identifier;
use cargo_caw_publish::command::command_output;
use cargo_caw_publish::command::package_command;
use cargo_caw_publish::command::publish_command;
use cargo_caw_publish::command::version_command;
use cargo_caw_publish::errors::RunError;
use cargo_caw_publish::manifest::CargoToml;
use cargo_caw_publish::messages::conflict_message;
use cargo_caw_publish::messages::skip_message;
use cargo_caw_publish::registry::RegistryQueryOutcome;
use cargo_caw_publish::registry::registry_outcome;
use cargo_caw_publish::registry::registry_url;
use cargo_caw_publish::text::trim_spaces;
use cargo_caw_publish::text::u16_decimal;

#[test]
fn package_command_forms() {
    assert_eq!(package_command(None, None), "cargo package");
    assert_eq!(package_command(Some("demo"), None), "cargo package -p demo");
    assert_eq!(
        package_command(Some("demo"), Some("--allow-dirty --keep-going")),
        "cargo package -p demo --allow-dirty --keep-going"
    );
    assert_eq!(package_command(None, Some("--quiet")), "cargo package --quiet");
}

#[test]
fn publish_command_forms() {
    assert_eq!(publish_command(None, None), "cargo publish");
    assert_eq!(publish_command(Some("demo"), None), "cargo publish -p demo");
    assert_eq!(
        publish_command(Some("demo"), Some("--all-features")),
        "cargo publish -p demo --all-features"
    );
}

#[test]
fn version_command_text() {
    assert_eq!(version_command(), "cargo version");
}

#[test]
fn command_output_splits_on_success() {
    let ok = CommandResult {
        ok: true,
        exit_code: 0,
        stdout: "out".to_string(),
        stderr: "noise".to_string(),
    };
    assert_eq!(command_output(ok), Ok("out".to_string()));
    let failed = CommandResult {
        ok: false,
        exit_code: 101,
        stdout: "out".to_string(),
        stderr: "cause".to_string(),
    };
    assert_eq!(command_output(failed), Err("cause".to_string()));
}

#[test]
fn client_identifier_trims_the_lookup() {
    let looked_up = Ok("cargo 1.83.0 (5ffbef321 2024-10-29)\n".to_string());
    assert_eq!(client_identifier(&looked_up), "cargo 1.83.0 (5ffbef321 2024-10-29)");
}

#[test]
fn client_identifier_falls_back_on_failure() {
    let failed = Err("no cargo on the path".to_string());
    assert_eq!(client_identifier(&failed), "cargo 1.82.0 (8f40fc59f 2024-08-21)");
}

#[test]
fn trim_spaces_edges() {
    assert_eq!(trim_spaces("  \t a b \r\n"), "a b");
    assert_eq!(trim_spaces("   \n\t "), "");
    assert_eq!(trim_spaces(""), "");
    assert_eq!(trim_spaces("ab"), "ab");
}

#[test]
fn decimal_rendering() {
    assert_eq!(u16_decimal(0), "0");
    assert_eq!(u16_decimal(7), "7");
    assert_eq!(u16_decimal(500), "500");
    assert_eq!(u16_decimal(65535), "65535");
}

#[test]
fn artifact_path_is_derived_from_name_and_version() {
    assert_eq!(artifact_path("demo", "1.2.3"), "./target/package/demo-1.2.3.crate");
}

#[test]
fn artifact_checksum_is_the_sha256_hex_digest() {
    let bytes: Vec<u8> = vec![b'a', b'b', b'c'];
    assert_eq!(
        artifact_checksum(&bytes),
        "ba7816bf8f01cfea414140de5dae2223b00361a396177a9cb410ff61f20015ad"
    );
}

#[test]
fn local_artifact_holds_path_and_checksum() {
    let bytes: Vec<u8> = vec![b'a', b'b', b'c'];
    let artifact = LocalArtifact::new("demo", "1.2.3", &bytes);
    assert_eq!(artifact.path, "./target/package/demo-1.2.3.crate");
    assert_eq!(
        artifact.content_checksum,
        "ba7816bf8f01cfea414140de5dae2223b00361a396177a9cb410ff61f20015ad"
    );
}

#[test]
fn registry_url_for_a_package() {
    assert_eq!(registry_url("demo"), "https://crates.io/api/v1/crates/demo");
}

#[test]
fn manifest_with_both_fields_is_read() {
    let text = "[package]\nname = \"demo\"\nversion = \"1.2.3\"\nedition = \"2021\"\n";
    let m = CargoToml::from(text).unwrap();
    assert_eq!(m.package.name, "demo");
    assert_eq!(m.package.version, "1.2.3");
}

#[test]
fn manifest_without_version_is_refused() {
    let text = "[package]\nname = \"demo\"\n";
    match CargoToml::from(text) {
        Err(e @ RunError::ManifestError { .. }) => {
            assert_eq!(
                e.describe(),
                "err while loading crate's toml: the manifest lacks package.name or package.version"
            );
        }
        _ => panic!("expected a manifest error"),
    }
}

#[test]
fn manifest_that_is_no_toml_is_refused() {
    assert!(CargoToml::from("not = toml = at all").is_err());
}

#[test]
fn registry_outcome_classification() {
    match registry_outcome(Ok((404, String::new()))) {
        Ok(RegistryQueryOutcome::NotFound) => {}
        _ => panic!("a 404 means the package is unknown, not an error"),
    }
    match registry_outcome(Ok((500, String::new()))) {
        Ok(RegistryQueryOutcome::UnexpectedStatus(500)) => {}
        _ => panic!("expected the unexpected-status outcome"),
    }
    match registry_outcome(Err("timed out".to_string())) {
        Ok(RegistryQueryOutcome::TransportError(cause)) => assert_eq!(cause, "timed out"),
        _ => panic!("expected the transport-error outcome"),
    }
}

#[test]
fn registry_outcome_decodes_a_versions_listing() {
    let body = r#"{"crate":{"name":"demo"},"versions":[{"num":"1.2.3","checksum":"abc123","yanked":false},{"num":"1.0.0","checksum":"zzz"}]}"#
        .to_string();
    match registry_outcome(Ok((200, body))) {
        Ok(RegistryQueryOutcome::Found(entries)) => {
            assert_eq!(entries.len(), 2);
            assert_eq!(entries[0].version, "1.2.3");
            assert_eq!(entries[0].checksum, "abc123");
            assert_eq!(entries[1].version, "1.0.0");
            assert_eq!(entries[1].checksum, "zzz");
        }
        _ => panic!("expected the catalog"),
    }
}

#[test]
fn registry_outcome_refuses_an_undecodable_body() {
    match registry_outcome(Ok((200, "{\"versions\": 5}".to_string()))) {
        Err(e @ RunError::RegistryProtocolError { .. }) => {
            assert_eq!(
                e.describe(),
                "remote registry err: could not decode the versions listing in the response body"
            );
        }
        _ => panic!("an undecodable success body must not pass for not-found"),
    }
    assert!(registry_outcome(Ok((200, String::new()))).is_err());
}

#[test]
fn skip_message_text() {
    assert_eq!(
        skip_message("1.2.3"),
        "the version 1.2.3 is already published at the remote registry. nothing to do here."
    );
}

#[test]
fn conflict_message_carries_everything() {
    let m = conflict_message("1.2.3", "def456", "abc123", "demo/Cargo.toml");
    assert!(m.contains("1.2.3"));
    assert!(m.contains("local : def456"));
    assert!(m.contains("remote: abc123"));
    assert!(m.contains("maybe you forgot to update the version at demo/Cargo.toml!?"));
}

#[test]
fn every_error_kind_describes_itself() {
    let manifest = RunError::ManifestError { cause: "bad".to_string() };
    assert_eq!(manifest.describe(), "err while loading crate's toml: bad");
    let packaging = RunError::PackagingFailure { cause: "boom".to_string() };
    assert_eq!(packaging.describe(), "exec cargo package: boom");
    let transport = RunError::RegistryTransportError { cause: "down".to_string() };
    assert_eq!(
        transport.describe(),
        "err while attempting to connect to remote registry: down"
    );
    let protocol = RunError::RegistryProtocolError { detail: "odd".to_string() };
    assert_eq!(protocol.describe(), "remote registry err: odd");
    let publishing = RunError::PublishingFailure { cause: "denied".to_string() };
    assert_eq!(publishing.describe(), "exec cargo publish: denied");
    let conflict = RunError::ChecksumConflict {
        declared_version: "1.2.3".to_string(),
        local_checksum: "def456".to_string(),
        remote_checksum: "abc123".to_string(),
        manifest_path: "Cargo.toml".to_string(),
    };
    let text = conflict.describe();
    assert!(text.contains("def456") && text.contains("abc123") && text.contains("1.2.3"));
}
