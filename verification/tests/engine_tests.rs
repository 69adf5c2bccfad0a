use cargo_caw_publish::command::CommandResult;
use cargo_caw_publish::engine::Action;
use cargo_caw_publish::engine::Engine;
use cargo_caw_publish::engine::Event;
use cargo_caw_publish::manifest::CargoTomlPackage;

fn demo_package() -> CargoTomlPackage {
    CargoTomlPackage { name: "demo".to_string(), version: "1.2.3".to_string() }
}

fn ok_result(stdout: &str) -> CommandResult {
    CommandResult {
        ok: true,
        exit_code: 0,
        stdout: stdout.to_string(),
        stderr: String::new(),
    }
}

fn failed_result(stderr: &str) -> CommandResult {
    CommandResult {
        ok: false,
        exit_code: 101,
        stdout: String::new(),
        stderr: stderr.to_string(),
    }
}

/// Drives a started engine up to the registry query, with checksum `local`.
fn drive_to_query(local: &str) -> Engine {
    let (engine, action) = Engine::start(
        demo_package(),
        "Cargo.toml".to_string(),
        None,
        None,
    );
    match &action {
        Action::RunPackaging { command } => assert_eq!(command, "cargo package -p demo"),
        _ => panic!("expected the packaging action first"),
    }
    let (engine, action) = engine.step(Event::PackagingResult(ok_result("")));
    match &action {
        Action::CheckArtifact { path } => {
            assert_eq!(path, "./target/package/demo-1.2.3.crate");
        }
        _ => panic!("expected the artifact check"),
    }
    let (engine, action) = engine.step(Event::ArtifactPresence(true));
    match &action {
        Action::ComputeChecksum { path } => {
            assert_eq!(path, "./target/package/demo-1.2.3.crate");
        }
        _ => panic!("expected the checksum action"),
    }
    let (engine, action) = engine.step(Event::ArtifactChecksum(local.to_string()));
    match &action {
        Action::QueryRegistry { url } => {
            assert_eq!(url, "https://crates.io/api/v1/crates/demo");
        }
        _ => panic!("expected the registry query"),
    }
    engine
}

#[test]
fn scenario_not_found_publishes_and_exits_zero() {
    let engine = drive_to_query("abc123");
    let (engine, action) = engine.step(Event::RegistryResponse(Ok((404, String::new()))));
    match &action {
        Action::RunPublish { command } => assert_eq!(command, "cargo publish -p demo"),
        _ => panic!("expected the publish action"),
    }
    let (_, action) = engine.step(Event::PublishResult(ok_result("uploaded")));
    match action {
        Action::Finish { exit_code, message } => {
            assert_eq!(exit_code, 0);
            assert_eq!(message, "uploaded");
        }
        _ => panic!("expected the run to finish"),
    }
}

#[test]
fn scenario_same_checksum_skips_without_publishing() {
    let engine = drive_to_query("abc123");
    let body = r#"{"versions":[{"num":"1.2.3","checksum":"abc123"}]}"#.to_string();
    let (_, action) = engine.step(Event::RegistryResponse(Ok((200, body))));
    match action {
        Action::Finish { exit_code, message } => {
            assert_eq!(exit_code, 0);
            assert_eq!(
                message,
                "the version 1.2.3 is already published at the remote registry. nothing to do here."
            );
        }
        _ => panic!("the engine must finish without a publish action"),
    }
}

#[test]
fn scenario_differing_checksum_conflicts_and_exits_one() {
    let engine = drive_to_query("def456");
    let body = r#"{"versions":[{"num":"1.2.3","checksum":"abc123"}]}"#.to_string();
    let (_, action) = engine.step(Event::RegistryResponse(Ok((200, body))));
    match action {
        Action::Finish { exit_code, message } => {
            assert_eq!(exit_code, 1);
            assert!(message.contains("abc123"));
            assert!(message.contains("def456"));
            assert!(message.contains("1.2.3"));
            assert!(message.contains("Cargo.toml"));
        }
        _ => panic!("the engine must finish without a publish action"),
    }
}

#[test]
fn scenario_server_error_aborts_without_publishing() {
    let engine = drive_to_query("abc123");
    let (_, action) = engine.step(Event::RegistryResponse(Ok((500, String::new()))));
    match action {
        Action::Finish { exit_code, message } => {
            assert_eq!(exit_code, 1);
            assert_eq!(message, "remote registry err: unexpected status 500");
        }
        _ => panic!("the engine must finish without a publish action"),
    }
}

#[test]
fn scenario_packaging_failure_never_queries_the_registry() {
    let (engine, _) = Engine::start(
        demo_package(),
        "Cargo.toml".to_string(),
        None,
        None,
    );
    let (_, action) = engine.step(Event::PackagingResult(failed_result("boom")));
    match action {
        Action::Finish { exit_code, message } => {
            assert_eq!(exit_code, 1);
            assert_eq!(message, "exec cargo package: boom");
        }
        _ => panic!("the engine must finish without querying the registry"),
    }
}

#[test]
fn missing_artifact_is_fatal_and_distinct_from_packaging_failure() {
    let (engine, _) = Engine::start(
        demo_package(),
        "Cargo.toml".to_string(),
        None,
        None,
    );
    let (engine, _) = engine.step(Event::PackagingResult(ok_result("")));
    let (_, action) = engine.step(Event::ArtifactPresence(false));
    match action {
        Action::Finish { exit_code, message } => {
            assert_eq!(exit_code, 1);
            assert_eq!(
                message,
                "crate file does not exists: ./target/package/demo-1.2.3.crate"
            );
        }
        _ => panic!("the engine must finish on a missing artifact"),
    }
}

#[test]
fn transport_failure_aborts_with_its_cause() {
    let engine = drive_to_query("abc123");
    let (_, action) = engine.step(Event::RegistryResponse(Err("connection refused".to_string())));
    match action {
        Action::Finish { exit_code, message } => {
            assert_eq!(exit_code, 1);
            assert_eq!(
                message,
                "err while attempting to connect to remote registry: connection refused"
            );
        }
        _ => panic!("the engine must finish on a transport failure"),
    }
}

#[test]
fn undecodable_success_body_aborts_instead_of_publishing() {
    let engine = drive_to_query("abc123");
    let (_, action) = engine.step(Event::RegistryResponse(Ok((200, "not json".to_string()))));
    match action {
        Action::Finish { exit_code, message } => {
            assert_eq!(exit_code, 1);
            assert_eq!(
                message,
                "remote registry err: could not decode the versions listing in the response body"
            );
        }
        _ => panic!("the engine must finish on an undecodable body"),
    }
}

#[test]
fn declared_version_absent_from_catalog_publishes() {
    let engine = drive_to_query("abc123");
    let body = r#"{"versions":[{"num":"1.0.0","checksum":"zzz"}]}"#.to_string();
    let (engine, action) = engine.step(Event::RegistryResponse(Ok((200, body))));
    match &action {
        Action::RunPublish { command } => assert_eq!(command, "cargo publish -p demo"),
        _ => panic!("expected the publish action"),
    }
    let (_, action) = engine.step(Event::PublishResult(failed_result("denied")));
    match action {
        Action::Finish { exit_code, message } => {
            assert_eq!(exit_code, 1);
            assert_eq!(message, "exec cargo publish: denied");
        }
        _ => panic!("expected the run to finish"),
    }
}

#[test]
fn extra_arguments_are_forwarded_verbatim() {
    let (engine, action) = Engine::start(
        demo_package(),
        "demo/Cargo.toml".to_string(),
        Some("--allow-dirty --keep-going".to_string()),
        Some("--all-features".to_string()),
    );
    match &action {
        Action::RunPackaging { command } => {
            assert_eq!(command, "cargo package -p demo --allow-dirty --keep-going");
        }
        _ => panic!("expected the packaging action first"),
    }
    let (engine, _) = engine.step(Event::PackagingResult(ok_result("")));
    let (engine, _) = engine.step(Event::ArtifactPresence(true));
    let (engine, _) = engine.step(Event::ArtifactChecksum("abc".to_string()));
    let (_, action) = engine.step(Event::RegistryResponse(Ok((404, String::new()))));
    match &action {
        Action::RunPublish { command } => {
            assert_eq!(command, "cargo publish -p demo --all-features");
        }
        _ => panic!("expected the publish action"),
    }
}
