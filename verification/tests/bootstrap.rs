use sdkwork_settings::bootstrap::{bootstrap_next, listen_address, BootstrapEvent, BootstrapPhase};

#[test]
fn bootstrap_without_migration() {
    let mut phase = BootstrapPhase::ReadConfig;
    phase = bootstrap_next(phase, BootstrapEvent::Succeeded).unwrap();
    assert_eq!(phase, BootstrapPhase::CreatePool);
    phase = bootstrap_next(phase, BootstrapEvent::Succeeded).unwrap();
    assert_eq!(phase, BootstrapPhase::LoadModule);
    phase = bootstrap_next(phase, BootstrapEvent::Succeeded).unwrap();
    assert_eq!(phase, BootstrapPhase::ReadManifest);
    phase = bootstrap_next(phase, BootstrapEvent::ManifestRead { auto_migrate: false }).unwrap();
    assert_eq!(phase, BootstrapPhase::Init { auto_migrate: false });
    phase = bootstrap_next(phase, BootstrapEvent::Succeeded).unwrap();
    assert_eq!(phase, BootstrapPhase::Ready);
}

#[test]
fn bootstrap_with_migration() {
    let phase = bootstrap_next(BootstrapPhase::ReadManifest, BootstrapEvent::ManifestRead { auto_migrate: true }).unwrap();
    let phase = bootstrap_next(phase, BootstrapEvent::Succeeded).unwrap();
    assert_eq!(phase, BootstrapPhase::Migrate);
    assert_eq!(bootstrap_next(phase, BootstrapEvent::Succeeded).unwrap(), BootstrapPhase::Ready);
}

#[test]
fn bootstrap_failure_messages() {
    let cases = [
        (BootstrapPhase::ReadConfig, "read Settings database config failed: boom"),
        (BootstrapPhase::CreatePool, "create Settings database pool failed: boom"),
        (BootstrapPhase::LoadModule, "load Settings database module failed: boom"),
        (BootstrapPhase::ReadManifest, "read Settings database manifest failed: boom"),
        (BootstrapPhase::Init { auto_migrate: true }, "Settings database init failed: boom"),
        (BootstrapPhase::Migrate, "Settings database migrate failed: boom"),
    ];
    for (phase, expected) in cases {
        assert_eq!(bootstrap_next(phase, BootstrapEvent::Failed("boom".to_string())), Err(expected.to_string()));
    }
}

#[test]
fn listen_address_default_and_configured() {
    assert_eq!(listen_address(None), "0.0.0.0:8080");
    assert_eq!(listen_address(Some("127.0.0.1:9000".to_string())), "127.0.0.1:9000");
    assert_eq!(listen_address(Some(String::new())), "");
}
