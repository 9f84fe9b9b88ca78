use jellysetup::flash::{FlashAction, FlashError, FlashEvent, FlashManager};
use jellysetup::install::ServiceId;
use jellysetup::service_config::{
    config_command, read_init, read_probe, ConfigAction, ConfigCommand, ConfigError, ConfigEvent,
    ConfigParams, ConfigStage, ServiceConfig, INIT_PART_0, REGISTER_PART_0,
};
use jellysetup::transfer::write_outcome;

fn params() -> ConfigParams {
    ConfigParams {
        admin_user: "admin".to_string(),
        admin_password: "pa'ss".to_string(),
        admin_email: "a@b.c".to_string(),
        radarr_api_key: "RK".to_string(),
        sonarr_api_key: "SK".to_string(),
    }
}

#[test]
fn jellyseerr_full_sequence() {
    let (mut s, a) = ServiceConfig::start(ServiceId::Jellyseerr);
    assert_eq!(a, ConfigAction::Send(ConfigCommand::Cleanup));
    assert_eq!(s.step(ConfigEvent::Finished(true)), ConfigAction::Send(ConfigCommand::Probe));
    let waiting = read_probe(ServiceId::Jellyseerr, "Up 2 seconds\n@@API@@\nAPI_ERROR\n");
    assert_eq!(waiting, ConfigEvent::Probed { crashed: false, ready: false });
    assert_eq!(s.step(waiting), ConfigAction::SendAfter(ConfigCommand::Probe, 5));
    let ready = read_probe(ServiceId::Jellyseerr, "Up 9 seconds\n@@API@@\n{\"version\":\"1.9\"}");
    assert_eq!(s.step(ready), ConfigAction::Send(ConfigCommand::Initialize));
    assert_eq!(s.step(read_init(true, "✅ Authenticated successfully")), ConfigAction::Send(ConfigCommand::Register));
    assert_eq!(s.step(ConfigEvent::Finished(true)), ConfigAction::Finish);
    assert_eq!(s.stage, ConfigStage::Done);
}

#[test]
fn auth_failure_and_crash_are_fatal_for_the_service() {
    let (mut s, _) = ServiceConfig::start(ServiceId::Jellyseerr);
    s.step(ConfigEvent::Finished(true));
    s.step(ConfigEvent::Probed { crashed: false, ready: true });
    assert_eq!(s.step(read_init(true, "❌ Authentication failed: {}")), ConfigAction::Fail(ConfigError::AuthFailed));
    let (mut s, _) = ServiceConfig::start(ServiceId::Radarr);
    s.step(ConfigEvent::Finished(true));
    assert_eq!(s.step(read_probe(ServiceId::Radarr, "Exited (1) 2 seconds ago\n@@API@@\nAPI_ERROR")), ConfigAction::Fail(ConfigError::Crashed));
    assert_eq!(read_probe(ServiceId::Radarr, "no separator"), ConfigEvent::Probed { crashed: false, ready: false });
    let (mut s, _) = ServiceConfig::start(ServiceId::Sonarr);
    assert_eq!(s.step(ConfigEvent::Finished(false)), ConfigAction::Fail(ConfigError::CleanupFailed));
}

#[test]
fn other_services_finish_after_ready_probe() {
    for id in [ServiceId::Radarr, ServiceId::Sonarr, ServiceId::Prowlarr, ServiceId::Jellyfin] {
        let (mut s, _) = ServiceConfig::start(id);
        s.step(ConfigEvent::Finished(true));
        assert_eq!(s.step(ConfigEvent::Probed { crashed: false, ready: true }), ConfigAction::Finish);
    }
}

#[test]
fn readiness_ceiling() {
    let (mut s, _) = ServiceConfig::start(ServiceId::Prowlarr);
    s.step(ConfigEvent::Finished(true));
    let mut last = ConfigAction::Finish;
    let mut probes = 0;
    loop {
        probes += 1;
        last = s.step(ConfigEvent::Probed { crashed: false, ready: false });
        if !matches!(last, ConfigAction::SendAfter(_, _)) {
            break;
        }
    }
    assert_eq!(probes, 24);
    assert_eq!(last, ConfigAction::Fail(ConfigError::NotReady));
}

#[test]
fn commands_embed_parameters() {
    let p = params();
    let init = config_command(ServiceId::Jellyseerr, ConfigCommand::Initialize, &p);
    assert!(init.starts_with(INIT_PART_0));
    assert!(init.contains("\"username\": \"admin\""));
    assert!(init.contains("\"password\": \"pa'\\''ss\""));
    assert!(init.contains("\"email\": \"a@b.c\""));
    let reg = config_command(ServiceId::Jellyseerr, ConfigCommand::Register, &p);
    assert!(reg.starts_with(REGISTER_PART_0));
    assert!(reg.contains("\"apiKey\": \"RK\""));
    assert!(reg.contains("\"apiKey\": \"SK\""));
    let probe = config_command(ServiceId::Radarr, ConfigCommand::Probe, &p);
    assert!(probe.starts_with("docker ps -a --filter name=radarr --format '{{.Status}}' 2>/dev/null; echo '@@API@@'; curl -s 'http://localhost:7878/api/v3/system/status'"));
    let clean = config_command(ServiceId::Prowlarr, ConfigCommand::Cleanup, &p);
    assert!(clean.contains("docker compose stop prowlarr"));
    assert!(config_command(ServiceId::Jellyfin, ConfigCommand::Cleanup, &p).contains("docker compose restart jellyfin"));
}

#[test]
fn write_outcomes() {
    assert_eq!(write_outcome(true, "100 bytes transferred in 1 secs"), FlashEvent::StepDone);
    assert_eq!(write_outcome(false, "dd: /dev/rdisk4: Operation not permitted"), FlashEvent::AccessDenied);
    assert_eq!(write_outcome(false, "Permission denied"), FlashEvent::AccessDenied);
    assert_eq!(write_outcome(false, "something else"), FlashEvent::StepFailed);
    assert_eq!(write_outcome(true, ""), FlashEvent::StepDone);
    let mut m = FlashManager::new();
    m.begin("/dev/rdisk4").unwrap();
    for e in [
        FlashEvent::DeviceSize(16 * (1 << 30)),
        FlashEvent::ImageResolved { cached: true, extracted: true },
        FlashEvent::DeviceSize(16 * (1 << 30)),
        FlashEvent::StepDone,
    ] {
        m.advance(e);
    }
    let step = m.advance(FlashEvent::AccessDenied);
    assert_eq!(step.action, FlashAction::Abort(FlashError::DiskAccessDenied));
    assert!(FlashError::DiskAccessDenied.message().contains("Accès complet au disque"));
    assert!(FlashError::Safety(jellysetup::safety::SafetyViolation::TooLarge).message().starts_with("SECURITE"));
}
