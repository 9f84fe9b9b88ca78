use jellysetup::install::ServiceId;
use jellysetup::json::JsonValue;
use jellysetup::services::{container_crashed, service_api_key};
use jellysetup::store::SchemaRegistry;

fn s(t: &str) -> String {
    t.to_string()
}

fn entry(key: &str) -> JsonValue {
    JsonValue::Object(vec![(s("apiKey"), JsonValue::Str(s(key)))])
}

#[test]
fn api_keys_read_from_resolved_config() {
    let config = JsonValue::Object(vec![
        (s("radarr"), JsonValue::Array(vec![entry("rk1"), entry("rk2")])),
        (s("sonarr"), JsonValue::Array(vec![])),
        (s("radarr"), JsonValue::Array(vec![entry("shadowed")])),
    ]);
    assert_eq!(service_api_key(&config, "radarr"), "rk1");
    assert_eq!(service_api_key(&config, "sonarr"), "");
    assert_eq!(service_api_key(&config, "prowlarr"), "");
    assert_eq!(service_api_key(&JsonValue::Null, "radarr"), "");
}

#[test]
fn readiness_answers() {
    assert!(ServiceId::Radarr.is_ready("{\"instanceName\": \"Radarr\"}"));
    assert!(ServiceId::Sonarr.is_ready("{\"version\": \"4.0\"}"));
    assert!(!ServiceId::Prowlarr.is_ready("API_ERROR"));
    assert!(ServiceId::Jellyseerr.is_ready("{\"initialized\":true}"));
    assert!(ServiceId::Jellyseerr.is_ready("API_ERROR!!!"));
    assert!(!ServiceId::Jellyseerr.is_ready("API_ERROR"));
    assert_eq!(ServiceId::Jellyseerr.readiness_attempts(), 36);
    assert_eq!(ServiceId::Radarr.readiness_attempts(), 24);
    assert_eq!(ServiceId::Jellyfin.port(), 8096);
    assert_eq!(ServiceId::Prowlarr.name(), "prowlarr");
}

#[test]
fn crashed_containers() {
    assert!(container_crashed("Exited (1) 3 seconds ago"));
    assert!(container_crashed("Dead"));
    assert!(!container_crashed("Up 5 minutes"));
}

#[test]
fn schemas_initialized_once() {
    let mut reg = SchemaRegistry::new();
    assert!(!reg.contains("jelly_pi"));
    assert!(reg.begin_init("jelly_pi"));
    assert!(reg.contains("jelly_pi"));
    assert!(!reg.begin_init("jelly_pi"));
    assert!(reg.begin_init("other"));
}
