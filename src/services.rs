//! Per-service post-configuration: one generic description of each managed
//! service (its control API probe and readiness test), crash detection, and
//! the API keys exchanged between services.

use vstd::prelude::*;
use crate::install::ServiceId;
use crate::json::{member, JsonValue};
use crate::text::{contains_seq, contains_text};

verus! {

/// The service's name in the topology.
pub open spec fn service_name(s: ServiceId) -> Seq<char> {
    match s {
        ServiceId::Jellyseerr => "jellyseerr"@,
        ServiceId::Radarr => "radarr"@,
        ServiceId::Sonarr => "sonarr"@,
        ServiceId::Prowlarr => "prowlarr"@,
        ServiceId::Jellyfin => "jellyfin"@,
    }
}

/// The service's published port.
pub open spec fn service_port(s: ServiceId) -> u16 {
    match s {
        ServiceId::Jellyseerr => 5055,
        ServiceId::Radarr => 7878,
        ServiceId::Sonarr => 8989,
        ServiceId::Prowlarr => 9696,
        ServiceId::Jellyfin => 8096,
    }
}

/// Probes of the control API before giving up (five seconds apart).
pub open spec fn readiness_attempts(s: ServiceId) -> u32 {
    match s {
        ServiceId::Jellyseerr => 36,
        _ => 24,
    }
}

/// The control API's status answer shows a running service.
pub open spec fn api_ready(s: ServiceId, out: Seq<char>) -> bool {
    match s {
        ServiceId::Jellyseerr => contains_seq(out, "version"@) || contains_seq(out, "initialized"@)
            || out.len() > 10,
        ServiceId::Jellyfin => out.len() > 0,
        _ => contains_seq(out, "instanceName"@) || contains_seq(out, "\"version\""@),
    }
}

/// The command that asks a service's control API for its status.
pub open spec fn status_probe_command(x: ServiceId) -> Seq<char> {
    match x {
        ServiceId::Jellyseerr => "curl -s 'http://localhost:5055/api/v1/status' 2>/dev/null || echo 'API_ERROR'"@,
        ServiceId::Radarr => "curl -s 'http://localhost:7878/api/v3/system/status' 2>/dev/null || echo 'API_ERROR'"@,
        ServiceId::Sonarr => "curl -s 'http://localhost:8989/api/v3/system/status' 2>/dev/null || echo 'API_ERROR'"@,
        ServiceId::Prowlarr => "curl -s 'http://localhost:9696/api/v1/system/status' 2>/dev/null || echo 'API_ERROR'"@,
        ServiceId::Jellyfin => "curl -s 'http://localhost:8096/System/Info/Public' 2>/dev/null"@,
    }
}

impl ServiceId {
    /// The service's name in the topology.
    pub fn name(&self) -> (r: &'static str)
        ensures
            r@ == service_name(*self),
    {
        match self {
            ServiceId::Jellyseerr => "jellyseerr",
            ServiceId::Radarr => "radarr",
            ServiceId::Sonarr => "sonarr",
            ServiceId::Prowlarr => "prowlarr",
            ServiceId::Jellyfin => "jellyfin",
        }
    }

    /// The service's published port.
    pub fn port(&self) -> (r: u16)
        ensures
            r == service_port(*self),
    {
        match self {
            ServiceId::Jellyseerr => 5055,
            ServiceId::Radarr => 7878,
            ServiceId::Sonarr => 8989,
            ServiceId::Prowlarr => 9696,
            ServiceId::Jellyfin => 8096,
        }
    }

    /// How many probes the readiness wait makes.
    pub fn readiness_attempts(&self) -> (r: u32)
        ensures
            r == readiness_attempts(*self),
            r > 0,
    {
        match self {
            ServiceId::Jellyseerr => 36,
            _ => 24,
        }
    }

    /// The command that asks the control API for its status.
    pub fn status_probe(&self) -> (r: &'static str)
        ensures
            r@ == status_probe_command(*self),
    {
        match self {
            ServiceId::Jellyseerr => "curl -s 'http://localhost:5055/api/v1/status' 2>/dev/null || echo 'API_ERROR'",
            ServiceId::Radarr => "curl -s 'http://localhost:7878/api/v3/system/status' 2>/dev/null || echo 'API_ERROR'",
            ServiceId::Sonarr => "curl -s 'http://localhost:8989/api/v3/system/status' 2>/dev/null || echo 'API_ERROR'",
            ServiceId::Prowlarr => "curl -s 'http://localhost:9696/api/v1/system/status' 2>/dev/null || echo 'API_ERROR'",
            ServiceId::Jellyfin => "curl -s 'http://localhost:8096/System/Info/Public' 2>/dev/null",
        }
    }

    /// Reads the control API's status answer.
    pub fn is_ready(&self, out: &str) -> (r: bool)
        ensures
            r == api_ready(*self, out@),
    {
        match self {
            ServiceId::Jellyseerr => contains_text(out, "version") || contains_text(out, "initialized")
                || out.unicode_len() > 10,
            ServiceId::Jellyfin => out.unicode_len() > 0,
            _ => contains_text(out, "instanceName") || contains_text(out, "\"version\""),
        }
    }
}

/// A container status that means the service died.
pub open spec fn crashed(status: Seq<char>) -> bool {
    contains_seq(status, "Exited"@) || contains_seq(status, "Dead"@)
}

/// Reads a container status line (`docker ps --format '{{.Status}}'`).
pub fn container_crashed(status: &str) -> (r: bool)
    ensures
        r == crashed(status@),
{
    contains_text(status, "Exited") || contains_text(status, "Dead")
}

/// The `apiKey` of the first entry of `config[section]`, empty when the
/// document holds none.
pub open spec fn first_api_key(config: JsonValue, section: Seq<char>) -> Seq<char> {
    match member(config, section) {
        Some(JsonValue::Array(items)) => if items@.len() > 0 {
            match member(items@[0], "apiKey"@) {
                Some(JsonValue::Str(k)) => k@,
                _ => Seq::empty(),
            }
        } else {
            Seq::empty()
        },
        _ => Seq::empty(),
    }
}

/// Reads the API key of a companion service from a resolved configuration
/// document (`config["radarr"][0]["apiKey"]`), empty when absent.
pub fn service_api_key(config: &JsonValue, section: &str) -> (r: String)
    ensures
        r@ == first_api_key(*config, section@),
{
    match config.get(section) {
        Some(list) => match list.first() {
            Some(entry) => match entry.get("apiKey") {
                Some(k) => match k.as_str() {
                    Some(t) => String::from_str(t),
                    None => String::new(),
                },
                None => String::new(),
            },
            None => String::new(),
        },
        None => String::new(),
    }
}

} // verus!
