//! Plain records exchanged with the user interface and the external store.

use vstd::prelude::*;

verus! {

/// What the user provides for the remote installation.
pub struct InstallConfig {
    pub alldebrid_api_key: String,
    pub jellyfin_username: String,
    pub jellyfin_password: String,
    pub ygg_passkey: Option<String>,
    pub discord_webhook: Option<String>,
    pub cloudflare_token: Option<String>,
}

/// An SSH key pair, both halves in OpenSSH text form.
pub struct SSHCredentials {
    pub public_key: String,
    pub private_key: String,
}

/// A discovered host on the local network.
pub struct PiInfo {
    pub ip: String,
    pub hostname: String,
    pub mac_address: Option<String>,
}

/// The kind of a master configuration (streaming today, storage later).
#[derive(Clone, Copy, Debug, PartialEq, Eq, Structural)]
pub enum ConfigType {
    Streaming,
    Storage,
}

/// The store's name of a configuration kind.
pub open spec fn config_type_name(t: ConfigType) -> Seq<char> {
    match t {
        ConfigType::Streaming => "streaming"@,
        ConfigType::Storage => "storage"@,
    }
}

impl ConfigType {
    /// The store's name of the kind.
    pub fn as_str(&self) -> (r: &'static str)
        ensures
            r@ == config_type_name(*self),
    {
        match self {
            ConfigType::Streaming => "streaming",
            ConfigType::Storage => "storage",
        }
    }
}

/// The kind of a catalogue entry.
#[derive(Clone, Copy, Debug, PartialEq, Eq, Structural)]
pub enum MediaType {
    Movie,
    Series,
    Episode,
}

/// The store's name of a catalogue kind.
pub open spec fn media_type_name(t: MediaType) -> Seq<char> {
    match t {
        MediaType::Movie => "movie"@,
        MediaType::Series => "series"@,
        MediaType::Episode => "episode"@,
    }
}

impl MediaType {
    /// The store's name of the kind.
    pub fn as_str(&self) -> (r: &'static str)
        ensures
            r@ == media_type_name(*self),
    {
        match self {
            MediaType::Movie => "movie",
            MediaType::Series => "series",
            MediaType::Episode => "episode",
        }
    }
}

} // verus!
