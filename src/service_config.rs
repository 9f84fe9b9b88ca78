//! Post-configuration of one service, as a state machine: clean-up, a
//! bounded wait for the control API (with crash detection), then, for the
//! request manager, administrator initialization (an authentication failure
//! is fatal to this service) and registration of the movie and series
//! managers with their API keys. The host sends each command and hands
//! back what it printed.

use vstd::prelude::*;
use crate::install::ServiceId;
use crate::remote_cmd::{escape_quotes, escape_single_quotes};
use crate::services::{api_ready, crashed, readiness_attempts, service_name, status_probe_command};
use crate::text::{contains_seq, contains_text, push_text, trim_text, trimmed};
use crate::transfer::{find_last, last_at, lemma_last_at_unique};

verus! {

/// Stops the request manager, wipes its data and starts it afresh.
pub const JELLYSEERR_CLEANUP: &'static str = r#"
set -e  # Arrêter si une commande échoue

echo "🛑 Stopping Jellyseerr..."
cd ~/media-stack
docker compose stop jellyseerr

echo "🗑️  Deleting Jellyseerr data..."
docker run --rm -v "$(pwd)/jellyseerr:/app" alpine sh -c "rm -rf /app/*"

echo "📁 Recreating directories..."
mkdir -p jellyseerr/config jellyseerr/db

echo "🚀 Starting Jellyseerr..."
nohup docker compose up -d jellyseerr > /tmp/jellyseerr_startup.log 2>&1 &

echo "✅ Jellyseerr cleanup done, container starting in background"
"#;

/// Stops the movie manager, removes its database and starts it again.
pub const RADARR_CLEANUP: &'static str = r#"
cd ~/media-stack && docker compose stop radarr

# Supprimer la DB via docker run (évite sudo sur l'hôte)
docker run --rm -v "$(pwd)/radarr:/app" alpine sh -c "rm -f /app/radarr.db*"

echo "✅ Radarr database cleaned"
cd ~/media-stack && docker compose up -d radarr
"#;

/// Stops the series manager, removes its database and starts it again.
pub const SONARR_CLEANUP: &'static str = r#"
cd ~/media-stack && docker compose stop sonarr

# Supprimer la DB via docker run (évite sudo sur l'hôte)
docker run --rm -v "$(pwd)/sonarr:/app" alpine sh -c "rm -f /app/sonarr.db*"

echo "✅ Sonarr database cleaned"
cd ~/media-stack && docker compose up -d sonarr
"#;

/// Stops the indexer manager, removes its database and starts it again.
pub const PROWLARR_CLEANUP: &'static str = r#"
cd ~/media-stack && docker compose stop prowlarr

# Supprimer la DB via docker run (évite sudo sur l'hôte)
docker run --rm -v "$(pwd)/prowlarr:/app" alpine sh -c "rm -f /app/prowlarr.db*"

echo "✅ Prowlarr database cleaned"
cd ~/media-stack && docker compose up -d prowlarr
"#;

/// Keeps the media server's database and restarts it.
pub const JELLYFIN_RESTART: &'static str = r#"
# STRATÉGIE JELLYFIN:
# Jellyfin NE PEUT PAS démarrer depuis une DB vide - crash systématique avec "no such table: __EFMigrationsHistory"
#
# Solution en 2 temps:
# 1. PREMIÈRE INSTALLATION (jamais fait): L'utilisateur DOIT faire le wizard manuellement (NON NÉGOCIABLE techniquement)
#    On sauvegarde ensuite la DB comme template dans Supabase
# 2. FRESH INSTALLS SUIVANTES: On télécharge la DB template depuis Supabase et on skip le wizard
#
# Pour l'instant, on ne fait rien lors de l'upgrade - Jellyfin garde sa DB existante

echo "✅ Jellyfin: conservation de la DB existante"
cd ~/media-stack && docker compose restart jellyfin
"#;

/// Initialization script, up to the admin user name.
pub const INIT_PART_0: &'static str = r#"
# Fichier cookie temporaire
COOKIE_FILE="/tmp/jellyseerr_cookies.txt"
rm -f "$COOKIE_FILE"

echo "📡 Step 1: Authenticating with Jellyfin..."
AUTH_RESULT=$(curl -s -c "$COOKIE_FILE" -X POST 'http://localhost:5055/api/v1/auth/jellyfin' \
  -H 'Content-Type: application/json' \
  -d '{
    "hostname": "http://localhost:8096",
    "username": ""#;

/// Up to the admin password.
pub const INIT_PART_1: &'static str = r#"",
    "password": ""#;

/// Up to the admin e-mail.
pub const INIT_PART_2: &'static str = r#"",
    "email": ""#;

/// Rest of the initialization script.
pub const INIT_PART_3: &'static str = r#""
  }')

echo "Auth response: $AUTH_RESULT"

# Vérifier si auth a réussi (pas d'erreur critique)
if echo "$AUTH_RESULT" | grep -q '"error"'; then
  echo "❌ Authentication failed: $AUTH_RESULT"
  rm -f "$COOKIE_FILE"
  exit 1
fi

echo "✅ Authenticated successfully"

echo "📚 Step 2: Syncing Jellyfin libraries..."
LIBRARIES=$(curl -s -b "$COOKIE_FILE" 'http://localhost:5055/api/v1/settings/jellyfin/library?sync=true')
echo "Libraries: $LIBRARIES"

# Extraire les IDs des bibliothèques (Movies + TV)
LIBRARY_IDS=$(echo "$LIBRARIES" | grep -o '"id":"[^"]*"' | cut -d'"' -f4 | tr '\n' ',' | sed 's/,$//')
echo "Library IDs: $LIBRARY_IDS"

if [ -n "$LIBRARY_IDS" ]; then
  echo "📝 Step 3: Enabling libraries: $LIBRARY_IDS"
  curl -s -b "$COOKIE_FILE" "http://localhost:5055/api/v1/settings/jellyfin/library?enable=$LIBRARY_IDS" > /dev/null
  echo "✅ Libraries enabled"
fi

echo "🏁 Step 4: Finalizing initialization..."
INIT_RESULT=$(curl -s -b "$COOKIE_FILE" -X POST 'http://localhost:5055/api/v1/settings/initialize')
echo "Initialize response: $INIT_RESULT"

# Nettoyer
rm -f "$COOKIE_FILE"

echo "✅ Jellyseerr fully initialized!"
"#;

/// Registration script, up to the movie manager's API key.
pub const REGISTER_PART_0: &'static str = r#"
# Récupérer l'API key de Jellyseerr depuis settings.json
API_KEY=$(cat ~/media-stack/jellyseerr/config/settings.json | grep -o '"apiKey":"[^"]*"' | head -1 | cut -d'"' -f4)

# Attendre que Jellyseerr soit prêt
sleep 5

# Configurer Radarr via l'API
curl -s -X POST "http://localhost:5055/api/v1/settings/radarr" \
  -H "X-Api-Key: $API_KEY" \
  -H "Content-Type: application/json" \
  -d '{
    "name": "Radarr",
    "hostname": "radarr",
    "port": 7878,
    "apiKey": ""#;

/// Up to the series manager's API key.
pub const REGISTER_PART_1: &'static str = r#"",
    "useSsl": false,
    "activeProfileId": 4,
    "activeProfileName": "HD-1080p",
    "activeDirectory": "/mnt/decypharr/movies",
    "is4k": false,
    "minimumAvailability": "released",
    "isDefault": true,
    "syncEnabled": true
  }' > /dev/null 2>&1

# Configurer Sonarr via l'API
curl -s -X POST "http://localhost:5055/api/v1/settings/sonarr" \
  -H "X-Api-Key: $API_KEY" \
  -H "Content-Type: application/json" \
  -d '{
    "name": "Sonarr",
    "hostname": "sonarr",
    "port": 8989,
    "apiKey": ""#;

/// Rest of the registration script.
pub const REGISTER_PART_2: &'static str = r#"",
    "useSsl": false,
    "activeProfileId": 4,
    "activeProfileName": "HD-1080p",
    "activeDirectory": "/mnt/decypharr/tv",
    "is4k": false,
    "enableSeasonFolders": true,
    "isDefault": true,
    "syncEnabled": true
  }' > /dev/null 2>&1

echo "✅ Radarr and Sonarr configured via API"
"#;

/// Line the probe prints between the container status and the API answer.
pub const PROBE_SEPARATOR: &'static str = "@@API@@";

/// Seconds between two probes of the control API.
pub const PROBE_INTERVAL_SECS: u64 = 5;

/// The commands of a configuration sequence.
#[derive(Clone, Copy, Debug, PartialEq, Eq, Structural)]
pub enum ConfigCommand {
    Cleanup,
    Probe,
    Initialize,
    Register,
}

/// Why the configuration of a service failed.
#[derive(Clone, Copy, Debug, PartialEq, Eq, Structural)]
pub enum ConfigError {
    CleanupFailed,
    /// The container exited or died while starting.
    Crashed,
    /// The control API did not answer within the probe ceiling.
    NotReady,
    InitFailed,
    /// The administrator could not authenticate against the media server.
    AuthFailed,
    RegisterFailed,
    /// An outcome that does not answer the pending command.
    Unexpected,
}

/// Where a configuration sequence stands.
#[derive(Clone, Copy, Debug, PartialEq, Eq, Structural)]
pub enum ConfigStage {
    Cleanup,
    Waiting,
    Initialize,
    Register,
    Done,
    Failed,
}

/// What the host must do next.
#[derive(Clone, Copy, Debug, PartialEq, Eq, Structural)]
pub enum ConfigAction {
    /// Send this command now.
    Send(ConfigCommand),
    /// Sleep this many seconds, then send this command.
    SendAfter(ConfigCommand, u64),
    /// The service is configured.
    Finish,
    /// The service's configuration failed; the others go on.
    Fail(ConfigError),
}

/// What a command's run showed.
#[derive(Clone, Copy, Debug, PartialEq, Eq, Structural)]
pub enum ConfigEvent {
    /// The command ran (or could not be run).
    Finished(bool),
    /// A probe: the container is dead, or the API answers.
    Probed { crashed: bool, ready: bool },
    /// The initialization ran; whether its output reports an authentication failure.
    Initialized { ok: bool, auth_failed: bool },
}

/// The state of one service's configuration.
#[derive(Clone, Copy, Debug, PartialEq, Eq, Structural)]
pub struct ServiceConfig {
    pub service: ServiceId,
    pub stage: ConfigStage,
    pub probes: u32,
}

/// The parameters the commands embed.
pub struct ConfigParams {
    pub admin_user: String,
    pub admin_password: String,
    pub admin_email: String,
    pub radarr_api_key: String,
    pub sonarr_api_key: String,
}

/// The clean-up command of a service.
pub open spec fn cleanup_spec(id: ServiceId) -> Seq<char> {
    match id {
        ServiceId::Jellyseerr => JELLYSEERR_CLEANUP@,
        ServiceId::Radarr => RADARR_CLEANUP@,
        ServiceId::Sonarr => SONARR_CLEANUP@,
        ServiceId::Prowlarr => PROWLARR_CLEANUP@,
        ServiceId::Jellyfin => JELLYFIN_RESTART@,
    }
}

/// The probe: the container's status, then the control API's answer.
pub open spec fn probe_spec(id: ServiceId) -> Seq<char> {
    "docker ps -a --filter name="@ + service_name(id) + " --format '{{.Status}}' 2>/dev/null; echo '"@
        + PROBE_SEPARATOR@ + "'; "@ + status_probe_command(id)
}

/// The initialization command, with every value's single quotes escaped.
pub open spec fn init_spec(user: Seq<char>, password: Seq<char>, email: Seq<char>) -> Seq<char> {
    INIT_PART_0@ + escape_quotes(user) + INIT_PART_1@ + escape_quotes(password) + INIT_PART_2@
        + escape_quotes(email) + INIT_PART_3@
}

/// The registration command, with every key's single quotes escaped.
pub open spec fn register_spec(radarr_key: Seq<char>, sonarr_key: Seq<char>) -> Seq<char> {
    REGISTER_PART_0@ + escape_quotes(radarr_key) + REGISTER_PART_1@ + escape_quotes(sonarr_key)
        + REGISTER_PART_2@
}

/// The text of a command of a service's sequence.
pub open spec fn command_spec(id: ServiceId, c: ConfigCommand, p: ConfigParams) -> Seq<char> {
    match c {
        ConfigCommand::Cleanup => cleanup_spec(id),
        ConfigCommand::Probe => probe_spec(id),
        ConfigCommand::Initialize => init_spec(p.admin_user@, p.admin_password@, p.admin_email@),
        ConfigCommand::Register => register_spec(p.radarr_api_key@, p.sonarr_api_key@),
    }
}

/// The start of a service's sequence.
pub open spec fn config_start_spec(id: ServiceId) -> (ServiceConfig, ConfigAction) {
    (
        ServiceConfig { service: id, stage: ConfigStage::Cleanup, probes: 0 },
        ConfigAction::Send(ConfigCommand::Cleanup),
    )
}

/// The decision on one event.
pub open spec fn config_next_spec(s: ServiceConfig, e: ConfigEvent) -> (ServiceConfig, ConfigAction) {
    let failed = |err: ConfigError| (ServiceConfig { stage: ConfigStage::Failed, ..s }, ConfigAction::Fail(err));
    match (s.stage, e) {
        (ConfigStage::Cleanup, ConfigEvent::Finished(ok)) => if ok {
            (
                ServiceConfig { stage: ConfigStage::Waiting, probes: 0, ..s },
                ConfigAction::Send(ConfigCommand::Probe),
            )
        } else {
            failed(ConfigError::CleanupFailed)
        },
        (ConfigStage::Waiting, ConfigEvent::Probed { crashed, ready }) => if crashed {
            failed(ConfigError::Crashed)
        } else if ready {
            if s.service is Jellyseerr {
                (
                    ServiceConfig { stage: ConfigStage::Initialize, ..s },
                    ConfigAction::Send(ConfigCommand::Initialize),
                )
            } else {
                (ServiceConfig { stage: ConfigStage::Done, ..s }, ConfigAction::Finish)
            }
        } else if s.probes + 1 < readiness_attempts(s.service) {
            (
                ServiceConfig { probes: (s.probes + 1) as u32, ..s },
                ConfigAction::SendAfter(ConfigCommand::Probe, PROBE_INTERVAL_SECS),
            )
        } else {
            failed(ConfigError::NotReady)
        },
        (ConfigStage::Initialize, ConfigEvent::Initialized { ok, auth_failed }) => if !ok {
            failed(ConfigError::InitFailed)
        } else if auth_failed {
            failed(ConfigError::AuthFailed)
        } else {
            (
                ServiceConfig { stage: ConfigStage::Register, ..s },
                ConfigAction::Send(ConfigCommand::Register),
            )
        },
        (ConfigStage::Register, ConfigEvent::Finished(ok)) => if ok {
            (ServiceConfig { stage: ConfigStage::Done, ..s }, ConfigAction::Finish)
        } else {
            failed(ConfigError::RegisterFailed)
        },
        _ => failed(ConfigError::Unexpected),
    }
}

impl ServiceConfig {
    /// Starts the configuration of a service with its clean-up.
    pub fn start(id: ServiceId) -> (r: (ServiceConfig, ConfigAction))
        ensures
            r == config_start_spec(id),
    {
        (
            ServiceConfig { service: id, stage: ConfigStage::Cleanup, probes: 0 },
            ConfigAction::Send(ConfigCommand::Cleanup),
        )
    }

    fn failed(&mut self, err: ConfigError) -> (r: ConfigAction)
        ensures
            *final(self) == (ServiceConfig { stage: ConfigStage::Failed, ..*old(self) }),
            r == ConfigAction::Fail(err),
    {
        self.stage = ConfigStage::Failed;
        ConfigAction::Fail(err)
    }

    /// Decides what follows an event.
    pub fn step(&mut self, e: ConfigEvent) -> (r: ConfigAction)
        requires
            old(self).probes < readiness_attempts(old(self).service),
        ensures
            (*final(self), r) == config_next_spec(*old(self), e),
            final(self).probes < readiness_attempts(final(self).service),
    {
        match (self.stage, e) {
            (ConfigStage::Cleanup, ConfigEvent::Finished(ok)) => {
                if ok {
                    self.stage = ConfigStage::Waiting;
                    self.probes = 0;
                    ConfigAction::Send(ConfigCommand::Probe)
                } else {
                    self.failed(ConfigError::CleanupFailed)
                }
            },
            (ConfigStage::Waiting, ConfigEvent::Probed { crashed, ready }) => {
                if crashed {
                    self.failed(ConfigError::Crashed)
                } else if ready {
                    if matches!(self.service, ServiceId::Jellyseerr) {
                        self.stage = ConfigStage::Initialize;
                        ConfigAction::Send(ConfigCommand::Initialize)
                    } else {
                        self.stage = ConfigStage::Done;
                        ConfigAction::Finish
                    }
                } else if self.probes + 1 < self.service.readiness_attempts() {
                    self.probes = self.probes + 1;
                    ConfigAction::SendAfter(ConfigCommand::Probe, PROBE_INTERVAL_SECS)
                } else {
                    self.failed(ConfigError::NotReady)
                }
            },
            (ConfigStage::Initialize, ConfigEvent::Initialized { ok, auth_failed }) => {
                if !ok {
                    self.failed(ConfigError::InitFailed)
                } else if auth_failed {
                    self.failed(ConfigError::AuthFailed)
                } else {
                    self.stage = ConfigStage::Register;
                    ConfigAction::Send(ConfigCommand::Register)
                }
            },
            (ConfigStage::Register, ConfigEvent::Finished(ok)) => {
                if ok {
                    self.stage = ConfigStage::Done;
                    ConfigAction::Finish
                } else {
                    self.failed(ConfigError::RegisterFailed)
                }
            },
            _ => self.failed(ConfigError::Unexpected),
        }
    }
}

/// How a probe's output is read: the container status before the last
/// separator, the API answer after it (no answer when it is missing).
pub open spec fn probe_event(id: ServiceId, out: Seq<char>) -> ConfigEvent {
    if exists|k: int| last_at(out, PROBE_SEPARATOR@, k) {
        let k = choose|k: int| last_at(out, PROBE_SEPARATOR@, k);
        ConfigEvent::Probed {
            crashed: crashed(out.subrange(0, k)),
            ready: api_ready(id, trimmed(out.subrange(k + PROBE_SEPARATOR@.len(), out.len() as int))),
        }
    } else {
        ConfigEvent::Probed { crashed: crashed(out), ready: false }
    }
}

/// Reads a probe's output: crashed when the container status says so,
/// ready when the control API's answer shows a running service.
pub fn read_probe(id: ServiceId, output: &str) -> (r: ConfigEvent)
    ensures
        r == probe_event(id, output@),
{
    let n = output.unicode_len();
    match find_last(output, PROBE_SEPARATOR) {
        Some(k) => {
            proof {
                assert forall|x: int| last_at(output@, PROBE_SEPARATOR@, x) implies x == k by {
                    lemma_last_at_unique(output@, PROBE_SEPARATOR@, x, k as int);
                }
            }
            assert(last_at(output@, PROBE_SEPARATOR@, k as int));
            let m = PROBE_SEPARATOR.unicode_len();
            let status = output.substring_char(0, k);
            let answer = trim_text(output.substring_char(k + m, n));
            let crashed = crate::services::container_crashed(status);
            let ready = id.is_ready(answer);
            ConfigEvent::Probed { crashed, ready }
        },
        None => {
            assert(!exists|x: int| last_at(output@, PROBE_SEPARATOR@, x));
            ConfigEvent::Probed { crashed: crate::services::container_crashed(output), ready: false }
        },
    }
}

/// Reads the initialization's output.
pub fn read_init(ok: bool, output: &str) -> (r: ConfigEvent)
    ensures
        r == (ConfigEvent::Initialized {
            ok,
            auth_failed: contains_seq(output@, "Authentication failed"@),
        }),
{
    ConfigEvent::Initialized { ok, auth_failed: contains_text(output, "Authentication failed") }
}

/// The text of a command of a service's sequence.
pub fn config_command(id: ServiceId, c: ConfigCommand, p: &ConfigParams) -> (r: String)
    ensures
        r@ == command_spec(id, c, *p),
{
    match c {
        ConfigCommand::Cleanup => match id {
            ServiceId::Jellyseerr => String::from_str(JELLYSEERR_CLEANUP),
            ServiceId::Radarr => String::from_str(RADARR_CLEANUP),
            ServiceId::Sonarr => String::from_str(SONARR_CLEANUP),
            ServiceId::Prowlarr => String::from_str(PROWLARR_CLEANUP),
            ServiceId::Jellyfin => String::from_str(JELLYFIN_RESTART),
        },
        ConfigCommand::Probe => {
            let mut cmd = String::from_str("docker ps -a --filter name=");
            push_text(&mut cmd, id.name());
            push_text(&mut cmd, " --format '{{.Status}}' 2>/dev/null; echo '");
            push_text(&mut cmd, PROBE_SEPARATOR);
            push_text(&mut cmd, "'; ");
            push_text(&mut cmd, id.status_probe());
            cmd
        },
        ConfigCommand::Initialize => {
            let mut cmd = String::from_str(INIT_PART_0);
            push_text(&mut cmd, escape_single_quotes(p.admin_user.as_str()).as_str());
            push_text(&mut cmd, INIT_PART_1);
            push_text(&mut cmd, escape_single_quotes(p.admin_password.as_str()).as_str());
            push_text(&mut cmd, INIT_PART_2);
            push_text(&mut cmd, escape_single_quotes(p.admin_email.as_str()).as_str());
            push_text(&mut cmd, INIT_PART_3);
            cmd
        },
        ConfigCommand::Register => {
            let mut cmd = String::from_str(REGISTER_PART_0);
            push_text(&mut cmd, escape_single_quotes(p.radarr_api_key.as_str()).as_str());
            push_text(&mut cmd, REGISTER_PART_1);
            push_text(&mut cmd, escape_single_quotes(p.sonarr_api_key.as_str()).as_str());
            push_text(&mut cmd, REGISTER_PART_2);
            cmd
        },
    }
}

} // verus!
