//! The service topology and its composition document: a fixed list of
//! containerized services, rendered from a host name and an optional tunnel
//! credential. Same inputs, same document.

use vstd::prelude::*;
use crate::store::{get_supabase_service_key, get_supabase_url_public, SUPABASE_SERVICE_KEY, SUPABASE_URL};
use crate::text::push_text;

verus! {

/// Opening of the document, up to the host name in its title comment.
pub const COMPOSE_HEAD: &'static str = r#"---
# =============================================================================
# Docker Compose - Media Stack
# Généré par JellySetup
# Pi: "#;

/// From the title comment to the backup service's store URL: the eight services before it, and the start of its own entry.
pub const COMPOSE_AFTER_HOST_COMMENT: &'static str = r#"
# =============================================================================

services:
  # Decypharr - Gestionnaire AllDebrid + montage WebDAV/Rclone
  decypharr:
    image: cy01/blackhole:latest
    container_name: decypharr
    restart: always
    cap_add:
      - SYS_ADMIN
    security_opt:
      - apparmor:unconfined
    ports:
      - 8282:8282
    volumes:
      - /mnt:/mnt:rshared
      - /mnt/decypharr/qbit:/mnt/decypharr/qbit
      - ./decypharr:/app
    environment:
      - TZ=Europe/Paris
      - PUID=1000
      - PGID=1000
    devices:
      - /dev/fuse:/dev/fuse:rwm

  # Jellyfin - Serveur multimédia principal
  jellyfin:
    image: lscr.io/linuxserver/jellyfin:latest
    container_name: jellyfin
    restart: unless-stopped
    ports:
      - 8096:8096
    environment:
      - TZ=Europe/Paris
      - PUID=1000
      - PGID=1000
      - JELLYFIN_FFmpeg__probesize=1G
      - JELLYFIN_FFmpeg__analyzeduration=200M
    volumes:
      - ./jellyfin:/config
      - /mnt:/mnt:rshared
    devices:
      - /dev/dri:/dev/dri
    deploy:
      resources:
        limits:
          memory: 4G
        reservations:
          memory: 1G

  # Radarr - Gestionnaire de films
  radarr:
    image: lscr.io/linuxserver/radarr:latest
    container_name: radarr
    restart: unless-stopped
    ports:
      - 7878:7878
    volumes:
      - ./radarr:/config
      - /mnt:/mnt:rslave
    environment:
      - TZ=Europe/Paris
      - PUID=1000
      - PGID=1000

  # Sonarr - Gestionnaire de séries
  sonarr:
    image: lscr.io/linuxserver/sonarr:latest
    container_name: sonarr
    restart: unless-stopped
    ports:
      - 8989:8989
    volumes:
      - ./sonarr:/config
      - /mnt:/mnt:rslave
    environment:
      - TZ=Europe/Paris
      - PUID=1000
      - PGID=1000

  # Prowlarr - Gestionnaire d'indexeurs
  prowlarr:
    image: lscr.io/linuxserver/prowlarr:latest
    container_name: prowlarr
    restart: unless-stopped
    ports:
      - 9696:9696
    volumes:
      - ./prowlarr:/config
    environment:
      - TZ=Europe/Paris
      - PUID=1000
      - PGID=1000

  # Jellyseerr - Interface de requêtes
  jellyseerr:
    image: fallenbagel/jellyseerr:latest
    container_name: jellyseerr
    restart: unless-stopped
    ports:
      - 5055:5055
    volumes:
      - ./jellyseerr:/app/config
    environment:
      - TZ=Europe/Paris

  # Bazarr - Gestionnaire de sous-titres
  bazarr:
    image: lscr.io/linuxserver/bazarr:latest
    container_name: bazarr
    restart: unless-stopped
    ports:
      - 6767:6767
    environment:
      - TZ=Europe/Paris
      - PUID=1000
      - PGID=1000
    volumes:
      - ./bazarr:/config
      - /mnt:/mnt:rslave

  # FlareSolverr - Bypass Cloudflare pour les indexeurs
  flaresolverr:
    image: ghcr.io/flaresolverr/flaresolverr:latest
    container_name: flaresolverr
    restart: unless-stopped
    ports:
      - 8191:8191
    environment:
      - TZ=Europe/Paris
      - LOG_LEVEL=info

  # Supabazarr - Sauvegarde automatique vers Supabase
  # Interface web: http://<pi-ip>:8383
  supabazarr:
    image: ghcr.io/nicolascleton/supabazarr:latest
    container_name: supabazarr
    restart: unless-stopped
    ports:
      - 8383:8383
    environment:
      - TZ=Europe/Paris
      - PUID=1000
      - PGID=1000
      - SUPABASE_URL="#;

/// Between the store URL and the store key.
pub const COMPOSE_AFTER_URL: &'static str = r#"
      - SUPABASE_SERVICE_KEY="#;

/// Between the store key and the host name given to the backup service.
pub const COMPOSE_AFTER_SERVICE_KEY: &'static str = r#"
      - HOSTNAME="#;

/// The rest of the backup service's entry.
pub const COMPOSE_STACK_REST: &'static str = r#"
      - MEDIA_STACK_PATH=/media-stack
      - BACKUP_HOUR=03:00
    volumes:
      - ./:/media-stack:ro
      - supabazarr_data:/etc/supabazarr
    deploy:
      resources:
        limits:
          memory: 128M
          cpus: '0.25'
    logging:
      driver: "json-file"
      options:
        max-size: "10m"
        max-file: "3"
"#;

/// Opening of the tunnel service's entry, up to its token.
pub const COMPOSE_TUNNEL_HEAD: &'static str = r#"
  # Cloudflared - Tunnel Cloudflare pour accès distant
  cloudflared:
    image: cloudflare/cloudflared:latest
    container_name: cloudflared
    restart: unless-stopped
    command: tunnel --no-autoupdate --protocol http2 run
    environment:
      - TUNNEL_TOKEN="#;

/// End of the tunnel service's entry.
pub const COMPOSE_TUNNEL_TAIL: &'static str = r#"
"#;

/// Named volumes and the default network.
pub const COMPOSE_TAIL: &'static str = r#"
volumes:
  supabazarr_data:

networks:
  default:
    name: media-network
"#;

/// The services every topology runs, with their published ports.
pub open spec fn base_services() -> Seq<(Seq<char>, u16)> {
    seq![
        ("decypharr"@, 8282u16),
        ("jellyfin"@, 8096u16),
        ("radarr"@, 7878u16),
        ("sonarr"@, 8989u16),
        ("prowlarr"@, 9696u16),
        ("jellyseerr"@, 5055u16),
        ("bazarr"@, 6767u16),
        ("flaresolverr"@, 8191u16),
        ("supabazarr"@, 8383u16),
    ]
}

/// A tunnel credential is used only when it is given and not empty.
pub open spec fn uses_tunnel(token: Option<Seq<char>>) -> bool {
    token is Some && token->0.len() > 0
}

/// The composition document for `hostname`, with the backup service's
/// store address and key, and the tunnel service when a credential is given.
pub open spec fn compose_document(
    hostname: Seq<char>,
    url: Seq<char>,
    key: Seq<char>,
    token: Option<Seq<char>>,
) -> Seq<char> {
    COMPOSE_HEAD@ + hostname + COMPOSE_AFTER_HOST_COMMENT@ + url + COMPOSE_AFTER_URL@ + key
        + COMPOSE_AFTER_SERVICE_KEY@ + hostname + COMPOSE_STACK_REST@ + (if uses_tunnel(token) {
        COMPOSE_TUNNEL_HEAD@ + token->0 + COMPOSE_TUNNEL_TAIL@
    } else {
        Seq::empty()
    }) + COMPOSE_TAIL@
}

/// The view of an optional string.
pub open spec fn opt_view(s: Option<&str>) -> Option<Seq<char>> {
    match s {
        Some(t) => Some(t@),
        None => None,
    }
}

/// Renders the composition document of the whole topology.
pub fn generate_docker_compose(hostname: &str, cloudflare_token: Option<&str>) -> (r: String)
    ensures
        r@ == compose_document(hostname@, SUPABASE_URL@, SUPABASE_SERVICE_KEY@, opt_view(cloudflare_token)),
{
    let supabase_url = get_supabase_url_public();
    let supabase_service_key = get_supabase_service_key();
    let mut compose = String::from_str(COMPOSE_HEAD);
    push_text(&mut compose, hostname);
    push_text(&mut compose, COMPOSE_AFTER_HOST_COMMENT);
    push_text(&mut compose, supabase_url.as_str());
    push_text(&mut compose, COMPOSE_AFTER_URL);
    push_text(&mut compose, supabase_service_key.as_str());
    push_text(&mut compose, COMPOSE_AFTER_SERVICE_KEY);
    push_text(&mut compose, hostname);
    push_text(&mut compose, COMPOSE_STACK_REST);
    let ghost stack = compose@;
    match cloudflare_token {
        Some(token) => {
            if token.unicode_len() > 0 {
                push_text(&mut compose, COMPOSE_TUNNEL_HEAD);
                push_text(&mut compose, token);
                push_text(&mut compose, COMPOSE_TUNNEL_TAIL);
            }
        },
        None => {},
    }
    let ghost with_tunnel = compose@;
    push_text(&mut compose, COMPOSE_TAIL);
    proof {
        if uses_tunnel(opt_view(cloudflare_token)) {
            assert(with_tunnel =~= stack + (COMPOSE_TUNNEL_HEAD@ + cloudflare_token->0@ + COMPOSE_TUNNEL_TAIL@));
        } else {
            assert(with_tunnel =~= stack + Seq::<char>::empty());
        }
    }
    compose
}

/// Number of containers the topology runs: every base service, plus the
/// tunnel when a credential is given.
pub fn expected_containers(cloudflare_token: Option<&str>) -> (r: u64)
    ensures
        r == base_services().len() + if uses_tunnel(opt_view(cloudflare_token)) {
            1int
        } else {
            0int
        },
{
    let with_tunnel = match cloudflare_token {
        Some(token) => token.unicode_len() > 0,
        None => false,
    };
    if with_tunnel {
        10
    } else {
        9
    }
}

} // verus!
