use jellysetup::image_index::{image_file_matching, EXCLUDED_RELEASE, REQUIRED_RELEASE};
use jellysetup::transfer::content_length;
use jellysetup::boot::{first_boot_config, userconf, FlashConfig};
use jellysetup::compose::generate_docker_compose;
use jellysetup::image_index::{image_file, image_source, latest_release, pick_newest};
use jellysetup::logging::LogLevel;
use jellysetup::store::{get_supabase_anon_key, get_supabase_service_key, get_supabase_url_public, pi_name_to_schema, schema_from_lowered};
use jellysetup::transfer::{estimate_written, last_sample_of_log, parse_number, parse_sample, remaining_secs, TransferSample};

fn config() -> FlashConfig {
    FlashConfig {
        sd_path: "/dev/rdisk4".to_string(),
        hostname: "jellypi".to_string(),
        system_username: "pi".to_string(),
        system_password: "secret".to_string(),
        wifi_ssid: "home".to_string(),
        wifi_password: "wifipass".to_string(),
        wifi_country: "FR".to_string(),
        timezone: "Europe/Paris".to_string(),
        keymap: "fr".to_string(),
    }
}

#[test]
fn first_boot_document_has_requested_hostname() {
    let doc = first_boot_config(&config(), "ssh-ed25519 AAAA key@host");
    assert!(doc.contains("hostname = \"jellypi\""));
    assert!(doc.contains("[user]\nname = \"pi\"\npassword = \"secret\""));
    assert!(doc.contains("authorized_keys = [ \"ssh-ed25519 AAAA key@host\" ]"));
    assert!(doc.contains("ssid = \"home\""));
    assert!(doc.contains("country = \"FR\""));
    assert!(doc.contains("keymap = \"fr\"\ntimezone = \"Europe/Paris\"\n"));
    assert!(doc.starts_with("# Configuration JellySetup"));
    assert_eq!(userconf(&config()), "pi:secret");
}

#[test]
fn compose_document_is_a_value() {
    let a = generate_docker_compose("jellypi", None);
    let b = generate_docker_compose("jellypi", None);
    assert_eq!(a, b);
    assert!(a.contains("# Pi: jellypi\n"));
    assert!(a.contains("      - HOSTNAME=jellypi\n"));
    assert!(a.contains(&format!("      - SUPABASE_URL={}\n", get_supabase_url_public())));
    assert!(a.contains(&format!("      - SUPABASE_SERVICE_KEY={}\n", get_supabase_service_key())));
    assert!(!a.contains("cloudflared"));
    assert!(a.ends_with("networks:\n  default:\n    name: media-network\n"));
    for svc in ["decypharr", "jellyfin", "radarr", "sonarr", "prowlarr", "jellyseerr", "bazarr", "flaresolverr", "supabazarr"] {
        assert!(a.contains(&format!("container_name: {}\n", svc)));
    }
    let t = generate_docker_compose("jellypi", Some("tok123"));
    assert!(t.contains("      - TUNNEL_TOKEN=tok123\n"));
    assert_eq!(generate_docker_compose("jellypi", Some("")), a);
}

#[test]
fn store_addresses() {
    assert_eq!(get_supabase_url_public(), "https://ncxowprkehliisvnpmlt.supabase.co");
    assert_eq!(get_supabase_anon_key(), "your-anon-key");
    assert_eq!(get_supabase_service_key(), "your-service-key");
}

#[test]
fn schema_names() {
    assert_eq!(pi_name_to_schema("Jelly-Pi 2"), "jelly_pi_2");
    assert_eq!(pi_name_to_schema("my_pi"), "my_pi");
    assert_eq!(pi_name_to_schema("ÉCRAN"), "écran");
    assert_eq!(schema_from_lowered("a.b"), "a_b");
}

#[test]
fn transfer_statistics() {
    let line = "2841640960 bytes transferred in 997.746971 secs (2848058 bytes/sec)";
    assert_eq!(parse_sample(line), TransferSample { bytes: Some(2841640960), rate: Some(2848058) });
    let log = format!("Starting dd...\n100 bytes transferred in 1.0 secs (100 bytes/sec)\nnoise\n{}\ntrailing\n", line);
    assert_eq!(last_sample_of_log(&log), Some(TransferSample { bytes: Some(2841640960), rate: Some(2848058) }));
    assert_eq!(last_sample_of_log("nothing here"), None);
    assert_eq!(parse_sample("load: 1.2  bytes transferred"), TransferSample { bytes: None, rate: None });
    assert_eq!(parse_number("18446744073709551615"), Some(u64::MAX));
    assert_eq!(parse_number("18446744073709551616"), None);
    assert_eq!(parse_number(""), None);
    assert_eq!(parse_number("12a"), None);
    assert_eq!(estimate_written(Some(500), 10, 7), 500);
    assert_eq!(estimate_written(Some(0), 10, 7), 70);
    assert_eq!(estimate_written(None, u64::MAX, 2), u64::MAX);
    assert_eq!(remaining_secs(1000, 400, 100), 6);
    assert_eq!(remaining_secs(1000, 1400, 100), 0);
    assert_eq!(remaining_secs(1000, 400, 0), 0);
}

#[test]
fn newest_release_is_chosen() {
    let page = r#"<a href="raspios_lite_arm64-2023-05-03/">a</a>
<a href="raspios_lite_arm64-2024-11-19/">b</a>
<a href="raspios_lite_arm64-2024-07-04/">c</a>"#;
    assert_eq!(
        latest_release(page),
        Some(("raspios_lite_arm64-2024-11-19/".to_string(), "2024-11-19".to_string()))
    );
    assert_eq!(latest_release("<html></html>"), None);
    let folder = r#"<a href="2024-11-19-raspios-bookworm-arm64-lite.img.xz">img</a> <a href="x.img.xz.sha256">s</a>"#;
    let file = image_file(folder).unwrap();
    assert_eq!(file, "2024-11-19-raspios-bookworm-arm64-lite.img.xz");
    assert_eq!(image_file("none"), None);
    let (url, name) = image_source("https://h/images/", "raspios_lite_arm64-2024-11-19/", &file);
    assert_eq!(url, "https://h/images/raspios_lite_arm64-2024-11-19/2024-11-19-raspios-bookworm-arm64-lite.img.xz");
    assert_eq!(name, "2024-11-19-raspios-bookworm-arm64-lite.img");
    let rows = vec![
        vec![Some("x".to_string()), Some("f1".to_string()), Some("2024-01-01".to_string())],
        vec![Some("y".to_string()), Some("f2".to_string()), Some("2024-01-01".to_string())],
    ];
    assert_eq!(pick_newest(&rows), Some(0));
    assert_eq!(pick_newest(&vec![]), None);
}

#[test]
fn log_level_names() {
    assert_eq!(LogLevel::Debug.as_str(), "DEBUG");
    assert_eq!(LogLevel::Critical.as_str(), "CRITICAL");
    assert_eq!(LogLevel::for_outcome(true), LogLevel::Success);
    assert_eq!(LogLevel::for_exit_code(2), LogLevel::Error);
}

#[test]
fn tagged_image_choice() {
    let folder = r#"<a href="2025-10-01-raspios-trixie-arm64-lite.img.xz">t</a>
<a href="2024-11-19-raspios-bookworm-arm64-lite.img.xz">b</a>"#;
    assert_eq!(
        image_file_matching(folder, REQUIRED_RELEASE, EXCLUDED_RELEASE),
        Some("2024-11-19-raspios-bookworm-arm64-lite.img.xz".to_string())
    );
    assert_eq!(image_file_matching(folder, "bullseye", ""), None);
    assert_eq!(
        image_file_matching(folder, "raspios", ""),
        Some("2025-10-01-raspios-trixie-arm64-lite.img.xz".to_string())
    );
}

#[test]
fn download_size_from_headers() {
    let h = "HTTP/1.1 302 Found\r\nContent-Length: 0\r\nLocation: x\r\n\r\nHTTP/2 200\r\ncontent-length: 512000000\r\n\r\n";
    assert_eq!(content_length(h), Some(512000000));
    assert_eq!(content_length("HTTP/2 200\r\n"), None);
}

#[test]
fn ascii_schema_names() {
    assert_eq!(pi_name_to_schema("Jelly-Pi 1"), "jelly_pi_1");
    let r = pi_name_to_schema("A.b_C");
    assert_eq!(r, "a_b_c");
    assert_eq!(pi_name_to_schema(&r), r);
}
