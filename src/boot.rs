//! The first-boot files written onto the boot partition: an empty marker
//! that enables SSH, a structured first-boot document, and a plain
//! `user:password` backup for older boot-time tooling.

use vstd::prelude::*;
use crate::text::{contains_seq, occurs_at, push_text};

verus! {

/// What the user asks for when flashing a medium.
pub struct FlashConfig {
    pub sd_path: String,
    pub hostname: String,
    pub system_username: String,
    pub system_password: String,
    pub wifi_ssid: String,
    pub wifi_password: String,
    pub wifi_country: String,
    pub timezone: String,
    pub keymap: String,
}

/// The text fields of a request, as plain sequences.
pub struct FlashConfigView {
    pub sd_path: Seq<char>,
    pub hostname: Seq<char>,
    pub system_username: Seq<char>,
    pub system_password: Seq<char>,
    pub wifi_ssid: Seq<char>,
    pub wifi_password: Seq<char>,
    pub wifi_country: Seq<char>,
    pub timezone: Seq<char>,
    pub keymap: Seq<char>,
}

impl View for FlashConfig {
    type V = FlashConfigView;

    open spec fn view(&self) -> FlashConfigView {
        FlashConfigView {
            sd_path: self.sd_path@,
            hostname: self.hostname@,
            system_username: self.system_username@,
            system_password: self.system_password@,
            wifi_ssid: self.wifi_ssid@,
            wifi_password: self.wifi_password@,
            wifi_country: self.wifi_country@,
            timezone: self.timezone@,
            keymap: self.keymap@,
        }
    }
}

/// Name of the empty file that enables SSH on first boot.
pub const SSH_MARKER_FILE: &'static str = "ssh";

/// Name of the structured first-boot document.
pub const FIRST_BOOT_FILE: &'static str = "custom.toml";

/// Name of the legacy credentials file.
pub const USERCONF_FILE: &'static str = "userconf.txt";

/// Opening of the first-boot document, up to its host-name line.
pub const TOML_HEAD: &'static str = r#"# Configuration JellySetup - Raspberry Pi OS Bookworm
config_version = 1

[system]
"#;

/// From the host-name line to the local account name.
pub const TOML_USER_NAME: &'static str = r#"

[user]
name = ""#;

/// Up to the local account password.
pub const TOML_USER_PASSWORD: &'static str = r#""
password = ""#;

/// Up to the authorized public key.
pub const TOML_SSH_KEY: &'static str = r#""
password_encrypted = false

[ssh]
enabled = true
password_authentication = true
authorized_keys = [ ""#;

/// Up to the wireless network name.
pub const TOML_WIFI_SSID: &'static str = r#"" ]

[wlan]
ssid = ""#;

/// Up to the wireless password.
pub const TOML_WIFI_PASSWORD: &'static str = r#""
password = ""#;

/// Up to the wireless regulatory country.
pub const TOML_WIFI_COUNTRY: &'static str = r#""
password_encrypted = false
hidden = false
country = ""#;

/// Up to the keyboard map.
pub const TOML_KEYMAP: &'static str = r#""

[locale]
keymap = ""#;

/// Up to the time zone.
pub const TOML_TIMEZONE: &'static str = r#""
timezone = ""#;

/// End of the document.
pub const TOML_END: &'static str = r#""
"#;

/// The first-boot document for a request and an authorized public key.
pub open spec fn first_boot_document(c: FlashConfigView, key: Seq<char>) -> Seq<char> {
    TOML_HEAD@ + hostname_line(c.hostname) + TOML_USER_NAME@ + c.system_username + TOML_USER_PASSWORD@ + c.system_password + TOML_SSH_KEY@ + key + TOML_WIFI_SSID@ + c.wifi_ssid + TOML_WIFI_PASSWORD@ + c.wifi_password + TOML_WIFI_COUNTRY@ + c.wifi_country + TOML_KEYMAP@ + c.keymap + TOML_TIMEZONE@ + c.timezone + TOML_END@
}

/// The host-name line of the first-boot document.
pub open spec fn hostname_line(h: Seq<char>) -> Seq<char> {
    "hostname = \""@ + h + "\""@
}

/// The legacy `user:password` credentials line.
pub open spec fn userconf_line(c: FlashConfigView) -> Seq<char> {
    c.system_username + ":"@ + c.system_password
}

/// Renders the first-boot document.
pub fn first_boot_config(config: &FlashConfig, ssh_public_key: &str) -> (r: String)
    ensures
        r@ == first_boot_document(config@, ssh_public_key@),
{
    let mut doc = String::new();
    push_text(&mut doc, TOML_HEAD);
    push_text(&mut doc, "hostname = \"");
    push_text(&mut doc, config.hostname.as_str());
    push_text(&mut doc, "\"");
    push_text(&mut doc, TOML_USER_NAME);
    push_text(&mut doc, config.system_username.as_str());
    push_text(&mut doc, TOML_USER_PASSWORD);
    push_text(&mut doc, config.system_password.as_str());
    push_text(&mut doc, TOML_SSH_KEY);
    push_text(&mut doc, ssh_public_key);
    push_text(&mut doc, TOML_WIFI_SSID);
    push_text(&mut doc, config.wifi_ssid.as_str());
    push_text(&mut doc, TOML_WIFI_PASSWORD);
    push_text(&mut doc, config.wifi_password.as_str());
    push_text(&mut doc, TOML_WIFI_COUNTRY);
    push_text(&mut doc, config.wifi_country.as_str());
    push_text(&mut doc, TOML_KEYMAP);
    push_text(&mut doc, config.keymap.as_str());
    push_text(&mut doc, TOML_TIMEZONE);
    push_text(&mut doc, config.timezone.as_str());
    push_text(&mut doc, TOML_END);
    assert(doc@ =~= first_boot_document(config@, ssh_public_key@));
    doc
}

/// Renders the legacy credentials file.
pub fn userconf(config: &FlashConfig) -> (r: String)
    ensures
        r@ == userconf_line(config@),
{
    let mut line = String::from_str(config.system_username.as_str());
    push_text(&mut line, ":");
    push_text(&mut line, config.system_password.as_str());
    line
}

/// The first-boot document names the requested host: it holds the line
/// `hostname = "<hostname>"`.
pub proof fn lemma_document_names_host(c: FlashConfigView, key: Seq<char>)
    ensures
        contains_seq(first_boot_document(c, key), hostname_line(c.hostname)),
{
    let doc = first_boot_document(c, key);
    let a = TOML_HEAD@;
    let l = hostname_line(c.hostname);
    let rest = doc.subrange((a.len() + l.len()) as int, doc.len() as int);
    assert(doc =~= a + l + rest);
    assert(doc.subrange(a.len() as int, (a.len() + l.len()) as int) =~= l);
    assert(occurs_at(doc, a.len() as int, l));
}

} // verus!
