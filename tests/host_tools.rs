use jellysetup::disk_info::{candidate_disk_ids, disk_size_from_info, line_size, sd_card_from_info, volume_name_from_info};
use jellysetup::remote_cmd::{compose_write_command, escape_single_quotes, parse_i32, split_exit_code, upload_command, with_exit_code};

const LIST: &str = "/dev/disk0 (internal, physical):
   #:                       TYPE NAME                    SIZE       IDENTIFIER
   0:      GUID_partition_scheme                        *500.3 GB   disk0
/dev/disk3 (synthesized):
   0:      APFS Container Scheme -                      +494.4 GB   disk3
/dev/disk4 (external, physical):
   0:     FDisk_partition_scheme                        *31.9 GB    disk4
/dev/disk11 (external, physical):
   0:     FDisk_partition_scheme                        *63.9 GB    disk11
";

const INFO: &str = "   Device Identifier:         disk4
   Device Node:               /dev/disk4
   Disk Size:                 31.9 GB (31914983424 Bytes)
   Device Block Size:         512 Bytes
";

#[test]
fn physical_disks_listed_without_system_disks() {
    assert_eq!(candidate_disk_ids(LIST), vec!["disk4".to_string(), "disk11".to_string()]);
    assert!(candidate_disk_ids("").is_empty());
}

#[test]
fn disk_size_read_from_info() {
    assert_eq!(disk_size_from_info(INFO), Some(31914983424));
    assert_eq!(disk_size_from_info("Disk Size: unknown"), None);
    assert_eq!(line_size("   Total Size:   1.0 TB (1000204886016 Bytes)"), Some(1000204886016));
    assert_eq!(line_size("   Disk Size: (x Bytes)"), None);
}

#[test]
fn volume_name_read_from_info() {
    assert_eq!(volume_name_from_info("   Volume Name:              bootfs\n"), Some("bootfs".to_string()));
    assert_eq!(volume_name_from_info("   Volume Name:              Not applicable (no file system)\n"), None);
    assert_eq!(volume_name_from_info("   Volume Name:\n"), None);
    assert_eq!(volume_name_from_info("nothing"), None);
}

#[test]
fn cards_built_from_info() {
    let c = sd_card_from_info("disk4", INFO, "   Volume Name: bootfs\n").unwrap();
    assert_eq!(c.path, "/dev/rdisk4");
    assert_eq!(c.name, "bootfs (disk4)");
    assert_eq!(c.size, 31914983424);
    assert!(c.removable);
    let c = sd_card_from_info("disk4", INFO, "").unwrap();
    assert_eq!(c.name, "disk4 - Carte SD");
    assert!(sd_card_from_info("disk5", "Disk Size: 1.0 TB (1000204886016 Bytes)", "").is_none());
    assert!(sd_card_from_info("disk5", "", "").is_none());
}

#[test]
fn quoting_and_uploads() {
    assert_eq!(escape_single_quotes("it's"), "it'\\''s");
    assert_eq!(escape_single_quotes(""), "");
    assert_eq!(
        upload_command("/tmp/a.txt", "x'y"),
        "cat > /tmp/a.txt << 'JELLYSETUP_EOF'\nx'\\''y\nJELLYSETUP_EOF"
    );
    assert_eq!(
        compose_write_command("services: {}"),
        "cat > ~/media-stack/docker-compose.yml << 'EOFCOMPOSE'\nservices: {}\nEOFCOMPOSE"
    );
    assert_eq!(with_exit_code("ls"), "ls; echo \"EXIT_CODE:$?\"");
}

#[test]
fn exit_codes_read_back() {
    assert_eq!(split_exit_code("hello\n EXIT_CODE:0\n"), ("hello".to_string(), 0));
    assert_eq!(split_exit_code("oops\nEXIT_CODE:127"), ("oops".to_string(), 127));
    assert_eq!(split_exit_code("EXIT_CODE:1 EXIT_CODE:x"), ("EXIT_CODE:1".to_string(), -1));
    assert_eq!(split_exit_code(" raw "), (" raw ".to_string(), 0));
    assert_eq!(parse_i32("-2147483648"), Some(i32::MIN));
    assert_eq!(parse_i32("+7"), Some(7));
    assert_eq!(parse_i32("2147483648"), None);
    assert_eq!(parse_i32("-"), None);
}
