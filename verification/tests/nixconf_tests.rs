use nix_install_zfs::nixconf::{
    find, host_id_from_bytes, nix_escape, patch_configuration, random_host_id, setup_module_text,
    zfs_module_text,
};
use nix_install_zfs::types::{Disk, InstallConfig};

fn config() -> InstallConfig {
    InstallConfig {
        disk: Disk { path: "/dev/nvme0n1".to_string(), size: "1T".to_string(), model: "X".to_string() },
        boot_size: "1G".to_string(),
        swap_size: "8G".to_string(),
        passphrase: "correct horse".to_string(),
        enable_encryption: true,
        enable_flakes: true,
        hostname: "box".to_string(),
        timezone: "Europe/Berlin".to_string(),
        keyboard_layout: "de".to_string(),
        username: "al\"ice".to_string(),
        user_password: "p\\ss\"word".to_string(),
        enable_sudo: true,
        root_password: "rootpass".to_string(),
        install_networkmanager: false,
        enable_git: true,
        enable_ssh: false,
        zfs_use_recommended: true,
        zfs_ashift: "12".to_string(),
        zfs_redundancy: "single".to_string(),
        zfs_compression: "lz4".to_string(),
        zfs_primarycache: "all".to_string(),
        zfs_autotrim: true,
    }
}

#[test]
fn escapes_backslashes_and_quotes() {
    assert_eq!(nix_escape("plain"), "plain");
    assert_eq!(nix_escape("a\"b"), "a\\\"b");
    assert_eq!(nix_escape("a\\b"), "a\\\\b");
    assert_eq!(nix_escape("\\\""), "\\\\\\\"");
    assert_eq!(nix_escape(""), "");
}

#[test]
fn escaping_reads_back_in_a_nix_string() {
    // Decoding the escaped text as the body of a Nix string gives the input back.
    let input = "we\\ird\"pa$$word";
    let escaped = nix_escape(input);
    let mut decoded = String::new();
    let mut chars = escaped.chars();
    while let Some(c) = chars.next() {
        if c == '\\' {
            decoded.push(chars.next().unwrap());
        } else {
            decoded.push(c);
        }
    }
    assert_eq!(decoded, input);
}

#[test]
fn zfs_module_names_host_and_swap() {
    let text = zfs_module_text("deadbeef", "1234-abcd");
    assert!(text.starts_with("{ config, pkgs, ... }:\n\n{\n  boot.loader.systemd-boot.enable = true;\n"));
    assert!(text.contains("  networking.hostId = \"deadbeef\";\n"));
    assert!(text.contains("    device = \"/dev/disk/by-partuuid/1234-abcd\";\n"));
    assert!(text.contains("  boot.loader.grub.enable = pkgs.lib.mkForce false;\n"));
    assert!(text.ends_with("    randomEncryption.enable = true;\n  } ];\n}\n"));
}

#[test]
fn setup_module_escapes_values() {
    let text = setup_module_text(&config());
    assert!(text.contains("  networking.hostName = \"box\";\n"));
    assert!(text.contains("  time.timeZone = \"Europe/Berlin\";\n"));
    assert!(text.contains("  services.xserver.xkb.layout = \"de\";\n  console.keyMap = \"de\";\n"));
    assert!(text.contains("  nix.settings.experimental-features = [ \"nix-command\" \"flakes\" ];\n"));
    assert!(text.contains("  networking.networkmanager.enable = false;\n"));
    assert!(text.contains("  programs.git.enable = true;\n"));
    assert!(text.contains("  users.users.\"al\\\"ice\" = {\n"));
    assert!(text.contains("    extraGroups = [ \"wheel\" ];\n"));
    assert!(text.contains("    initialPassword = \"p\\\\ss\\\"word\";\n"));
    assert!(text.contains("  users.users.root.initialPassword = \"rootpass\";\n"));
}

#[test]
fn setup_module_without_flakes_or_sudo() {
    let mut c = config();
    c.enable_flakes = false;
    c.enable_sudo = false;
    let text = setup_module_text(&c);
    assert!(!text.contains("experimental-features"));
    assert!(text.contains("    extraGroups = [ ];\n"));
    assert!(text.contains("  console.keyMap = \"de\";\n  networking.networkmanager.enable"));
}

#[test]
fn finds_first_occurrence() {
    assert_eq!(find("abcabc", "bc"), Some(1));
    assert_eq!(find("abc", "x"), None);
    assert_eq!(find("abc", ""), Some(0));
    assert_eq!(find("", "a"), None);
}

#[test]
fn patches_the_first_hardware_import() {
    let input = "imports =\n  [ ./hardware-configuration.nix\n  ];\n# ./hardware-configuration.nix\n";
    let out = patch_configuration(input).unwrap();
    assert_eq!(
        out,
        "imports =\n  [ ./hardware-configuration.nix ./zfs.nix ./system-setup.nix\n  ];\n# ./hardware-configuration.nix\n"
    );
    assert_eq!(patch_configuration("{ imports = [ ]; }"), None);
}

#[test]
fn host_id_is_lower_hex() {
    assert_eq!(host_id_from_bytes([0xde, 0xad, 0xbe, 0xef]), "deadbeef");
    assert_eq!(host_id_from_bytes([0, 1, 0x0a, 0xff]), "00010aff");
    let id = random_host_id();
    assert_eq!(id.len(), 8);
    assert!(id.chars().all(|c| c.is_ascii_hexdigit() && !c.is_ascii_uppercase()));
}

#[test]
fn ssh_answer_enables_openssh() {
    let mut c = config();
    let without = setup_module_text(&c);
    assert!(!without.contains("openssh"));
    c.enable_ssh = true;
    let with = setup_module_text(&c);
    assert!(with.contains("  programs.git.enable = true;\n  services.openssh.enable = true;\n\n  users.users."));
    assert_eq!(with.replace("  services.openssh.enable = true;\n", ""), without);
}
