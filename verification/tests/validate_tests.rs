use nix_install_zfs::types::{Disk, InstallConfig};
use nix_install_zfs::validate::{
    validate_hostname, validate_keyboard_layout, validate_password, validate_size_input,
    validate_timezone, validate_username, validate_zfs_ashift, validate_zfs_compression,
    validate_zfs_options, validate_zfs_primarycache, validate_zfs_redundancy, ValidationError,
};

fn message(r: Result<(), ValidationError>) -> String {
    r.unwrap_err().message()
}

fn config(ashift: &str, redundancy: &str, compression: &str, cache: &str) -> InstallConfig {
    InstallConfig {
        disk: Disk { path: "/dev/sda".to_string(), size: "1T".to_string(), model: "X".to_string() },
        boot_size: "1G".to_string(),
        swap_size: "8G".to_string(),
        passphrase: String::new(),
        enable_encryption: false,
        enable_flakes: true,
        hostname: "nixos".to_string(),
        timezone: "UTC".to_string(),
        keyboard_layout: "us".to_string(),
        username: "nixos".to_string(),
        user_password: "password1".to_string(),
        enable_sudo: true,
        root_password: "password2".to_string(),
        install_networkmanager: true,
        enable_git: true,
        enable_ssh: false,
        zfs_use_recommended: false,
        zfs_ashift: ashift.to_string(),
        zfs_redundancy: redundancy.to_string(),
        zfs_compression: compression.to_string(),
        zfs_primarycache: cache.to_string(),
        zfs_autotrim: true,
    }
}

#[test]
fn sizes_from_the_examples_are_accepted() {
    for s in ["512M", "1G", "16G", "2T", "64K"] {
        assert_eq!(validate_size_input(s, "Boot"), Ok(()), "{s}");
    }
}

#[test]
fn malformed_sizes_are_refused_with_the_label() {
    for s in ["", "0G", "1g", "1", "G", "1.5G", "01G", " 1G", "1GB"] {
        assert_eq!(
            message(validate_size_input(s, "Swap")),
            "Swap size must match pattern like 512M, 1G, 16G."
        );
    }
}

#[test]
fn hostnames() {
    assert_eq!(validate_hostname("nixos"), Ok(()));
    assert_eq!(validate_hostname("  server-01 "), Ok(()));
    assert_eq!(validate_hostname(&"a".repeat(63)), Ok(()));
    assert_eq!(message(validate_hostname("   ")), "Hostname cannot be empty.");
    assert_eq!(
        message(validate_hostname("-bad")),
        "Hostname must use letters, digits, or '-', and start with a letter/digit."
    );
    assert!(validate_hostname(&"a".repeat(64)).is_err());
    assert!(validate_hostname("my_host").is_err());
}

#[test]
fn timezones() {
    assert_eq!(validate_timezone("Europe/Berlin"), Ok(()));
    assert_eq!(validate_timezone(" UTC "), Ok(()));
    assert_eq!(message(validate_timezone("")), "Timezone cannot be empty.");
    assert_eq!(
        message(validate_timezone("New York")),
        "Timezone must not contain spaces (example: Europe/Berlin)."
    );
}

#[test]
fn keyboard_layouts() {
    assert_eq!(validate_keyboard_layout("de"), Ok(()));
    assert_eq!(validate_keyboard_layout("us_intl-alt"), Ok(()));
    assert_eq!(message(validate_keyboard_layout(" ")), "Keyboard layout cannot be empty.");
    assert_eq!(
        message(validate_keyboard_layout("de,us")),
        "Keyboard layout must use letters, digits, '_' or '-'."
    );
}

#[test]
fn usernames() {
    assert_eq!(validate_username("alice"), Ok(()));
    assert_eq!(validate_username("_svc-01"), Ok(()));
    assert_eq!(message(validate_username("")), "Username cannot be empty.");
    assert_eq!(
        message(validate_username("Alice")),
        "Username must start with a-z/_ and contain only a-z, 0-9, '_' or '-'."
    );
    assert!(validate_username("1abc").is_err());
}

#[test]
fn passwords_count_bytes() {
    assert_eq!(validate_password("12345678", "User password"), Ok(()));
    assert_eq!(
        message(validate_password("1234567", "Root password")),
        "Root password must be at least 8 characters."
    );
    // Four two-byte characters make eight bytes.
    assert_eq!(validate_password("éééé", "User password"), Ok(()));
}

#[test]
fn ashift_values() {
    assert_eq!(validate_zfs_ashift("12"), Ok(()));
    assert_eq!(validate_zfs_ashift(" 9 "), Ok(()));
    assert_eq!(validate_zfs_ashift("16"), Ok(()));
    assert_eq!(validate_zfs_ashift("+13"), Ok(()));
    assert_eq!(message(validate_zfs_ashift("8")), "ashift must be between 9 and 16.");
    assert_eq!(message(validate_zfs_ashift("255")), "ashift must be between 9 and 16.");
    assert_eq!(message(validate_zfs_ashift("256")), "ashift must be a number between 9 and 16.");
    assert_eq!(message(validate_zfs_ashift("abc")), "ashift must be a number between 9 and 16.");
    assert_eq!(message(validate_zfs_ashift("")), "ashift must be a number between 9 and 16.");
}

#[test]
fn zfs_words() {
    assert_eq!(validate_zfs_redundancy(" Mirror "), Ok(()));
    assert_eq!(validate_zfs_redundancy("raidz3"), Ok(()));
    assert_eq!(
        message(validate_zfs_redundancy("raid5")),
        "Redundancy must be one of: single, mirror, raidz1, raidz2, raidz3."
    );
    assert_eq!(validate_zfs_compression("ZSTD"), Ok(()));
    assert_eq!(
        message(validate_zfs_compression("lzo")),
        "Compression must be one of: lz4, zstd, gzip, zle, on, off."
    );
    assert_eq!(validate_zfs_primarycache("metadata"), Ok(()));
    assert_eq!(
        message(validate_zfs_primarycache("some")),
        "Primary cache must be one of: all, metadata, none."
    );
}

#[test]
fn zfs_options_accept_only_the_single_layout() {
    assert_eq!(validate_zfs_options(&config("12", "single", "lz4", "all")), Ok(()));
    assert_eq!(validate_zfs_options(&config("12", " SINGLE ", "lz4", "all")), Ok(()));
    assert_eq!(
        message(validate_zfs_options(&config("12", "mirror", "lz4", "all"))),
        "Selected redundancy 'mirror' requires multi-disk pool setup, which is not yet supported in this installer mode. Use 'single'."
    );
    assert_eq!(
        validate_zfs_options(&config("7", "mirror", "bad", "bad")),
        Err(ValidationError::AshiftOutOfRange)
    );
    assert_eq!(
        validate_zfs_options(&config("12", "single", "bad", "bad")),
        Err(ValidationError::CompressionUnknown)
    );
    assert_eq!(
        validate_zfs_options(&config("12", "single", "lz4", "bad")),
        Err(ValidationError::PrimaryCacheUnknown)
    );
}

#[test]
fn duplicate_keeps_the_refusal() {
    let e = ValidationError::SizeFormat { label: "Boot".to_string() };
    assert_eq!(e.duplicate(), e);
}
