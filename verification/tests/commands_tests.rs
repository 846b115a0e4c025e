use nix_install_zfs::commands::{
    banner_lines, capture_failure_message, run_failure_message, start_failure_message,
};
use nix_install_zfs::preflight::{
    check_required_commands, preflight_checks, required_commands, SetupError,
};
use nix_install_zfs::types::{Disk, InstallConfig};

#[test]
fn failure_reports() {
    let args = vec!["-a".to_string(), "/dev/sda".to_string()];
    assert_eq!(
        run_failure_message("wipefs", &args, " out \n", "\nerr\n"),
        "Command failed: wipefs -a /dev/sda\nstdout:\nout\nstderr:\nerr"
    );
    assert_eq!(
        capture_failure_message("lsblk", &args, "  boom "),
        "Command failed: lsblk -a /dev/sda\nboom"
    );
    assert_eq!(capture_failure_message("id", &vec![], ""), "Command failed: id \n");
    assert_eq!(
        start_failure_message("zpool", "No such file or directory (os error 2)"),
        "Failed to execute zpool: No such file or directory (os error 2)"
    );
}

#[test]
fn banner_describes_the_installation() {
    let cfg = InstallConfig {
        disk: Disk { path: "/dev/sdb".to_string(), size: "1T".to_string(), model: "X".to_string() },
        boot_size: "1G".to_string(),
        swap_size: "8G".to_string(),
        passphrase: String::new(),
        enable_encryption: false,
        enable_flakes: true,
        hostname: "nixos".to_string(),
        timezone: "UTC".to_string(),
        keyboard_layout: "us".to_string(),
        username: "nixos".to_string(),
        user_password: "password".to_string(),
        enable_sudo: true,
        root_password: "password".to_string(),
        install_networkmanager: true,
        enable_git: true,
        enable_ssh: false,
        zfs_use_recommended: true,
        zfs_ashift: "12".to_string(),
        zfs_redundancy: "single".to_string(),
        zfs_compression: "lz4".to_string(),
        zfs_primarycache: "all".to_string(),
        zfs_autotrim: true,
    };
    assert_eq!(
        banner_lines(&cfg),
        vec![
            "=== NixOS ZFS Installer (Rust) ===",
            "Target disk: /dev/sdb",
            "Boot size:   1G",
            "Swap size:   8G",
            "Encryption:  disabled",
            "Flakes:      enabled",
            "",
        ]
    );
}

#[test]
fn preflight_order_and_messages() {
    assert_eq!(preflight_checks(true, "0\n", true), Ok(()));
    assert_eq!(preflight_checks(false, "1000", false), Err(SetupError::NotLinux));
    assert_eq!(preflight_checks(true, "1000\n", false), Err(SetupError::NotRoot));
    assert_eq!(preflight_checks(true, " 0 ", false), Err(SetupError::NoUefi));
    assert_eq!(
        SetupError::NotRoot.message(),
        "Please run as root (e.g. sudo nix run ...)"
    );
    assert_eq!(
        SetupError::NoUefi.message(),
        "UEFI mode was not detected. Reboot the installer media in UEFI mode before proceeding."
    );
    assert_eq!(SetupError::NoDisks.message(), "No writable disks were found via lsblk.");
}

#[test]
fn required_tools() {
    let cmds = required_commands();
    assert_eq!(cmds.len(), 18);
    assert_eq!(cmds[0], "id");
    assert_eq!(cmds[17], "udevadm");
    assert_eq!(check_required_commands(&vec![true; 18]), Ok(()));
    let mut found = vec![true; 18];
    found[3] = false;
    found[13] = false;
    let err = check_required_commands(&found).unwrap_err();
    assert_eq!(
        err,
        SetupError::MissingTools { names: vec!["lsblk".to_string(), "zpool".to_string()] }
    );
    assert_eq!(err.message(), "Missing required tools in PATH: lsblk, zpool");
    // Entries past the end of `found` count as missing.
    let err = check_required_commands(&vec![true; 17]).unwrap_err();
    assert_eq!(err.message(), "Missing required tools in PATH: udevadm");
}
