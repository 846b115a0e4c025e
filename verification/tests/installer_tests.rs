use nix_install_zfs::installer::{build_script, Action, Event, InstallError, Installer, Instr};
use nix_install_zfs::types::{Disk, InstallConfig};
use nix_install_zfs::validate::ValidationError;

fn config(encrypted: bool) -> InstallConfig {
    InstallConfig {
        disk: Disk { path: "/dev/sda".to_string(), size: "1T".to_string(), model: "X".to_string() },
        boot_size: "1G".to_string(),
        swap_size: "8G".to_string(),
        passphrase: "hunter22".to_string(),
        enable_encryption: encrypted,
        enable_flakes: true,
        hostname: "nixos".to_string(),
        timezone: "UTC".to_string(),
        keyboard_layout: "us".to_string(),
        username: "nixos".to_string(),
        user_password: "password".to_string(),
        enable_sudo: true,
        root_password: "password".to_string(),
        install_networkmanager: true,
        enable_git: true,
        enable_ssh: false,
        zfs_use_recommended: false,
        zfs_ashift: " 13 ".to_string(),
        zfs_redundancy: "single".to_string(),
        zfs_compression: " ZSTD".to_string(),
        zfs_primarycache: "Metadata".to_string(),
        zfs_autotrim: false,
    }
}

/// A caller whose every step succeeds.
fn reply(a: &Action) -> Event {
    match a {
        Action::QueryPool => Event::PoolStatus(Some("\t/dev/sda3 ONLINE\n".to_string())),
        Action::CheckPath(_) => Event::Exists(true),
        Action::Capture { program, args } if program == "readlink" => {
            Event::Output(format!("{}\n", args[1].replace("/dev/disk/by-partlabel/NIX", "/dev/sda-")))
        }
        Action::Capture { .. } => Event::Output(" 0a1b-2c3d \n".to_string()),
        Action::CreateKeyFile(_) => Event::KeyFile("/tmp/.tmpKEY".to_string()),
        Action::ReadFile(_) => Event::Output("imports = [ ./hardware-configuration.nix ];\n".to_string()),
        _ => Event::Done,
    }
}

fn run_all(m: &mut Installer) -> Vec<Action> {
    let mut seen = Vec::new();
    let mut a = m.advance(Event::Done);
    for _ in 0..1000 {
        if matches!(a, Action::Finished | Action::Aborted(_)) {
            seen.push(a);
            return seen;
        }
        let ev = reply(&a);
        seen.push(a);
        a = m.advance(ev);
    }
    panic!("installation did not end");
}

fn runs(actions: &[Action]) -> Vec<(String, Vec<String>)> {
    actions
        .iter()
        .filter_map(|a| match a {
            Action::Run { program, args } => Some((program.clone(), args.clone())),
            _ => None,
        })
        .collect()
}

#[test]
fn refuses_unsupported_zfs_options() {
    let mut c = config(true);
    c.zfs_redundancy = "raidz1".to_string();
    match Installer::new(&c, "deadbeef".to_string()) {
        Err(InstallError::Invalid(ValidationError::RedundancyUnsupported { value })) => {
            assert_eq!(value, "raidz1")
        }
        other => panic!("unexpected {:?}", other.err()),
    }
    c.zfs_ashift = "20".to_string();
    let e = Installer::new(&c, "deadbeef".to_string()).err().unwrap();
    assert_eq!(e.message(), "ashift must be between 9 and 16.");
}

#[test]
fn encrypted_installation_runs_every_step() {
    let mut m = Installer::new(&config(true), "deadbeef".to_string()).unwrap();
    let actions = run_all(&mut m);
    assert_eq!(actions.first(), Some(&Action::Say("-> Cleaning up prior mounts/swap/pools".to_string())));
    assert_eq!(actions.last(), Some(&Action::Finished));
    // The old pool on this disk is destroyed.
    assert!(actions.contains(&Action::Try {
        program: "zpool".to_string(),
        args: vec!["destroy".to_string(), "-f".to_string(), "zroot".to_string()],
    }));
    let r = runs(&actions);
    assert_eq!(r[1], ("wipefs".to_string(), vec!["-a".to_string(), "/dev/sda".to_string()]));
    assert_eq!(
        r[3].1,
        vec!["-n", "1:0:+1G", "-t", "1:ef00", "-c", "1:NIXBOOT", "/dev/sda"]
    );
    let mkfs = r.iter().find(|(p, _)| p == "mkfs.fat").unwrap();
    assert_eq!(mkfs.1, vec!["-F", "32", "-n", "NIXBOOT", "/dev/disk/by-partlabel/NIXBOOT"]);
    let zpool = r.iter().find(|(p, _)| p == "zpool").unwrap();
    assert_eq!(
        zpool.1,
        vec![
            "create", "-f", "-o", "ashift=13", "-o", "autotrim=off", "-O", "compression=zstd", "-O",
            "acltype=posixacl", "-O", "atime=off", "-O", "xattr=sa", "-O", "normalization=formD", "-O",
            "mountpoint=none", "-O", "primarycache=metadata", "-O", "encryption=aes-256-gcm", "-O",
            "keyformat=passphrase", "-O", "keylocation=file:///tmp/.tmpKEY", "zroot",
            "/dev/disk/by-partlabel/NIXROOT",
        ]
    );
    // The key file holds the passphrase and lives exactly around `zpool create`.
    let k = actions.iter().position(|a| matches!(a, Action::CreateKeyFile(_))).unwrap();
    assert_eq!(actions[k], Action::CreateKeyFile("hunter22\n".to_string()));
    assert!(matches!(&actions[k + 1], Action::Run { program, .. } if program == "zpool"));
    assert_eq!(actions[k + 2], Action::RemoveKeyFile);
    assert!(r.contains(&("zfs".to_string(), vec!["set".to_string(), "keylocation=prompt".to_string(), "zroot".to_string()])));
    // The swap UUID and host id reach zfs.nix.
    let zfs_nix = actions
        .iter()
        .find_map(|a| match a {
            Action::WriteFile { path, contents } if path == "/mnt/etc/nixos/zfs.nix" => Some(contents.clone()),
            _ => None,
        })
        .unwrap();
    assert!(zfs_nix.contains("networking.hostId = \"deadbeef\";"));
    assert!(zfs_nix.contains("/dev/disk/by-partuuid/0a1b-2c3d\";"));
    assert!(actions.contains(&Action::WriteFile {
        path: "/mnt/etc/nixos/configuration.nix".to_string(),
        contents: "imports = [ ./hardware-configuration.nix ./zfs.nix ./system-setup.nix ];\n".to_string(),
    }));
    assert!(actions.contains(&Action::CreateDir("/mnt/boot".to_string())));
    assert_eq!(
        actions[actions.len() - 2],
        Action::Say("Install: nixos-install".to_string())
    );
    // Once finished it stays finished.
    assert_eq!(m.advance(Event::Done), Action::Finished);
}

#[test]
fn unencrypted_installation_has_no_key_file() {
    let mut m = Installer::new(&config(false), "00000000".to_string()).unwrap();
    let actions = run_all(&mut m);
    assert_eq!(actions.last(), Some(&Action::Finished));
    assert!(!actions.iter().any(|a| matches!(a, Action::CreateKeyFile(_) | Action::RemoveKeyFile)));
    let r = runs(&actions);
    let zpool = r.iter().find(|(p, _)| p == "zpool").unwrap();
    assert!(!zpool.1.iter().any(|a| a.starts_with("keylocation") || a.starts_with("encryption")));
    assert!(actions.contains(&Action::Say("-> Creating unencrypted zpool and datasets".to_string())));
    assert!(!r.iter().any(|(p, a)| p == "zfs" && a[0] == "set"));
}

fn advance_to<F: Fn(&Action) -> bool>(m: &mut Installer, stop: F) -> Action {
    let mut a = m.advance(Event::Done);
    for _ in 0..1000 {
        if stop(&a) {
            return a;
        }
        let ev = reply(&a);
        a = m.advance(ev);
    }
    panic!("not reached");
}

#[test]
fn partition_wait_times_out() {
    let mut m = Installer::new(&config(true), "deadbeef".to_string()).unwrap();
    let a = advance_to(&mut m, |a| matches!(a, Action::CheckPath(_)));
    assert_eq!(a, Action::CheckPath("/dev/disk/by-partlabel/NIXBOOT".to_string()));
    let mut a = m.advance(Event::Exists(false));
    let mut settles = 1;
    loop {
        assert_eq!(
            a,
            Action::Try {
                program: "udevadm".to_string(),
                args: vec!["settle".to_string(), "--timeout=1".to_string()],
            }
        );
        let next = m.advance(Event::Done);
        if let Action::Aborted(e) = &next {
            assert_eq!(
                e.message(),
                "Timed out waiting for partition label NIXBOOT to appear on selected disk /dev/sda."
            );
            break;
        }
        assert_eq!(next, Action::CheckPath("/dev/disk/by-partlabel/NIXBOOT".to_string()));
        a = m.advance(Event::Exists(false));
        settles += 1;
    }
    assert_eq!(settles, 40);
}

#[test]
fn partition_on_another_disk_is_not_taken() {
    let mut m = Installer::new(&config(true), "deadbeef".to_string()).unwrap();
    advance_to(&mut m, |a| matches!(a, Action::CheckPath(_)));
    let a = m.advance(Event::Exists(true));
    assert_eq!(
        a,
        Action::Capture {
            program: "readlink".to_string(),
            args: vec!["-f".to_string(), "/dev/disk/by-partlabel/NIXBOOT".to_string()],
        }
    );
    let a = m.advance(Event::Output("/dev/sdb1\n".to_string()));
    assert!(matches!(a, Action::Try { ref program, .. } if program == "udevadm"));
}

#[test]
fn failures_stop_the_installation() {
    let mut m = Installer::new(&config(false), "deadbeef".to_string()).unwrap();
    let a = advance_to(&mut m, |a| matches!(a, Action::Run { program, .. } if program == "wipefs"));
    assert!(matches!(a, Action::Run { .. }));
    let stop = m.advance(Event::Failed("Command failed: wipefs".to_string()));
    assert_eq!(stop, Action::Aborted(InstallError::Io("Command failed: wipefs".to_string())));
    assert_eq!(m.advance(Event::Done), stop);

    let mut m = Installer::new(&config(false), "deadbeef".to_string()).unwrap();
    advance_to(&mut m, |a| matches!(a, Action::Capture { program, .. } if program == "blkid"));
    let stop = m.advance(Event::Output("  \n".to_string()));
    assert_eq!(stop, Action::Aborted(InstallError::NoSwapUuid));

    let mut m = Installer::new(&config(false), "deadbeef".to_string()).unwrap();
    advance_to(&mut m, |a| matches!(a, Action::ReadFile(_)));
    let stop = m.advance(Event::Output("{ }".to_string()));
    assert_eq!(stop, Action::Aborted(InstallError::MissingImport));
    if let Action::Aborted(e) = stop {
        assert_eq!(
            e.message(),
            "Could not find ./hardware-configuration.nix import in configuration.nix; please add ./zfs.nix and ./system-setup.nix manually."
        );
    }

    let mut m = Installer::new(&config(true), "deadbeef".to_string()).unwrap();
    advance_to(&mut m, |a| matches!(a, Action::CreateKeyFile(_)));
    assert_eq!(m.advance(Event::Done), Action::Aborted(InstallError::Protocol));
}

#[test]
fn script_shape() {
    let s = build_script(&config(true));
    assert_eq!(s.len(), 51);
    assert_eq!(s[21], Instr::MakeKeyFile);
    assert_eq!(s[23], Instr::DropKeyFile);
    let s = build_script(&config(false));
    assert_eq!(s.len(), 48);
    assert!(!s.contains(&Instr::MakeKeyFile));
}

#[test]
fn key_file_is_removed_before_an_abort() {
    let mut m = Installer::new(&config(true), "deadbeef".to_string()).unwrap();
    advance_to(&mut m, |a| matches!(a, Action::Run { program, .. } if program == "zpool"));
    let a = m.advance(Event::Failed("Command failed: zpool create".to_string()));
    assert_eq!(a, Action::RemoveKeyFile);
    let end = m.advance(Event::Done);
    assert_eq!(end, Action::Aborted(InstallError::Io("Command failed: zpool create".to_string())));
    assert_eq!(m.advance(Event::Done), end);
}

#[test]
fn abort_without_key_file_is_immediate() {
    let mut m = Installer::new(&config(false), "deadbeef".to_string()).unwrap();
    advance_to(&mut m, |a| matches!(a, Action::Run { program, .. } if program == "zpool"));
    let a = m.advance(Event::Failed("boom".to_string()));
    assert_eq!(a, Action::Aborted(InstallError::Io("boom".to_string())));
}
