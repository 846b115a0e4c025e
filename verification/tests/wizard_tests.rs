use nix_install_zfs::installer::{InstallError, Installer};
use nix_install_zfs::preflight::SetupError;
use nix_install_zfs::types::{Disk, FinalAction};
use nix_install_zfs::validate::ValidationError;
use nix_install_zfs::wizard::{App, Key, KeyOutcome, Panel, Screen};

fn disks() -> Vec<Disk> {
    vec![
        Disk { path: "/dev/sda".to_string(), size: "500G".to_string(), model: "SSD".to_string() },
        Disk { path: "/dev/sdb".to_string(), size: "1T".to_string(), model: "HDD".to_string() },
    ]
}

fn typ(app: &mut App, text: &str) {
    for c in text.chars() {
        assert_eq!(app.handle_key(Key::Char(c)), KeyOutcome::Continue);
    }
}

fn enter(app: &mut App) -> KeyOutcome {
    app.handle_key(Key::Enter)
}

fn clear(app: &mut App) {
    for _ in 0..40 {
        app.handle_key(Key::Backspace);
    }
}

/// Walks from the start to the programs screen with the default answers,
/// encryption on and the given passphrase.
fn to_features(app: &mut App) {
    app.handle_key(Key::Down);
    enter(app); // disk
    enter(app); // boot 1G
    enter(app); // swap 8G
    assert_eq!(app.screen(), Screen::EncryptionChoice);
    enter(app); // yes
    typ(app, "hunter22");
    enter(app);
    typ(app, "hunter22");
    enter(app);
    assert_eq!(app.screen(), Screen::FlakesChoice);
    enter(app); // flakes yes
    enter(app); // recommended ZFS
    assert_eq!(app.screen(), Screen::Hostname);
    enter(app);
    enter(app);
    enter(app);
    enter(app); // username nixos
    typ(app, "userpass");
    enter(app);
    typ(app, "userpass");
    enter(app);
    enter(app); // sudo yes
    typ(app, "rootpass");
    enter(app);
    typ(app, "rootpass");
    enter(app);
    enter(app); // NetworkManager yes
    assert_eq!(app.screen(), Screen::FeatureToggles);
}

#[test]
fn fresh_wizard_starts_on_the_disk_list() {
    let app = App::new(disks());
    assert_eq!(app.screen(), Screen::DiskSelect);
    assert_eq!(app.status(), "Select installation disk with arrow keys, Enter to continue.");
    assert_eq!(app.panel(), Panel::Disks { disks: disks(), selected: 0 });
}

#[test]
fn disk_cursor_stays_in_range() {
    let mut app = App::new(disks());
    app.handle_key(Key::Up);
    app.handle_key(Key::Down);
    app.handle_key(Key::Down);
    app.handle_key(Key::Down);
    assert_eq!(app.panel(), Panel::Disks { disks: disks(), selected: 1 });
    assert_eq!(app.handle_key(Key::Char('q')), KeyOutcome::Finish(FinalAction::Exit));
}

#[test]
fn sizes_are_upper_cased_and_checked() {
    let mut app = App::new(disks());
    enter(&mut app);
    assert_eq!(app.status(), "Step 2/7: Set EFI boot partition size, then press Enter.");
    clear(&mut app);
    typ(&mut app, "512m");
    assert_eq!(
        app.panel(),
        Panel::Value {
            title: "Step 2/7 - Boot Partition".to_string(),
            prompt: "Enter boot partition size (examples: 512M, 1G, 2G).".to_string(),
            value: "512M".to_string(),
        }
    );
    app.handle_key(Key::Char('\u{7}'));
    app.handle_key(Key::Char('x'));
    enter(&mut app);
    assert_eq!(app.screen(), Screen::BootSize);
    assert_eq!(app.status(), "Boot size must match pattern like 512M, 1G, 16G.");
    app.handle_key(Key::Backspace);
    enter(&mut app);
    assert_eq!(app.screen(), Screen::SwapSize);
    app.handle_key(Key::Esc);
    assert_eq!(app.screen(), Screen::BootSize);
}

#[test]
fn passphrase_is_masked_and_checked() {
    let mut app = App::new(disks());
    enter(&mut app);
    enter(&mut app);
    enter(&mut app);
    enter(&mut app);
    assert_eq!(app.screen(), Screen::Passphrase);
    typ(&mut app, "short");
    assert_eq!(
        app.panel(),
        Panel::Value {
            title: "Step 5/7 - Encryption Passphrase".to_string(),
            prompt: "Enter passphrase (minimum 8 characters).".to_string(),
            value: "*****".to_string(),
        }
    );
    enter(&mut app);
    assert_eq!(app.status(), "Passphrase must be at least 8 characters.");
    typ(&mut app, "er!");
    enter(&mut app);
    assert_eq!(app.screen(), Screen::PassphraseConfirm);
    typ(&mut app, "shorter?");
    enter(&mut app);
    assert_eq!(app.status(), "Passphrase and confirmation do not match.");
    app.handle_key(Key::Backspace);
    typ(&mut app, "!");
    enter(&mut app);
    assert_eq!(app.screen(), Screen::FlakesChoice);
    assert_eq!(app.status(), "Step 7/7: Choose whether to enable flakes by default.");
}

#[test]
fn declining_encryption_skips_the_passphrase() {
    let mut app = App::new(disks());
    enter(&mut app);
    enter(&mut app);
    enter(&mut app);
    app.handle_key(Key::Right);
    assert_eq!(
        app.panel(),
        Panel::YesNo {
            title: "Step 4/7 - Encryption".to_string(),
            prompt: "Enable ZFS root encryption?".to_string(),
            yes_selected: false,
        }
    );
    enter(&mut app);
    assert_eq!(app.screen(), Screen::FlakesChoice);
    app.handle_key(Key::Esc);
    assert_eq!(app.screen(), Screen::EncryptionChoice);
}

#[test]
fn advanced_zfs_fields() {
    let mut app = App::new(disks());
    for _ in 0..3 {
        enter(&mut app);
    }
    app.handle_key(Key::Tab);
    enter(&mut app); // no encryption
    enter(&mut app); // flakes
    app.handle_key(Key::Left);
    enter(&mut app); // advanced
    assert_eq!(app.screen(), Screen::ZfsAshift);
    assert_eq!(app.status(), "Advanced ZFS: set ashift (recommended 12 for 4K sector disks).");
    clear(&mut app);
    typ(&mut app, "x2a0");
    enter(&mut app);
    assert_eq!(app.status(), "ashift must be between 9 and 16.");
    clear(&mut app);
    typ(&mut app, "13");
    enter(&mut app);
    assert_eq!(app.screen(), Screen::ZfsRedundancy);
    clear(&mut app);
    typ(&mut app, "MIRROR");
    enter(&mut app);
    assert_eq!(app.screen(), Screen::ZfsCompression);
    clear(&mut app);
    typ(&mut app, "Zstd");
    enter(&mut app);
    clear(&mut app);
    typ(&mut app, "NONE");
    enter(&mut app);
    assert_eq!(app.screen(), Screen::ZfsAutotrimChoice);
    app.handle_key(Key::Up);
    enter(&mut app);
    assert_eq!(app.screen(), Screen::Hostname);
    app.handle_key(Key::Esc);
    assert_eq!(app.screen(), Screen::ZfsAutotrimChoice);
    assert_eq!(
        app.panel(),
        Panel::YesNo {
            title: "ZFS - Autotrim".to_string(),
            prompt: "Enable autotrim? Recommended for SSD/NVMe, usually disabled for HDD-only pools."
                .to_string(),
            yes_selected: false,
        }
    );
    app.handle_key(Key::Esc);
    assert_eq!(
        app.panel(),
        Panel::Value {
            title: "ZFS - Caching".to_string(),
            prompt: "Set primarycache: all (default), metadata, or none.".to_string(),
            value: "none".to_string(),
        }
    );
}

#[test]
fn full_run_installs_the_answers() {
    let mut app = App::new(disks());
    to_features(&mut app);
    assert_eq!(
        app.panel(),
        Panel::Features {
            rows: vec!["Git: [ON]".to_string(), "SSH: [OFF]".to_string(), "Continue".to_string()],
            selected: 0,
        }
    );
    app.handle_key(Key::Down);
    app.handle_key(Key::Char(' '));
    app.handle_key(Key::Down);
    app.handle_key(Key::Down);
    assert_eq!(enter(&mut app), KeyOutcome::InspectDisk("/dev/sdb".to_string()));
    app.finish_disk_inspection(vec!["Disk is busy.".to_string()], false);
    assert_eq!(app.screen(), Screen::FinalConfirm);
    assert_eq!(app.status(), "Final confirmation. Use arrows and Enter (or F10) to continue.");
    match app.panel() {
        Panel::Final { summary, warnings, proceed_selected } => {
            assert_eq!(summary[0], "Disk: /dev/sdb (1T, HDD)");
            assert_eq!(summary[3], "Encryption: enabled");
            assert_eq!(summary[12], "SSH: enabled");
            assert_eq!(summary[13], "ZFS profile: recommended");
            assert_eq!(summary[18], "ZFS autotrim: on");
            assert_eq!(summary.len(), 19);
            assert_eq!(warnings, vec!["- Disk is busy.".to_string()]);
            assert!(proceed_selected);
        }
        other => panic!("unexpected {other:?}"),
    }
    match enter(&mut app) {
        KeyOutcome::Finish(FinalAction::Install(cfg)) => {
            assert_eq!(cfg.disk.path, "/dev/sdb");
            assert_eq!(cfg.passphrase, "hunter22");
            assert!(cfg.enable_encryption);
            assert_eq!(cfg.user_password, "userpass");
            assert_eq!(cfg.root_password, "rootpass");
            assert!(cfg.enable_ssh);
            assert!(cfg.enable_git);
            assert_eq!(cfg.zfs_ashift, "12");
            assert_eq!(cfg.zfs_redundancy, "single");
            assert_eq!(cfg.zfs_compression, "lz4");
            assert_eq!(cfg.zfs_primarycache, "all");
            assert!(cfg.zfs_autotrim);
            assert_eq!(cfg.hostname, "nixos");
            assert_eq!(cfg, app.build_install_config());
        }
        other => panic!("unexpected {other:?}"),
    }
}

#[test]
fn continue_shortcut_and_existing_installation() {
    let mut app = App::new(disks());
    to_features(&mut app);
    assert_eq!(app.handle_key(Key::Char('C')), KeyOutcome::InspectDisk("/dev/sdb".to_string()));
    app.finish_disk_inspection(vec![], true);
    assert_eq!(app.screen(), Screen::ExistingConfirm);
    assert_eq!(
        app.panel(),
        Panel::Existing { disk_line: "Disk: /dev/sdb (1T, HDD)".to_string(), overwrite_selected: true }
    );
    app.handle_key(Key::Left);
    assert_eq!(enter(&mut app), KeyOutcome::Finish(FinalAction::Exit));
}

#[test]
fn overwrite_then_cancel() {
    let mut app = App::new(disks());
    to_features(&mut app);
    app.handle_key(Key::Char('c'));
    app.finish_disk_inspection(vec![], true);
    app.handle_key(Key::Char('o'));
    assert_eq!(app.screen(), Screen::FinalConfirm);
    assert_eq!(app.status(), "Overwrite confirmed. Use arrows and Enter (or F10) to continue.");
    app.handle_key(Key::Down);
    assert_eq!(enter(&mut app), KeyOutcome::Finish(FinalAction::Exit));
    assert!(matches!(app.handle_key(Key::F(10)), KeyOutcome::Finish(FinalAction::Install(_))));
    assert_eq!(app.handle_key(Key::Esc), KeyOutcome::Finish(FinalAction::Exit));
}

#[test]
fn keep_exits_at_once() {
    let mut app = App::new(disks());
    to_features(&mut app);
    app.handle_key(Key::Char('c'));
    app.finish_disk_inspection(vec![], true);
    assert_eq!(app.handle_key(Key::Char('k')), KeyOutcome::Finish(FinalAction::Exit));
}

#[test]
fn backspace_undoes_typing() {
    let mut app = App::new(disks());
    for _ in 0..4 {
        enter(&mut app);
    }
    typ(&mut app, "abcdefgh");
    app.handle_key(Key::Char('z'));
    app.handle_key(Key::Backspace);
    enter(&mut app);
    typ(&mut app, "abcdefgh");
    enter(&mut app);
    assert_eq!(app.screen(), Screen::FlakesChoice);
}

#[test]
fn mismatched_user_password_is_refused() {
    let mut app = App::new(disks());
    for _ in 0..3 {
        enter(&mut app);
    }
    app.handle_key(Key::Down);
    enter(&mut app);
    enter(&mut app);
    enter(&mut app);
    for _ in 0..4 {
        enter(&mut app);
    }
    assert_eq!(app.screen(), Screen::UserPassword);
    typ(&mut app, "abc");
    enter(&mut app);
    assert_eq!(app.status(), "User password must be at least 8 characters.");
    typ(&mut app, "defgh");
    enter(&mut app);
    typ(&mut app, "abcdefgX");
    enter(&mut app);
    assert_eq!(app.status(), "User password and confirmation do not match.");
    app.handle_key(Key::Esc);
    assert_eq!(
        app.panel(),
        Panel::Value {
            title: "User - Password".to_string(),
            prompt: "Enter password for the initial user account.".to_string(),
            value: "********".to_string(),
        }
    );
}

#[test]
fn invalid_hostname_stays() {
    let mut app = App::new(disks());
    for _ in 0..3 {
        enter(&mut app);
    }
    app.handle_key(Key::Down);
    for _ in 0..3 {
        enter(&mut app);
    }
    assert_eq!(app.screen(), Screen::Hostname);
    clear(&mut app);
    typ(&mut app, "-x");
    enter(&mut app);
    assert_eq!(
        app.status(),
        "Hostname must use letters, digits, or '-', and start with a letter/digit."
    );
    clear(&mut app);
    enter(&mut app);
    assert_eq!(app.status(), "Hostname cannot be empty.");
    app.handle_key(Key::Esc);
    assert_eq!(app.screen(), Screen::ZfsModeChoice);
}

#[test]
fn confirmed_answers_reach_the_installer() {
    let mut app = App::new(disks());
    to_features(&mut app);
    app.handle_key(Key::Char('c'));
    app.finish_disk_inspection(vec![], false);
    let cfg = match app.handle_key(Key::F(10)) {
        KeyOutcome::Finish(FinalAction::Install(cfg)) => cfg,
        other => panic!("unexpected {other:?}"),
    };
    assert!(Installer::new(&cfg, "deadbeef".to_string()).is_ok());

    let mut mirrored = cfg.clone();
    mirrored.zfs_redundancy = "mirror".to_string();
    match Installer::new(&mirrored, "deadbeef".to_string()) {
        Err(InstallError::Invalid(ValidationError::RedundancyUnsupported { value })) => {
            assert_eq!(value, "mirror")
        }
        Err(e) => panic!("unexpected {e:?}"),
        Ok(_) => panic!("accepted a mirror"),
    }
}

#[test]
fn no_disks_no_wizard() {
    assert!(matches!(App::open(vec![]), Err(SetupError::NoDisks)));
    let app = App::open(disks()).ok().unwrap();
    assert_eq!(app.screen(), Screen::DiskSelect);
}

#[test]
fn disk_list_handler() {
    let mut app = App::new(disks());
    assert_eq!(app.handle_disk_key(Key::Down), KeyOutcome::Continue);
    assert_eq!(app.handle_disk_key(Key::Down), KeyOutcome::Continue);
    assert_eq!(app.panel(), Panel::Disks { disks: disks(), selected: 1 });
    app.handle_disk_key(Key::Up);
    app.handle_disk_key(Key::Up);
    assert_eq!(app.panel(), Panel::Disks { disks: disks(), selected: 0 });
    assert_eq!(app.handle_disk_key(Key::Esc), KeyOutcome::Finish(FinalAction::Exit));
    assert_eq!(app.handle_disk_key(Key::Enter), KeyOutcome::Continue);
    assert_eq!(app.screen(), Screen::BootSize);
}

#[test]
fn feature_toggle_handler() {
    let mut app = App::new(disks());
    to_features(&mut app);
    assert_eq!(app.handle_feature_toggles_key(Key::Up), KeyOutcome::Continue);
    app.handle_feature_toggles_key(Key::Enter);
    app.handle_feature_toggles_key(Key::Down);
    app.handle_feature_toggles_key(Key::Tab);
    app.handle_feature_toggles_key(Key::Down);
    app.handle_feature_toggles_key(Key::Down);
    app.handle_feature_toggles_key(Key::Left);
    assert_eq!(
        app.panel(),
        Panel::Features {
            rows: vec!["Git: [OFF]".to_string(), "SSH: [ON]".to_string(), "Continue".to_string()],
            selected: 2,
        }
    );
    assert_eq!(app.screen(), Screen::FeatureToggles);
}
