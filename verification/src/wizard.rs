//! The setup wizard as a state machine: each key press moves it to its next
//! state, and the caller draws the screen the state describes. Looking at the
//! chosen disk (for warnings and earlier installations) is the caller's work,
//! requested by an outcome and reported back.
use vstd::prelude::*;
use vstd::string::*;

use crate::disks::{disk_views, text_views};
use crate::preflight::SetupError;
use crate::text::{is_control, is_ctrl, is_ws, lowercase, trim_end, trim_start, trimmed, lower, owned, pop_char, push_char, str_eq, to_lower, to_upper, upper};
use crate::types::{Disk, DiskView, FinalAction, FinalActionView, InstallConfig, InstallConfigView};
use crate::validate::{
    decimal, normalized, zfs_options_check, validate_hostname, validate_keyboard_layout, validate_password, validate_size_input,
    validate_timezone, validate_username, validate_zfs_ashift, validate_zfs_compression,
    validate_zfs_primarycache, validate_zfs_redundancy, ValidationError, ValidationErrorView,
    ashift_check, byte_len, compression_check, error_message, hostname_check,
    keyboard_layout_check, password_check, primarycache_check, redundancy_check, size_check,
    timezone_check, username_check,
};

verus! {

/// The wizard's screens, in the order a complete run visits them.
#[derive(Clone, Copy, Debug, PartialEq, Eq, Structural)]
pub enum Screen {
    DiskSelect,
    BootSize,
    SwapSize,
    EncryptionChoice,
    Passphrase,
    PassphraseConfirm,
    FlakesChoice,
    ZfsModeChoice,
    ZfsAshift,
    ZfsRedundancy,
    ZfsCompression,
    ZfsCaching,
    ZfsAutotrimChoice,
    Hostname,
    Timezone,
    KeyboardLayout,
    Username,
    UserPassword,
    UserPasswordConfirm,
    EnableSudoChoice,
    RootPassword,
    RootPasswordConfirm,
    NetworkManagerChoice,
    FeatureToggles,
    ExistingConfirm,
    FinalConfirm,
}

/// A key press, as far as the wizard tells keys apart.
#[derive(Clone, Copy, Debug, PartialEq, Eq, Structural)]
pub enum Key {
    Char(char),
    Esc,
    Enter,
    Backspace,
    Up,
    Down,
    Left,
    Right,
    Tab,
    F(u8),
    Other,
}

/// What a key press leads to.
#[derive(Debug, PartialEq, Eq)]
pub enum KeyOutcome {
    /// The wizard goes on.
    Continue,
    /// The wizard is over.
    Finish(FinalAction),
    /// The caller is to inspect the disk at the path and report with
    /// [`App::finish_disk_inspection`].
    InspectDisk(String),
}

pub enum KeyOutcomeView {
    Continue,
    Finish(FinalActionView),
    InspectDisk(Seq<char>),
}

impl View for KeyOutcome {
    type V = KeyOutcomeView;

    open spec fn view(&self) -> KeyOutcomeView {
        match self {
            KeyOutcome::Continue => KeyOutcomeView::Continue,
            KeyOutcome::Finish(a) => KeyOutcomeView::Finish(a@),
            KeyOutcome::InspectDisk(p) => KeyOutcomeView::InspectDisk(p@),
        }
    }
}

/// How typed characters enter a text field.
#[derive(Clone, Copy, Debug, PartialEq, Eq)]
pub enum Typing {
    /// Printable characters as typed.
    Plain,
    /// Printable characters, ASCII letters upper-cased.
    Upper,
    /// Printable characters, ASCII letters lower-cased.
    Lower,
    /// ASCII digits only.
    Digits,
}

/// A text field after a key: Backspace removes the last character, an
/// accepted character is appended, anything else leaves the field as it is.
pub open spec fn typed(v: Seq<char>, k: Key, t: Typing) -> Seq<char> {
    match k {
        Key::Backspace => if v.len() > 0 {
            v.drop_last()
        } else {
            v
        },
        Key::Char(c) => match t {
            Typing::Digits => if '0' <= c && c <= '9' {
                v.push(c)
            } else {
                v
            },
            Typing::Upper => if !is_ctrl(c) {
                v.push(upper(c))
            } else {
                v
            },
            Typing::Lower => if !is_ctrl(c) {
                v.push(lower(c))
            } else {
                v
            },
            Typing::Plain => if !is_ctrl(c) {
                v.push(c)
            } else {
                v
            },
        },
        _ => v,
    }
}

/// The keys that flip a two-way choice.
pub open spec fn flips(k: Key) -> bool {
    k == Key::Left || k == Key::Right || k == Key::Up || k == Key::Down || k == Key::Tab
}

/// The wizard's state.
pub struct AppView {
    pub disks: Seq<DiskView>,
    pub selected_disk: nat,
    pub screen: Screen,
    pub boot_size: Seq<char>,
    pub swap_size: Seq<char>,
    pub enable_encryption: bool,
    pub passphrase: Seq<char>,
    pub passphrase_confirm: Seq<char>,
    pub enable_flakes: bool,
    pub hostname: Seq<char>,
    pub timezone: Seq<char>,
    pub keyboard_layout: Seq<char>,
    pub username: Seq<char>,
    pub user_password: Seq<char>,
    pub user_password_confirm: Seq<char>,
    pub enable_sudo: bool,
    pub root_password: Seq<char>,
    pub root_password_confirm: Seq<char>,
    pub install_networkmanager: bool,
    pub enable_git: bool,
    pub enable_ssh: bool,
    pub feature_toggle_selected: nat,
    pub zfs_use_recommended: bool,
    pub zfs_ashift: Seq<char>,
    pub zfs_redundancy: Seq<char>,
    pub zfs_compression: Seq<char>,
    pub zfs_primarycache: Seq<char>,
    pub zfs_autotrim: bool,
    pub existing_found: bool,
    pub choice_yes_selected: bool,
    pub existing_overwrite_selected: bool,
    pub final_proceed_selected: bool,
    pub warnings: Seq<Seq<char>>,
    pub status: Seq<char>,
}

/// Moving to a screen with its status line.
pub open spec fn go(st: AppView, screen: Screen, status: Seq<char>) -> AppView {
    AppView { screen, status, ..st }
}

/// Staying on the screen with a new status line.
pub open spec fn say(st: AppView, status: Seq<char>) -> AppView {
    AppView { status, ..st }
}

/// Moving to a yes/no screen whose choice starts at `yes`.
pub open spec fn ask(st: AppView, screen: Screen, yes: bool, status: Seq<char>) -> AppView {
    AppView { choice_yes_selected: yes, ..go(st, screen, status) }
}

pub open spec fn stay(st: AppView) -> (AppView, KeyOutcomeView) {
    (st, KeyOutcomeView::Continue)
}

pub open spec fn exit(st: AppView) -> (AppView, KeyOutcomeView) {
    (st, KeyOutcomeView::Finish(FinalActionView::Exit))
}

pub open spec fn flip(st: AppView) -> AppView {
    AppView { choice_yes_selected: !st.choice_yes_selected, ..st }
}

/// The configuration the wizard's answers describe.
pub open spec fn config_of(st: AppView) -> InstallConfigView {
    InstallConfigView {
        disk: st.disks[st.selected_disk as int],
        boot_size: st.boot_size,
        swap_size: st.swap_size,
        passphrase: st.passphrase,
        enable_encryption: st.enable_encryption,
        enable_flakes: st.enable_flakes,
        hostname: st.hostname,
        timezone: st.timezone,
        keyboard_layout: st.keyboard_layout,
        username: st.username,
        user_password: st.user_password,
        enable_sudo: st.enable_sudo,
        root_password: st.root_password,
        install_networkmanager: st.install_networkmanager,
        enable_git: st.enable_git,
        enable_ssh: st.enable_ssh,
        zfs_use_recommended: st.zfs_use_recommended,
        zfs_ashift: st.zfs_ashift,
        zfs_redundancy: st.zfs_redundancy,
        zfs_compression: st.zfs_compression,
        zfs_primarycache: st.zfs_primarycache,
        zfs_autotrim: st.zfs_autotrim,
    }
}

pub open spec fn disk_select_step(st: AppView, k: Key) -> (AppView, KeyOutcomeView) {
    match k {
        Key::Char('q') | Key::Esc => exit(st),
        Key::Down => stay(
            if st.selected_disk + 1 < st.disks.len() {
                AppView { selected_disk: st.selected_disk + 1, ..st }
            } else {
                st
            },
        ),
        Key::Up => stay(
            if st.selected_disk > 0 {
                AppView { selected_disk: (st.selected_disk - 1) as nat, ..st }
            } else {
                st
            },
        ),
        Key::Enter => stay(go(st, Screen::BootSize, "Step 2/7: Set EFI boot partition size, then press Enter."@)),
        _ => stay(st),
    }
}

pub open spec fn boot_size_step(st: AppView, k: Key) -> (AppView, KeyOutcomeView) {
    match k {
        Key::Esc => stay(go(st, Screen::DiskSelect, "Select installation disk with arrow keys, Enter to continue."@)),
        Key::Enter => match size_check(st.boot_size, "Boot"@) {
            Err(e) => stay(say(st, error_message(e))),
            Ok(_) => stay(go(st, Screen::SwapSize, "Step 3/7: Set swap partition size, then press Enter."@)),
        },
        _ => stay(AppView { boot_size: typed(st.boot_size, k, Typing::Upper), ..st }),
    }
}

pub open spec fn swap_size_step(st: AppView, k: Key) -> (AppView, KeyOutcomeView) {
    match k {
        Key::Esc => stay(go(st, Screen::BootSize, "Step 2/7: Set EFI boot partition size, then press Enter."@)),
        Key::Enter => match size_check(st.swap_size, "Swap"@) {
            Err(e) => stay(say(st, error_message(e))),
            Ok(_) => stay(ask(st, Screen::EncryptionChoice, st.enable_encryption, "Step 4/7: Choose whether to enable ZFS encryption."@)),
        },
        _ => stay(AppView { swap_size: typed(st.swap_size, k, Typing::Upper), ..st }),
    }
}

pub open spec fn encryption_choice_step(st: AppView, k: Key) -> (AppView, KeyOutcomeView) {
    if k == Key::Esc {
        stay(go(st, Screen::SwapSize, "Step 3/7: Set swap partition size, then press Enter."@))
    } else if flips(k) {
        stay(flip(st))
    } else if k == Key::Enter {
        if st.choice_yes_selected {
            stay(
                AppView {
                    enable_encryption: true,
                    passphrase: Seq::empty(),
                    passphrase_confirm: Seq::empty(),
                    ..go(st, Screen::Passphrase, "Step 5/7: Enter encryption passphrase (min 8 chars)."@)
                },
            )
        } else {
            stay(
                AppView {
                    enable_encryption: false,
                    ..ask(st, Screen::FlakesChoice, st.enable_flakes, "Step 7/7: Choose whether to enable flakes by default."@)
                },
            )
        }
    } else {
        stay(st)
    }
}

pub open spec fn passphrase_step(st: AppView, k: Key) -> (AppView, KeyOutcomeView) {
    match k {
        Key::Esc => stay(ask(st, Screen::EncryptionChoice, st.enable_encryption, "Step 4/7: Choose whether to enable ZFS encryption."@)),
        Key::Enter => if byte_len(st.passphrase) < 8 {
            stay(say(st, "Passphrase must be at least 8 characters."@))
        } else {
            stay(go(st, Screen::PassphraseConfirm, "Step 6/7: Confirm encryption passphrase."@))
        },
        _ => stay(AppView { passphrase: typed(st.passphrase, k, Typing::Plain), ..st }),
    }
}

pub open spec fn passphrase_confirm_step(st: AppView, k: Key) -> (AppView, KeyOutcomeView) {
    match k {
        Key::Esc => stay(go(st, Screen::Passphrase, "Step 5/7: Enter encryption passphrase (min 8 chars)."@)),
        Key::Enter => if st.passphrase != st.passphrase_confirm {
            stay(say(st, "Passphrase and confirmation do not match."@))
        } else {
            stay(ask(st, Screen::FlakesChoice, st.enable_flakes, "Step 7/7: Choose whether to enable flakes by default."@))
        },
        _ => stay(
            AppView { passphrase_confirm: typed(st.passphrase_confirm, k, Typing::Plain), ..st },
        ),
    }
}

pub open spec fn flakes_choice_step(st: AppView, k: Key) -> (AppView, KeyOutcomeView) {
    if k == Key::Esc {
        if st.enable_encryption {
            stay(go(st, Screen::PassphraseConfirm, "Step 6/7: Confirm encryption passphrase."@))
        } else {
            stay(ask(st, Screen::EncryptionChoice, st.enable_encryption, "Step 4/7: Choose whether to enable ZFS encryption."@))
        }
    } else if flips(k) {
        stay(flip(st))
    } else if k == Key::Enter {
        stay(
            AppView {
                enable_flakes: st.choice_yes_selected,
                ..ask(st, Screen::ZfsModeChoice, st.zfs_use_recommended, "ZFS setup: choose Recommended defaults or Advanced configuration."@)
            },
        )
    } else {
        stay(st)
    }
}

/// The recommended ZFS settings.
pub open spec fn with_recommended_zfs(st: AppView) -> AppView {
    AppView {
        zfs_ashift: "12"@,
        zfs_redundancy: "single"@,
        zfs_compression: "lz4"@,
        zfs_primarycache: "all"@,
        zfs_autotrim: true,
        ..st
    }
}

pub open spec fn zfs_mode_choice_step(st: AppView, k: Key) -> (AppView, KeyOutcomeView) {
    if k == Key::Esc {
        stay(ask(st, Screen::FlakesChoice, st.enable_flakes, "Step 7/7: Choose whether to enable flakes by default."@))
    } else if flips(k) {
        stay(flip(st))
    } else if k == Key::Enter {
        if st.choice_yes_selected {
            stay(
                AppView {
                    zfs_use_recommended: true,
                    ..go(with_recommended_zfs(st), Screen::Hostname, "Next: set hostname, then press Enter."@)
                },
            )
        } else {
            stay(AppView { zfs_use_recommended: false, ..go(st, Screen::ZfsAshift, "Advanced ZFS: set ashift (recommended 12 for 4K sector disks)."@) })
        }
    } else {
        stay(st)
    }
}

pub open spec fn zfs_ashift_step(st: AppView, k: Key) -> (AppView, KeyOutcomeView) {
    match k {
        Key::Esc => stay(ask(st, Screen::ZfsModeChoice, st.zfs_use_recommended, "ZFS setup: choose Recommended defaults or Advanced configuration."@)),
        Key::Enter => match ashift_check(st.zfs_ashift) {
            Err(e) => stay(say(st, error_message(e))),
            Ok(_) => stay(go(st, Screen::ZfsRedundancy, "Advanced ZFS: set redundancy (single, mirror, raidz1, raidz2, raidz3)."@)),
        },
        _ => stay(AppView { zfs_ashift: typed(st.zfs_ashift, k, Typing::Digits), ..st }),
    }
}

pub open spec fn zfs_redundancy_step(st: AppView, k: Key) -> (AppView, KeyOutcomeView) {
    match k {
        Key::Esc => stay(go(st, Screen::ZfsAshift, "Advanced ZFS: set ashift (recommended 12 for 4K sector disks)."@)),
        Key::Enter => match redundancy_check(st.zfs_redundancy) {
            Err(e) => stay(say(st, error_message(e))),
            Ok(_) => stay(go(st, Screen::ZfsCompression, "Advanced ZFS: set compression (lz4, zstd, gzip, zle, on, off)."@)),
        },
        _ => stay(AppView { zfs_redundancy: typed(st.zfs_redundancy, k, Typing::Lower), ..st }),
    }
}

pub open spec fn zfs_compression_step(st: AppView, k: Key) -> (AppView, KeyOutcomeView) {
    match k {
        Key::Esc => stay(go(st, Screen::ZfsRedundancy, "Advanced ZFS: set redundancy (single, mirror, raidz1, raidz2, raidz3)."@)),
        Key::Enter => match compression_check(st.zfs_compression) {
            Err(e) => stay(say(st, error_message(e))),
            Ok(_) => stay(go(st, Screen::ZfsCaching, "Advanced ZFS: set primarycache (all, metadata, none)."@)),
        },
        _ => stay(
            AppView { zfs_compression: typed(st.zfs_compression, k, Typing::Lower), ..st },
        ),
    }
}

pub open spec fn zfs_caching_step(st: AppView, k: Key) -> (AppView, KeyOutcomeView) {
    match k {
        Key::Esc => stay(go(st, Screen::ZfsCompression, "Advanced ZFS: set compression (lz4, zstd, gzip, zle, on, off)."@)),
        Key::Enter => match primarycache_check(st.zfs_primarycache) {
            Err(e) => stay(say(st, error_message(e))),
            Ok(_) => stay(ask(st, Screen::ZfsAutotrimChoice, st.zfs_autotrim, "Advanced ZFS: choose whether to enable autotrim for SSD/NVMe."@)),
        },
        _ => stay(
            AppView { zfs_primarycache: typed(st.zfs_primarycache, k, Typing::Lower), ..st },
        ),
    }
}

pub open spec fn zfs_autotrim_step(st: AppView, k: Key) -> (AppView, KeyOutcomeView) {
    if k == Key::Esc {
        stay(go(st, Screen::ZfsCaching, "Advanced ZFS: set primarycache (all, metadata, none)."@))
    } else if flips(k) {
        stay(flip(st))
    } else if k == Key::Enter {
        stay(AppView { zfs_autotrim: st.choice_yes_selected, ..go(st, Screen::Hostname, "Next: set hostname, then press Enter."@) })
    } else {
        stay(st)
    }
}

pub open spec fn hostname_step(st: AppView, k: Key) -> (AppView, KeyOutcomeView) {
    match k {
        Key::Esc => if st.zfs_use_recommended {
            stay(ask(st, Screen::ZfsModeChoice, st.zfs_use_recommended, "ZFS setup: choose Recommended defaults or Advanced configuration."@))
        } else {
            stay(ask(st, Screen::ZfsAutotrimChoice, st.zfs_autotrim, "Advanced ZFS: choose whether to enable autotrim for SSD/NVMe."@))
        },
        Key::Enter => match hostname_check(st.hostname) {
            Err(e) => stay(say(st, error_message(e))),
            Ok(_) => stay(go(st, Screen::Timezone, "Next: set timezone (e.g. Europe/Berlin), then press Enter."@)),
        },
        _ => stay(AppView { hostname: typed(st.hostname, k, Typing::Plain), ..st }),
    }
}

pub open spec fn timezone_step(st: AppView, k: Key) -> (AppView, KeyOutcomeView) {
    match k {
        Key::Esc => stay(go(st, Screen::Hostname, "Next: set hostname, then press Enter."@)),
        Key::Enter => match timezone_check(st.timezone) {
            Err(e) => stay(say(st, error_message(e))),
            Ok(_) => stay(go(st, Screen::KeyboardLayout, "Next: set keyboard layout (e.g. us, de), then press Enter."@)),
        },
        _ => stay(AppView { timezone: typed(st.timezone, k, Typing::Plain), ..st }),
    }
}

pub open spec fn keyboard_layout_step(st: AppView, k: Key) -> (AppView, KeyOutcomeView) {
    match k {
        Key::Esc => stay(go(st, Screen::Timezone, "Next: set timezone, then press Enter."@)),
        Key::Enter => match keyboard_layout_check(st.keyboard_layout) {
            Err(e) => stay(say(st, error_message(e))),
            Ok(_) => stay(go(st, Screen::Username, "Next: set username, then press Enter."@)),
        },
        _ => stay(AppView { keyboard_layout: typed(st.keyboard_layout, k, Typing::Plain), ..st }),
    }
}

pub open spec fn username_step(st: AppView, k: Key) -> (AppView, KeyOutcomeView) {
    match k {
        Key::Esc => stay(go(st, Screen::KeyboardLayout, "Next: set keyboard layout, then press Enter."@)),
        Key::Enter => match username_check(st.username) {
            Err(e) => stay(say(st, error_message(e))),
            Ok(_) => stay(go(st, Screen::UserPassword, "Next: enter user password, then press Enter."@)),
        },
        _ => stay(AppView { username: typed(st.username, k, Typing::Plain), ..st }),
    }
}

pub open spec fn user_password_step(st: AppView, k: Key) -> (AppView, KeyOutcomeView) {
    match k {
        Key::Esc => stay(go(st, Screen::Username, "Next: set username, then press Enter."@)),
        Key::Enter => match password_check(st.user_password, "User password"@) {
            Err(e) => stay(say(st, error_message(e))),
            Ok(_) => stay(go(st, Screen::UserPasswordConfirm, "Next: confirm user password, then press Enter."@)),
        },
        _ => stay(AppView { user_password: typed(st.user_password, k, Typing::Plain), ..st }),
    }
}

pub open spec fn user_password_confirm_step(st: AppView, k: Key) -> (AppView, KeyOutcomeView) {
    match k {
        Key::Esc => stay(go(st, Screen::UserPassword, "Next: enter user password, then press Enter."@)),
        Key::Enter => if st.user_password != st.user_password_confirm {
            stay(say(st, "User password and confirmation do not match."@))
        } else {
            stay(ask(st, Screen::EnableSudoChoice, st.enable_sudo, "Next: choose whether the user should have sudo access."@))
        },
        _ => stay(
            AppView {
                user_password_confirm: typed(st.user_password_confirm, k, Typing::Plain),
                ..st
            },
        ),
    }
}

pub open spec fn enable_sudo_step(st: AppView, k: Key) -> (AppView, KeyOutcomeView) {
    if k == Key::Esc {
        stay(go(st, Screen::UserPasswordConfirm, "Next: confirm user password, then press Enter."@))
    } else if flips(k) {
        stay(flip(st))
    } else if k == Key::Enter {
        stay(AppView { enable_sudo: st.choice_yes_selected, ..go(st, Screen::RootPassword, "Next: enter root password, then press Enter."@) })
    } else {
        stay(st)
    }
}

pub open spec fn root_password_step(st: AppView, k: Key) -> (AppView, KeyOutcomeView) {
    match k {
        Key::Esc => stay(ask(st, Screen::EnableSudoChoice, st.enable_sudo, "Next: choose whether the user should have sudo access."@)),
        Key::Enter => match password_check(st.root_password, "Root password"@) {
            Err(e) => stay(say(st, error_message(e))),
            Ok(_) => stay(go(st, Screen::RootPasswordConfirm, "Next: confirm root password, then press Enter."@)),
        },
        _ => stay(AppView { root_password: typed(st.root_password, k, Typing::Plain), ..st }),
    }
}

pub open spec fn root_password_confirm_step(st: AppView, k: Key) -> (AppView, KeyOutcomeView) {
    match k {
        Key::Esc => stay(go(st, Screen::RootPassword, "Next: enter root password, then press Enter."@)),
        Key::Enter => if st.root_password != st.root_password_confirm {
            stay(say(st, "Root password and confirmation do not match."@))
        } else {
            stay(ask(st, Screen::NetworkManagerChoice, st.install_networkmanager, "Next: choose whether to enable NetworkManager."@))
        },
        _ => stay(
            AppView {
                root_password_confirm: typed(st.root_password_confirm, k, Typing::Plain),
                ..st
            },
        ),
    }
}

pub open spec fn networkmanager_step(st: AppView, k: Key) -> (AppView, KeyOutcomeView) {
    if k == Key::Esc {
        stay(go(st, Screen::RootPasswordConfirm, "Next: confirm root password, then press Enter."@))
    } else if flips(k) {
        stay(flip(st))
    } else if k == Key::Enter {
        stay(
            AppView {
                install_networkmanager: st.choice_yes_selected,
                feature_toggle_selected: 0,
                ..go(st, Screen::FeatureToggles, "Next: use Up/Down to pick Git or SSH, toggle with Enter/Space, then Continue."@)
            },
        )
    } else {
        stay(st)
    }
}

/// Flipping the feature under the cursor (Git, then SSH; nothing on Continue).
pub open spec fn toggle_feature(st: AppView) -> AppView {
    if st.feature_toggle_selected == 0 {
        AppView { enable_git: !st.enable_git, ..st }
    } else if st.feature_toggle_selected == 1 {
        AppView { enable_ssh: !st.enable_ssh, ..st }
    } else {
        st
    }
}

/// Asking the caller to look at the selected disk.
pub open spec fn inspect(st: AppView) -> (AppView, KeyOutcomeView) {
    (st, KeyOutcomeView::InspectDisk(st.disks[st.selected_disk as int].path))
}

pub open spec fn feature_toggles_step(st: AppView, k: Key) -> (AppView, KeyOutcomeView) {
    match k {
        Key::Esc => stay(ask(st, Screen::NetworkManagerChoice, st.install_networkmanager, "Next: choose whether to enable NetworkManager."@)),
        Key::Up => stay(
            if st.feature_toggle_selected > 0 {
                AppView { feature_toggle_selected: (st.feature_toggle_selected - 1) as nat, ..st }
            } else {
                st
            },
        ),
        Key::Down => stay(
            if st.feature_toggle_selected < 2 {
                AppView { feature_toggle_selected: st.feature_toggle_selected + 1, ..st }
            } else {
                st
            },
        ),
        Key::Left | Key::Right | Key::Tab | Key::Char(' ') => stay(toggle_feature(st)),
        Key::Enter => if st.feature_toggle_selected < 2 {
            stay(toggle_feature(st))
        } else {
            inspect(st)
        },
        Key::Char('c') | Key::Char('C') => inspect(AppView { feature_toggle_selected: 2, ..st }),
        _ => stay(st),
    }
}

/// The state once the caller has inspected the disk: its warnings are kept,
/// and the wizard asks about an earlier installation if one was found.
pub open spec fn after_inspection(
    st: AppView,
    warnings: Seq<Seq<char>>,
    existing_found: bool,
) -> AppView {
    let s = AppView { warnings, existing_found, ..st };
    if existing_found {
        AppView { existing_overwrite_selected: true, ..go(s, Screen::ExistingConfirm, "Existing install markers detected. Use arrows, then Enter to choose."@) }
    } else {
        AppView { final_proceed_selected: true, ..go(s, Screen::FinalConfirm, "Final confirmation. Use arrows and Enter (or F10) to continue."@) }
    }
}

/// Confirming the overwrite of an earlier installation.
pub open spec fn overwrite(st: AppView) -> AppView {
    AppView { final_proceed_selected: true, ..go(st, Screen::FinalConfirm, "Overwrite confirmed. Use arrows and Enter (or F10) to continue."@) }
}

pub open spec fn existing_step(st: AppView, k: Key) -> (AppView, KeyOutcomeView) {
    match k {
        Key::Esc => exit(st),
        Key::Left | Key::Right | Key::Up | Key::Down | Key::Tab => stay(
            AppView { existing_overwrite_selected: !st.existing_overwrite_selected, ..st },
        ),
        Key::Char('o') | Key::Char('O') => stay(
            overwrite(AppView { existing_overwrite_selected: true, ..st }),
        ),
        Key::Char('k') | Key::Char('K') => exit(AppView { existing_overwrite_selected: false, ..st }),
        Key::Enter => if st.existing_overwrite_selected {
            stay(overwrite(st))
        } else {
            exit(st)
        },
        _ => stay(st),
    }
}

/// Finishing with the configuration the answers describe.
pub open spec fn install(st: AppView) -> (AppView, KeyOutcomeView) {
    (st, KeyOutcomeView::Finish(FinalActionView::Install(config_of(st))))
}

pub open spec fn final_step(st: AppView, k: Key) -> (AppView, KeyOutcomeView) {
    match k {
        Key::Esc => exit(st),
        Key::Left | Key::Right | Key::Up | Key::Down | Key::Tab => stay(
            AppView { final_proceed_selected: !st.final_proceed_selected, ..st },
        ),
        Key::Enter => if st.final_proceed_selected {
            install(st)
        } else {
            exit(st)
        },
        Key::F(10) => install(st),
        _ => stay(st),
    }
}

/// The wizard's answer to a key: its next state and what follows.
pub open spec fn key_step(st: AppView, k: Key) -> (AppView, KeyOutcomeView) {
    match st.screen {
        Screen::DiskSelect => disk_select_step(st, k),
        Screen::BootSize => boot_size_step(st, k),
        Screen::SwapSize => swap_size_step(st, k),
        Screen::EncryptionChoice => encryption_choice_step(st, k),
        Screen::Passphrase => passphrase_step(st, k),
        Screen::PassphraseConfirm => passphrase_confirm_step(st, k),
        Screen::FlakesChoice => flakes_choice_step(st, k),
        Screen::ZfsModeChoice => zfs_mode_choice_step(st, k),
        Screen::ZfsAshift => zfs_ashift_step(st, k),
        Screen::ZfsRedundancy => zfs_redundancy_step(st, k),
        Screen::ZfsCompression => zfs_compression_step(st, k),
        Screen::ZfsCaching => zfs_caching_step(st, k),
        Screen::ZfsAutotrimChoice => zfs_autotrim_step(st, k),
        Screen::Hostname => hostname_step(st, k),
        Screen::Timezone => timezone_step(st, k),
        Screen::KeyboardLayout => keyboard_layout_step(st, k),
        Screen::Username => username_step(st, k),
        Screen::UserPassword => user_password_step(st, k),
        Screen::UserPasswordConfirm => user_password_confirm_step(st, k),
        Screen::EnableSudoChoice => enable_sudo_step(st, k),
        Screen::RootPassword => root_password_step(st, k),
        Screen::RootPasswordConfirm => root_password_confirm_step(st, k),
        Screen::NetworkManagerChoice => networkmanager_step(st, k),
        Screen::FeatureToggles => feature_toggles_step(st, k),
        Screen::ExistingConfirm => existing_step(st, k),
        Screen::FinalConfirm => final_step(st, k),
    }
}

/// The wizard's state is consistent: there is a disk to choose, the cursor
/// is on one of them, and the feature cursor is on one of its three rows.
pub open spec fn app_wf(st: AppView) -> bool {
    &&& st.selected_disk < st.disks.len()
    &&& st.feature_toggle_selected <= 2
    &&& inputs_checked(st)
}

/// The position of a screen in a complete run of the wizard.
pub open spec fn rank(s: Screen) -> nat {
    match s {
        Screen::DiskSelect => 0,
        Screen::BootSize => 1,
        Screen::SwapSize => 2,
        Screen::EncryptionChoice => 3,
        Screen::Passphrase => 4,
        Screen::PassphraseConfirm => 5,
        Screen::FlakesChoice => 6,
        Screen::ZfsModeChoice => 7,
        Screen::ZfsAshift => 8,
        Screen::ZfsRedundancy => 9,
        Screen::ZfsCompression => 10,
        Screen::ZfsCaching => 11,
        Screen::ZfsAutotrimChoice => 12,
        Screen::Hostname => 13,
        Screen::Timezone => 14,
        Screen::KeyboardLayout => 15,
        Screen::Username => 16,
        Screen::UserPassword => 17,
        Screen::UserPasswordConfirm => 18,
        Screen::EnableSudoChoice => 19,
        Screen::RootPassword => 20,
        Screen::RootPasswordConfirm => 21,
        Screen::NetworkManagerChoice => 22,
        Screen::FeatureToggles => 23,
        Screen::ExistingConfirm => 24,
        Screen::FinalConfirm => 25,
    }
}

/// Every answer on a screen the wizard has moved past was accepted there:
/// leaving a screen forward requires its check, and a value can only change
/// on its own screen.
pub open spec fn inputs_checked(st: AppView) -> bool {
    let r = rank(st.screen);
    &&& r > rank(Screen::BootSize) ==> size_check(st.boot_size, "Boot"@) is Ok
    &&& r > rank(Screen::SwapSize) ==> size_check(st.swap_size, "Swap"@) is Ok
    &&& (st.screen == Screen::PassphraseConfirm || (r > rank(Screen::PassphraseConfirm)
        && st.enable_encryption)) ==> byte_len(st.passphrase) >= 8
    &&& (r > rank(Screen::PassphraseConfirm) && st.enable_encryption) ==> st.passphrase
        == st.passphrase_confirm
    &&& r > rank(Screen::ZfsAshift) ==> ashift_check(st.zfs_ashift) is Ok
    &&& r > rank(Screen::ZfsRedundancy) ==> redundancy_check(st.zfs_redundancy) is Ok
    &&& r > rank(Screen::ZfsCompression) ==> compression_check(st.zfs_compression) is Ok
    &&& r > rank(Screen::ZfsCaching) ==> primarycache_check(st.zfs_primarycache) is Ok
    &&& r > rank(Screen::Hostname) ==> hostname_check(st.hostname) is Ok
    &&& r > rank(Screen::Timezone) ==> timezone_check(st.timezone) is Ok
    &&& r > rank(Screen::KeyboardLayout) ==> keyboard_layout_check(st.keyboard_layout) is Ok
    &&& r > rank(Screen::Username) ==> username_check(st.username) is Ok
    &&& r > rank(Screen::UserPassword) ==> password_check(st.user_password, "User password"@) is Ok
    &&& r > rank(Screen::UserPasswordConfirm) ==> st.user_password == st.user_password_confirm
    &&& r > rank(Screen::RootPassword) ==> password_check(st.root_password, "Root password"@) is Ok
    &&& r > rank(Screen::RootPasswordConfirm) ==> st.root_password == st.root_password_confirm
}

/// A configuration whose answers each pass the wizard's own check.
pub open spec fn config_checked(c: InstallConfigView) -> bool {
    &&& size_check(c.boot_size, "Boot"@) is Ok
    &&& size_check(c.swap_size, "Swap"@) is Ok
    &&& c.enable_encryption ==> byte_len(c.passphrase) >= 8
    &&& ashift_check(c.zfs_ashift) is Ok
    &&& redundancy_check(c.zfs_redundancy) is Ok
    &&& compression_check(c.zfs_compression) is Ok
    &&& primarycache_check(c.zfs_primarycache) is Ok
    &&& hostname_check(c.hostname) is Ok
    &&& timezone_check(c.timezone) is Ok
    &&& keyboard_layout_check(c.keyboard_layout) is Ok
    &&& username_check(c.username) is Ok
    &&& password_check(c.user_password, "User password"@) is Ok
    &&& password_check(c.root_password, "Root password"@) is Ok
}

/// A fresh wizard over the offered disks.
pub open spec fn fresh_app(disks: Seq<DiskView>) -> AppView {
    AppView {
        disks,
        selected_disk: 0,
        screen: Screen::DiskSelect,
        boot_size: "1G"@,
        swap_size: "8G"@,
        enable_encryption: true,
        passphrase: Seq::empty(),
        passphrase_confirm: Seq::empty(),
        enable_flakes: true,
        hostname: "nixos"@,
        timezone: "UTC"@,
        keyboard_layout: "us"@,
        username: "nixos"@,
        user_password: Seq::empty(),
        user_password_confirm: Seq::empty(),
        enable_sudo: true,
        root_password: Seq::empty(),
        root_password_confirm: Seq::empty(),
        install_networkmanager: true,
        enable_git: true,
        enable_ssh: false,
        feature_toggle_selected: 0,
        zfs_use_recommended: true,
        zfs_ashift: "12"@,
        zfs_redundancy: "single"@,
        zfs_compression: "lz4"@,
        zfs_primarycache: "all"@,
        zfs_autotrim: true,
        existing_found: false,
        choice_yes_selected: true,
        existing_overwrite_selected: true,
        final_proceed_selected: true,
        warnings: Seq::empty(),
        status: "Select installation disk with arrow keys, Enter to continue."@,
    }
}


/// The wizard.
pub struct App {
    disks: Vec<Disk>,
    selected_disk: usize,
    screen: Screen,
    boot_size: String,
    swap_size: String,
    enable_encryption: bool,
    passphrase: String,
    passphrase_confirm: String,
    enable_flakes: bool,
    hostname: String,
    timezone: String,
    keyboard_layout: String,
    username: String,
    user_password: String,
    user_password_confirm: String,
    enable_sudo: bool,
    root_password: String,
    root_password_confirm: String,
    install_networkmanager: bool,
    enable_git: bool,
    enable_ssh: bool,
    feature_toggle_selected: usize,
    zfs_use_recommended: bool,
    zfs_ashift: String,
    zfs_redundancy: String,
    zfs_compression: String,
    zfs_primarycache: String,
    zfs_autotrim: bool,
    existing_found: bool,
    choice_yes_selected: bool,
    existing_overwrite_selected: bool,
    final_proceed_selected: bool,
    warnings: Vec<String>,
    status: String,
}

impl View for App {
    type V = AppView;

    closed spec fn view(&self) -> AppView {
        AppView {
            disks: disk_views(self.disks@),
            selected_disk: self.selected_disk as nat,
            screen: self.screen,
            boot_size: self.boot_size@,
            swap_size: self.swap_size@,
            enable_encryption: self.enable_encryption,
            passphrase: self.passphrase@,
            passphrase_confirm: self.passphrase_confirm@,
            enable_flakes: self.enable_flakes,
            hostname: self.hostname@,
            timezone: self.timezone@,
            keyboard_layout: self.keyboard_layout@,
            username: self.username@,
            user_password: self.user_password@,
            user_password_confirm: self.user_password_confirm@,
            enable_sudo: self.enable_sudo,
            root_password: self.root_password@,
            root_password_confirm: self.root_password_confirm@,
            install_networkmanager: self.install_networkmanager,
            enable_git: self.enable_git,
            enable_ssh: self.enable_ssh,
            feature_toggle_selected: self.feature_toggle_selected as nat,
            zfs_use_recommended: self.zfs_use_recommended,
            zfs_ashift: self.zfs_ashift@,
            zfs_redundancy: self.zfs_redundancy@,
            zfs_compression: self.zfs_compression@,
            zfs_primarycache: self.zfs_primarycache@,
            zfs_autotrim: self.zfs_autotrim,
            existing_found: self.existing_found,
            choice_yes_selected: self.choice_yes_selected,
            existing_overwrite_selected: self.existing_overwrite_selected,
            final_proceed_selected: self.final_proceed_selected,
            warnings: text_views(self.warnings@),
            status: self.status@,
        }
    }
}

/// Applies a key to a text field.
fn type_key(field: &mut String, k: Key, t: Typing)
    ensures
        final(field)@ == typed(old(field)@, k, t),
{
    match k {
        Key::Backspace => pop_char(field),
        Key::Char(c) => match t {
            Typing::Digits => {
                if '0' <= c && c <= '9' {
                    push_char(field, c);
                }
            },
            Typing::Upper => {
                if !is_control(c) {
                    push_char(field, to_upper(c));
                }
            },
            Typing::Lower => {
                if !is_control(c) {
                    push_char(field, to_lower(c));
                }
            },
            Typing::Plain => {
                if !is_control(c) {
                    push_char(field, c);
                }
            },
        },
        _ => {},
    }
}

fn is_flip(k: Key) -> (r: bool)
    ensures
        r == flips(k),
{
    match k {
        Key::Left | Key::Right | Key::Up | Key::Down | Key::Tab => true,
        _ => false,
    }
}

impl App {
    /// A wizard over the offered disks, or the refusal to start when there is
    /// no disk to offer.
    pub fn open(disks: Vec<Disk>) -> (r: Result<App, SetupError>)
        ensures
            disks@.len() == 0 <==> r is Err,
            r matches Err(e) ==> e == SetupError::NoDisks,
            r matches Ok(a) ==> a@ == fresh_app(disk_views(disks@)) && app_wf(a@),
    {
        if disks.len() == 0 {
            Err(SetupError::NoDisks)
        } else {
            Ok(App::new(disks))
        }
    }

    /// A fresh wizard over the offered disks, on the disk list.
    pub fn new(disks: Vec<Disk>) -> (r: App)
        ensures
            r@ == fresh_app(disk_views(disks@)),
            disks@.len() > 0 ==> app_wf(r@),
    {
        let r = App {
            disks,
            selected_disk: 0,
            screen: Screen::DiskSelect,
            boot_size: owned("1G"),
            swap_size: owned("8G"),
            enable_encryption: true,
            passphrase: String::new(),
            passphrase_confirm: String::new(),
            enable_flakes: true,
            hostname: owned("nixos"),
            timezone: owned("UTC"),
            keyboard_layout: owned("us"),
            username: owned("nixos"),
            user_password: String::new(),
            user_password_confirm: String::new(),
            enable_sudo: true,
            root_password: String::new(),
            root_password_confirm: String::new(),
            install_networkmanager: true,
            enable_git: true,
            enable_ssh: false,
            feature_toggle_selected: 0,
            zfs_use_recommended: true,
            zfs_ashift: owned("12"),
            zfs_redundancy: owned("single"),
            zfs_compression: owned("lz4"),
            zfs_primarycache: owned("all"),
            zfs_autotrim: true,
            existing_found: false,
            choice_yes_selected: true,
            existing_overwrite_selected: true,
            final_proceed_selected: true,
            warnings: Vec::new(),
            status: owned("Select installation disk with arrow keys, Enter to continue."),
        };
        assert(r@.warnings =~= Seq::<Seq<char>>::empty());
        assert(r@ =~= fresh_app(disk_views(disks@)));
        r
    }

    fn go(&mut self, screen: Screen, status: &str)
        ensures
            final(self)@ == go(old(self)@, screen, status@),
    {
        self.screen = screen;
        self.status = owned(status);
    }

    fn ask(&mut self, screen: Screen, yes: bool, status: &str)
        ensures
            final(self)@ == ask(old(self)@, screen, yes, status@),
    {
        self.choice_yes_selected = yes;
        self.screen = screen;
        self.status = owned(status);
    }

    fn flip(&mut self)
        ensures
            final(self)@ == flip(old(self)@),
    {
        self.choice_yes_selected = !self.choice_yes_selected;
    }

    fn say_error(&mut self, e: ValidationError)
        ensures
            final(self)@ == say(old(self)@, error_message(e@)),
    {
        self.status = e.message();
    }

    /// Handles a key on the disk list.
    #[verifier::rlimit(40)]
    pub fn handle_disk_key(&mut self, k: Key) -> (r: KeyOutcome)
        requires
            app_wf(old(self)@),
            old(self)@.screen == Screen::DiskSelect,
        ensures
            app_wf(final(self)@),
            (final(self)@, r@) == disk_select_step(old(self)@, k),
    {
        proof {
            lemma_wf_disk_select_step(self@, k);
        }
        match k {
            Key::Char('q') | Key::Esc => return KeyOutcome::Finish(FinalAction::Exit),
            Key::Down => {
                if self.disks.len() > 0 && self.selected_disk < self.disks.len() - 1 {
                    self.selected_disk = self.selected_disk + 1;
                }
            },
            Key::Up => {
                if self.selected_disk > 0 {
                    self.selected_disk = self.selected_disk - 1;
                }
            },
            Key::Enter => self.go(Screen::BootSize, "Step 2/7: Set EFI boot partition size, then press Enter."),
            _ => {},
        }
        KeyOutcome::Continue
    }

    fn handle_boot_size_key(&mut self, k: Key) -> (r: KeyOutcome)
        ensures
            (final(self)@, r@) == boot_size_step(old(self)@, k),
    {
        match k {
            Key::Esc => self.go(Screen::DiskSelect, "Select installation disk with arrow keys, Enter to continue."),
            Key::Enter => match validate_size_input(self.boot_size.as_str(), "Boot") {
                Err(e) => self.say_error(e),
                Ok(()) => self.go(Screen::SwapSize, "Step 3/7: Set swap partition size, then press Enter."),
            },
            _ => type_key(&mut self.boot_size, k, Typing::Upper),
        }
        KeyOutcome::Continue
    }

    fn handle_swap_size_key(&mut self, k: Key) -> (r: KeyOutcome)
        ensures
            (final(self)@, r@) == swap_size_step(old(self)@, k),
    {
        match k {
            Key::Esc => self.go(Screen::BootSize, "Step 2/7: Set EFI boot partition size, then press Enter."),
            Key::Enter => match validate_size_input(self.swap_size.as_str(), "Swap") {
                Err(e) => self.say_error(e),
                Ok(()) => {
                    let yes = self.enable_encryption;
                    self.ask(Screen::EncryptionChoice, yes, "Step 4/7: Choose whether to enable ZFS encryption.");
                },
            },
            _ => type_key(&mut self.swap_size, k, Typing::Upper),
        }
        KeyOutcome::Continue
    }

    fn handle_encryption_choice_key(&mut self, k: Key) -> (r: KeyOutcome)
        ensures
            (final(self)@, r@) == encryption_choice_step(old(self)@, k),
    {
        if k == Key::Esc {
            self.go(Screen::SwapSize, "Step 3/7: Set swap partition size, then press Enter.");
        } else if is_flip(k) {
            self.flip();
        } else if k == Key::Enter {
            self.enable_encryption = self.choice_yes_selected;
            if self.enable_encryption {
                self.passphrase = String::new();
                self.passphrase_confirm = String::new();
                self.go(Screen::Passphrase, "Step 5/7: Enter encryption passphrase (min 8 chars).");
            } else {
                let yes = self.enable_flakes;
                self.ask(Screen::FlakesChoice, yes, "Step 7/7: Choose whether to enable flakes by default.");
            }
        }
        KeyOutcome::Continue
    }

    fn handle_passphrase_key(&mut self, k: Key) -> (r: KeyOutcome)
        ensures
            (final(self)@, r@) == passphrase_step(old(self)@, k),
    {
        match k {
            Key::Esc => {
                let yes = self.enable_encryption;
                self.ask(Screen::EncryptionChoice, yes, "Step 4/7: Choose whether to enable ZFS encryption.");
            },
            Key::Enter => {
                if self.passphrase.as_str().as_bytes().len() < 8 {
                    self.status = owned("Passphrase must be at least 8 characters.");
                } else {
                    self.go(Screen::PassphraseConfirm, "Step 6/7: Confirm encryption passphrase.");
                }
            },
            _ => type_key(&mut self.passphrase, k, Typing::Plain),
        }
        KeyOutcome::Continue
    }

    fn handle_passphrase_confirm_key(&mut self, k: Key) -> (r: KeyOutcome)
        ensures
            (final(self)@, r@) == passphrase_confirm_step(old(self)@, k),
    {
        match k {
            Key::Esc => self.go(Screen::Passphrase, "Step 5/7: Enter encryption passphrase (min 8 chars)."),
            Key::Enter => {
                if !str_eq(self.passphrase.as_str(), self.passphrase_confirm.as_str()) {
                    self.status = owned("Passphrase and confirmation do not match.");
                } else {
                    let yes = self.enable_flakes;
                    self.ask(Screen::FlakesChoice, yes, "Step 7/7: Choose whether to enable flakes by default.");
                }
            },
            _ => type_key(&mut self.passphrase_confirm, k, Typing::Plain),
        }
        KeyOutcome::Continue
    }

    fn handle_flakes_choice_key(&mut self, k: Key) -> (r: KeyOutcome)
        ensures
            (final(self)@, r@) == flakes_choice_step(old(self)@, k),
    {
        if k == Key::Esc {
            if self.enable_encryption {
                self.go(Screen::PassphraseConfirm, "Step 6/7: Confirm encryption passphrase.");
            } else {
                let yes = self.enable_encryption;
                self.ask(Screen::EncryptionChoice, yes, "Step 4/7: Choose whether to enable ZFS encryption.");
            }
        } else if is_flip(k) {
            self.flip();
        } else if k == Key::Enter {
            self.enable_flakes = self.choice_yes_selected;
            let yes = self.zfs_use_recommended;
            self.ask(Screen::ZfsModeChoice, yes, "ZFS setup: choose Recommended defaults or Advanced configuration.");
        }
        KeyOutcome::Continue
    }

    fn handle_zfs_mode_choice_key(&mut self, k: Key) -> (r: KeyOutcome)
        ensures
            (final(self)@, r@) == zfs_mode_choice_step(old(self)@, k),
    {
        if k == Key::Esc {
            let yes = self.enable_flakes;
            self.ask(Screen::FlakesChoice, yes, "Step 7/7: Choose whether to enable flakes by default.");
        } else if is_flip(k) {
            self.flip();
        } else if k == Key::Enter {
            self.zfs_use_recommended = self.choice_yes_selected;
            if self.zfs_use_recommended {
                self.zfs_ashift = owned("12");
                self.zfs_redundancy = owned("single");
                self.zfs_compression = owned("lz4");
                self.zfs_primarycache = owned("all");
                self.zfs_autotrim = true;
                self.go(Screen::Hostname, "Next: set hostname, then press Enter.");
            } else {
                self.go(Screen::ZfsAshift, "Advanced ZFS: set ashift (recommended 12 for 4K sector disks).");
            }
        }
        KeyOutcome::Continue
    }

    fn handle_zfs_ashift_key(&mut self, k: Key) -> (r: KeyOutcome)
        ensures
            (final(self)@, r@) == zfs_ashift_step(old(self)@, k),
    {
        match k {
            Key::Esc => {
                let yes = self.zfs_use_recommended;
                self.ask(Screen::ZfsModeChoice, yes, "ZFS setup: choose Recommended defaults or Advanced configuration.");
            },
            Key::Enter => match validate_zfs_ashift(self.zfs_ashift.as_str()) {
                Err(e) => self.say_error(e),
                Ok(()) => self.go(Screen::ZfsRedundancy, "Advanced ZFS: set redundancy (single, mirror, raidz1, raidz2, raidz3)."),
            },
            _ => type_key(&mut self.zfs_ashift, k, Typing::Digits),
        }
        KeyOutcome::Continue
    }

    fn handle_zfs_redundancy_key(&mut self, k: Key) -> (r: KeyOutcome)
        ensures
            (final(self)@, r@) == zfs_redundancy_step(old(self)@, k),
    {
        match k {
            Key::Esc => self.go(Screen::ZfsAshift, "Advanced ZFS: set ashift (recommended 12 for 4K sector disks)."),
            Key::Enter => match validate_zfs_redundancy(self.zfs_redundancy.as_str()) {
                Err(e) => self.say_error(e),
                Ok(()) => self.go(Screen::ZfsCompression, "Advanced ZFS: set compression (lz4, zstd, gzip, zle, on, off)."),
            },
            _ => type_key(&mut self.zfs_redundancy, k, Typing::Lower),
        }
        KeyOutcome::Continue
    }

    fn handle_zfs_compression_key(&mut self, k: Key) -> (r: KeyOutcome)
        ensures
            (final(self)@, r@) == zfs_compression_step(old(self)@, k),
    {
        match k {
            Key::Esc => self.go(Screen::ZfsRedundancy, "Advanced ZFS: set redundancy (single, mirror, raidz1, raidz2, raidz3)."),
            Key::Enter => match validate_zfs_compression(self.zfs_compression.as_str()) {
                Err(e) => self.say_error(e),
                Ok(()) => self.go(Screen::ZfsCaching, "Advanced ZFS: set primarycache (all, metadata, none)."),
            },
            _ => type_key(&mut self.zfs_compression, k, Typing::Lower),
        }
        KeyOutcome::Continue
    }

    fn handle_zfs_caching_key(&mut self, k: Key) -> (r: KeyOutcome)
        ensures
            (final(self)@, r@) == zfs_caching_step(old(self)@, k),
    {
        match k {
            Key::Esc => self.go(Screen::ZfsCompression, "Advanced ZFS: set compression (lz4, zstd, gzip, zle, on, off)."),
            Key::Enter => match validate_zfs_primarycache(self.zfs_primarycache.as_str()) {
                Err(e) => self.say_error(e),
                Ok(()) => {
                    let yes = self.zfs_autotrim;
                    self.ask(Screen::ZfsAutotrimChoice, yes, "Advanced ZFS: choose whether to enable autotrim for SSD/NVMe.");
                },
            },
            _ => type_key(&mut self.zfs_primarycache, k, Typing::Lower),
        }
        KeyOutcome::Continue
    }

    fn handle_zfs_autotrim_key(&mut self, k: Key) -> (r: KeyOutcome)
        ensures
            (final(self)@, r@) == zfs_autotrim_step(old(self)@, k),
    {
        if k == Key::Esc {
            self.go(Screen::ZfsCaching, "Advanced ZFS: set primarycache (all, metadata, none).");
        } else if is_flip(k) {
            self.flip();
        } else if k == Key::Enter {
            self.zfs_autotrim = self.choice_yes_selected;
            self.go(Screen::Hostname, "Next: set hostname, then press Enter.");
        }
        KeyOutcome::Continue
    }

    fn handle_hostname_key(&mut self, k: Key) -> (r: KeyOutcome)
        ensures
            (final(self)@, r@) == hostname_step(old(self)@, k),
    {
        match k {
            Key::Esc => {
                if self.zfs_use_recommended {
                    let yes = self.zfs_use_recommended;
                    self.ask(Screen::ZfsModeChoice, yes, "ZFS setup: choose Recommended defaults or Advanced configuration.");
                } else {
                    let yes = self.zfs_autotrim;
                    self.ask(Screen::ZfsAutotrimChoice, yes, "Advanced ZFS: choose whether to enable autotrim for SSD/NVMe.");
                }
            },
            Key::Enter => match validate_hostname(self.hostname.as_str()) {
                Err(e) => self.say_error(e),
                Ok(()) => self.go(Screen::Timezone, "Next: set timezone (e.g. Europe/Berlin), then press Enter."),
            },
            _ => type_key(&mut self.hostname, k, Typing::Plain),
        }
        KeyOutcome::Continue
    }

    fn handle_timezone_key(&mut self, k: Key) -> (r: KeyOutcome)
        ensures
            (final(self)@, r@) == timezone_step(old(self)@, k),
    {
        match k {
            Key::Esc => self.go(Screen::Hostname, "Next: set hostname, then press Enter."),
            Key::Enter => match validate_timezone(self.timezone.as_str()) {
                Err(e) => self.say_error(e),
                Ok(()) => self.go(Screen::KeyboardLayout, "Next: set keyboard layout (e.g. us, de), then press Enter."),
            },
            _ => type_key(&mut self.timezone, k, Typing::Plain),
        }
        KeyOutcome::Continue
    }

    fn handle_keyboard_layout_key(&mut self, k: Key) -> (r: KeyOutcome)
        ensures
            (final(self)@, r@) == keyboard_layout_step(old(self)@, k),
    {
        match k {
            Key::Esc => self.go(Screen::Timezone, "Next: set timezone, then press Enter."),
            Key::Enter => match validate_keyboard_layout(self.keyboard_layout.as_str()) {
                Err(e) => self.say_error(e),
                Ok(()) => self.go(Screen::Username, "Next: set username, then press Enter."),
            },
            _ => type_key(&mut self.keyboard_layout, k, Typing::Plain),
        }
        KeyOutcome::Continue
    }

    fn handle_username_key(&mut self, k: Key) -> (r: KeyOutcome)
        ensures
            (final(self)@, r@) == username_step(old(self)@, k),
    {
        match k {
            Key::Esc => self.go(Screen::KeyboardLayout, "Next: set keyboard layout, then press Enter."),
            Key::Enter => match validate_username(self.username.as_str()) {
                Err(e) => self.say_error(e),
                Ok(()) => self.go(Screen::UserPassword, "Next: enter user password, then press Enter."),
            },
            _ => type_key(&mut self.username, k, Typing::Plain),
        }
        KeyOutcome::Continue
    }

    fn handle_user_password_key(&mut self, k: Key) -> (r: KeyOutcome)
        ensures
            (final(self)@, r@) == user_password_step(old(self)@, k),
    {
        match k {
            Key::Esc => self.go(Screen::Username, "Next: set username, then press Enter."),
            Key::Enter => match validate_password(self.user_password.as_str(), "User password") {
                Err(e) => self.say_error(e),
                Ok(()) => self.go(Screen::UserPasswordConfirm, "Next: confirm user password, then press Enter."),
            },
            _ => type_key(&mut self.user_password, k, Typing::Plain),
        }
        KeyOutcome::Continue
    }

    fn handle_user_password_confirm_key(&mut self, k: Key) -> (r: KeyOutcome)
        ensures
            (final(self)@, r@) == user_password_confirm_step(old(self)@, k),
    {
        match k {
            Key::Esc => self.go(Screen::UserPassword, "Next: enter user password, then press Enter."),
            Key::Enter => {
                if !str_eq(self.user_password.as_str(), self.user_password_confirm.as_str()) {
                    self.status = owned("User password and confirmation do not match.");
                } else {
                    let yes = self.enable_sudo;
                    self.ask(Screen::EnableSudoChoice, yes, "Next: choose whether the user should have sudo access.");
                }
            },
            _ => type_key(&mut self.user_password_confirm, k, Typing::Plain),
        }
        KeyOutcome::Continue
    }

    fn handle_enable_sudo_key(&mut self, k: Key) -> (r: KeyOutcome)
        ensures
            (final(self)@, r@) == enable_sudo_step(old(self)@, k),
    {
        if k == Key::Esc {
            self.go(Screen::UserPasswordConfirm, "Next: confirm user password, then press Enter.");
        } else if is_flip(k) {
            self.flip();
        } else if k == Key::Enter {
            self.enable_sudo = self.choice_yes_selected;
            self.go(Screen::RootPassword, "Next: enter root password, then press Enter.");
        }
        KeyOutcome::Continue
    }

    fn handle_root_password_key(&mut self, k: Key) -> (r: KeyOutcome)
        ensures
            (final(self)@, r@) == root_password_step(old(self)@, k),
    {
        match k {
            Key::Esc => {
                let yes = self.enable_sudo;
                self.ask(Screen::EnableSudoChoice, yes, "Next: choose whether the user should have sudo access.");
            },
            Key::Enter => match validate_password(self.root_password.as_str(), "Root password") {
                Err(e) => self.say_error(e),
                Ok(()) => self.go(Screen::RootPasswordConfirm, "Next: confirm root password, then press Enter."),
            },
            _ => type_key(&mut self.root_password, k, Typing::Plain),
        }
        KeyOutcome::Continue
    }

    fn handle_root_password_confirm_key(&mut self, k: Key) -> (r: KeyOutcome)
        ensures
            (final(self)@, r@) == root_password_confirm_step(old(self)@, k),
    {
        match k {
            Key::Esc => self.go(Screen::RootPassword, "Next: enter root password, then press Enter."),
            Key::Enter => {
                if !str_eq(self.root_password.as_str(), self.root_password_confirm.as_str()) {
                    self.status = owned("Root password and confirmation do not match.");
                } else {
                    let yes = self.install_networkmanager;
                    self.ask(Screen::NetworkManagerChoice, yes, "Next: choose whether to enable NetworkManager.");
                }
            },
            _ => type_key(&mut self.root_password_confirm, k, Typing::Plain),
        }
        KeyOutcome::Continue
    }

    fn handle_networkmanager_key(&mut self, k: Key) -> (r: KeyOutcome)
        ensures
            (final(self)@, r@) == networkmanager_step(old(self)@, k),
    {
        if k == Key::Esc {
            self.go(Screen::RootPasswordConfirm, "Next: confirm root password, then press Enter.");
        } else if is_flip(k) {
            self.flip();
        } else if k == Key::Enter {
            self.install_networkmanager = self.choice_yes_selected;
            self.feature_toggle_selected = 0;
            self.go(Screen::FeatureToggles, "Next: use Up/Down to pick Git or SSH, toggle with Enter/Space, then Continue.");
        }
        KeyOutcome::Continue
    }

    fn toggle_feature(&mut self)
        ensures
            final(self)@ == toggle_feature(old(self)@),
    {
        if self.feature_toggle_selected == 0 {
            self.enable_git = !self.enable_git;
        } else if self.feature_toggle_selected == 1 {
            self.enable_ssh = !self.enable_ssh;
        }
    }

    fn inspection_request(&self) -> (r: KeyOutcome)
        requires
            app_wf(self@),
        ensures
            (self@, r@) == inspect(self@),
    {
        KeyOutcome::InspectDisk(self.disks[self.selected_disk].path.clone())
    }

    /// Handles a key on the programs screen.
    #[verifier::rlimit(80)]
    pub fn handle_feature_toggles_key(&mut self, k: Key) -> (r: KeyOutcome)
        requires
            app_wf(old(self)@),
            old(self)@.screen == Screen::FeatureToggles,
        ensures
            app_wf(final(self)@),
            (final(self)@, r@) == feature_toggles_step(old(self)@, k),
    {
        proof {
            lemma_wf_feature_toggles_step(self@, k);
        }
        match k {
            Key::Esc => {
                let yes = self.install_networkmanager;
                self.ask(Screen::NetworkManagerChoice, yes, "Next: choose whether to enable NetworkManager.");
            },
            Key::Up => {
                if self.feature_toggle_selected > 0 {
                    self.feature_toggle_selected = self.feature_toggle_selected - 1;
                }
            },
            Key::Down => {
                if self.feature_toggle_selected < 2 {
                    self.feature_toggle_selected = self.feature_toggle_selected + 1;
                }
            },
            Key::Left | Key::Right | Key::Tab | Key::Char(' ') => self.toggle_feature(),
            Key::Enter => {
                if self.feature_toggle_selected < 2 {
                    self.toggle_feature();
                } else {
                    return self.inspection_request();
                }
            },
            Key::Char('c') | Key::Char('C') => {
                self.feature_toggle_selected = 2;
                return self.inspection_request();
            },
            _ => {},
        }
        KeyOutcome::Continue
    }

    /// Takes what the caller found on the selected disk after an
    /// `InspectDisk` outcome: the warnings to show, and whether an earlier
    /// installation is there.
    pub fn finish_disk_inspection(&mut self, warnings: Vec<String>, existing_found: bool)
        requires
            app_wf(old(self)@),
            old(self)@.screen == Screen::FeatureToggles,
        ensures
            app_wf(final(self)@),
            final(self)@ == after_inspection(old(self)@, text_views(warnings@), existing_found),
    {
        proof {
            lemma_inspection_keeps_wf(self@, text_views(warnings@), existing_found);
        }
        self.warnings = warnings;
        self.existing_found = existing_found;
        if existing_found {
            self.existing_overwrite_selected = true;
            self.go(Screen::ExistingConfirm, "Existing install markers detected. Use arrows, then Enter to choose.");
        } else {
            self.final_proceed_selected = true;
            self.go(Screen::FinalConfirm, "Final confirmation. Use arrows and Enter (or F10) to continue.");
        }
    }

    fn overwrite(&mut self)
        ensures
            final(self)@ == overwrite(old(self)@),
    {
        self.final_proceed_selected = true;
        self.go(Screen::FinalConfirm, "Overwrite confirmed. Use arrows and Enter (or F10) to continue.");
    }

    #[verifier::rlimit(40)]
    fn handle_existing_key(&mut self, k: Key) -> (r: KeyOutcome)
        ensures
            (final(self)@, r@) == existing_step(old(self)@, k),
    {
        match k {
            Key::Esc => return KeyOutcome::Finish(FinalAction::Exit),
            Key::Left | Key::Right | Key::Up | Key::Down | Key::Tab => {
                self.existing_overwrite_selected = !self.existing_overwrite_selected;
            },
            Key::Char('o') | Key::Char('O') => {
                self.existing_overwrite_selected = true;
                self.overwrite();
            },
            Key::Char('k') | Key::Char('K') => {
                self.existing_overwrite_selected = false;
                return KeyOutcome::Finish(FinalAction::Exit);
            },
            Key::Enter => {
                if self.existing_overwrite_selected {
                    self.overwrite();
                } else {
                    return KeyOutcome::Finish(FinalAction::Exit);
                }
            },
            _ => {},
        }
        KeyOutcome::Continue
    }

    /// The configuration the answers so far describe.
    pub fn build_install_config(&self) -> (r: InstallConfig)
        requires
            app_wf(self@),
        ensures
            r@ == config_of(self@),
    {
        InstallConfig {
            disk: self.disks[self.selected_disk].duplicate(),
            boot_size: self.boot_size.clone(),
            swap_size: self.swap_size.clone(),
            passphrase: self.passphrase.clone(),
            enable_encryption: self.enable_encryption,
            enable_flakes: self.enable_flakes,
            hostname: self.hostname.clone(),
            timezone: self.timezone.clone(),
            keyboard_layout: self.keyboard_layout.clone(),
            username: self.username.clone(),
            user_password: self.user_password.clone(),
            enable_sudo: self.enable_sudo,
            root_password: self.root_password.clone(),
            install_networkmanager: self.install_networkmanager,
            enable_git: self.enable_git,
            enable_ssh: self.enable_ssh,
            zfs_use_recommended: self.zfs_use_recommended,
            zfs_ashift: self.zfs_ashift.clone(),
            zfs_redundancy: self.zfs_redundancy.clone(),
            zfs_compression: self.zfs_compression.clone(),
            zfs_primarycache: self.zfs_primarycache.clone(),
            zfs_autotrim: self.zfs_autotrim,
        }
    }

    fn handle_final_key(&mut self, k: Key) -> (r: KeyOutcome)
        requires
            app_wf(old(self)@),
        ensures
            (final(self)@, r@) == final_step(old(self)@, k),
    {
        match k {
            Key::Esc => KeyOutcome::Finish(FinalAction::Exit),
            Key::Left | Key::Right | Key::Up | Key::Down | Key::Tab => {
                self.final_proceed_selected = !self.final_proceed_selected;
                KeyOutcome::Continue
            },
            Key::Enter => {
                if !self.final_proceed_selected {
                    KeyOutcome::Finish(FinalAction::Exit)
                } else {
                    KeyOutcome::Finish(FinalAction::Install(self.build_install_config()))
                }
            },
            Key::F(10) => KeyOutcome::Finish(FinalAction::Install(self.build_install_config())),
            _ => KeyOutcome::Continue,
        }
    }

    /// Handles one key press on the current screen.
    pub fn handle_key(&mut self, k: Key) -> (r: KeyOutcome)
        requires
            app_wf(old(self)@),
        ensures
            app_wf(final(self)@),
            (final(self)@, r@) == key_step(old(self)@, k),
    {
        let ghost st = self@;
        let r = match self.screen {
            Screen::DiskSelect => self.handle_disk_key(k),
            Screen::BootSize => self.handle_boot_size_key(k),
            Screen::SwapSize => self.handle_swap_size_key(k),
            Screen::EncryptionChoice => self.handle_encryption_choice_key(k),
            Screen::Passphrase => self.handle_passphrase_key(k),
            Screen::PassphraseConfirm => self.handle_passphrase_confirm_key(k),
            Screen::FlakesChoice => self.handle_flakes_choice_key(k),
            Screen::ZfsModeChoice => self.handle_zfs_mode_choice_key(k),
            Screen::ZfsAshift => self.handle_zfs_ashift_key(k),
            Screen::ZfsRedundancy => self.handle_zfs_redundancy_key(k),
            Screen::ZfsCompression => self.handle_zfs_compression_key(k),
            Screen::ZfsCaching => self.handle_zfs_caching_key(k),
            Screen::ZfsAutotrimChoice => self.handle_zfs_autotrim_key(k),
            Screen::Hostname => self.handle_hostname_key(k),
            Screen::Timezone => self.handle_timezone_key(k),
            Screen::KeyboardLayout => self.handle_keyboard_layout_key(k),
            Screen::Username => self.handle_username_key(k),
            Screen::UserPassword => self.handle_user_password_key(k),
            Screen::UserPasswordConfirm => self.handle_user_password_confirm_key(k),
            Screen::EnableSudoChoice => self.handle_enable_sudo_key(k),
            Screen::RootPassword => self.handle_root_password_key(k),
            Screen::RootPasswordConfirm => self.handle_root_password_confirm_key(k),
            Screen::NetworkManagerChoice => self.handle_networkmanager_key(k),
            Screen::FeatureToggles => self.handle_feature_toggles_key(k),
            Screen::ExistingConfirm => self.handle_existing_key(k),
            Screen::FinalConfirm => self.handle_final_key(k),
        };
        proof {
            lemma_step_keeps_wf(st, k);
        }
        r
    }
}

proof fn lemma_wf_disk_select_step(st: AppView, k: Key)
    requires
        app_wf(st),
        st.screen == Screen::DiskSelect,
    ensures
        app_wf(disk_select_step(st, k).0),
        disk_select_step(st, k).0.disks == st.disks,
{
}

proof fn lemma_wf_boot_size_step(st: AppView, k: Key)
    requires
        app_wf(st),
        st.screen == Screen::BootSize,
    ensures
        app_wf(boot_size_step(st, k).0),
        boot_size_step(st, k).0.disks == st.disks,
{
}

proof fn lemma_wf_swap_size_step(st: AppView, k: Key)
    requires
        app_wf(st),
        st.screen == Screen::SwapSize,
    ensures
        app_wf(swap_size_step(st, k).0),
        swap_size_step(st, k).0.disks == st.disks,
{
}

proof fn lemma_wf_encryption_choice_step(st: AppView, k: Key)
    requires
        app_wf(st),
        st.screen == Screen::EncryptionChoice,
    ensures
        app_wf(encryption_choice_step(st, k).0),
        encryption_choice_step(st, k).0.disks == st.disks,
{
}

proof fn lemma_wf_passphrase_step(st: AppView, k: Key)
    requires
        app_wf(st),
        st.screen == Screen::Passphrase,
    ensures
        app_wf(passphrase_step(st, k).0),
        passphrase_step(st, k).0.disks == st.disks,
{
}

proof fn lemma_wf_passphrase_confirm_step(st: AppView, k: Key)
    requires
        app_wf(st),
        st.screen == Screen::PassphraseConfirm,
    ensures
        app_wf(passphrase_confirm_step(st, k).0),
        passphrase_confirm_step(st, k).0.disks == st.disks,
{
}

proof fn lemma_wf_flakes_choice_step(st: AppView, k: Key)
    requires
        app_wf(st),
        st.screen == Screen::FlakesChoice,
    ensures
        app_wf(flakes_choice_step(st, k).0),
        flakes_choice_step(st, k).0.disks == st.disks,
{
}

proof fn lemma_wf_zfs_mode_choice_step(st: AppView, k: Key)
    requires
        app_wf(st),
        st.screen == Screen::ZfsModeChoice,
    ensures
        app_wf(zfs_mode_choice_step(st, k).0),
        zfs_mode_choice_step(st, k).0.disks == st.disks,
{
    lemma_recommended_zfs_valid();
}

proof fn lemma_wf_zfs_ashift_step(st: AppView, k: Key)
    requires
        app_wf(st),
        st.screen == Screen::ZfsAshift,
    ensures
        app_wf(zfs_ashift_step(st, k).0),
        zfs_ashift_step(st, k).0.disks == st.disks,
{
}

proof fn lemma_wf_zfs_redundancy_step(st: AppView, k: Key)
    requires
        app_wf(st),
        st.screen == Screen::ZfsRedundancy,
    ensures
        app_wf(zfs_redundancy_step(st, k).0),
        zfs_redundancy_step(st, k).0.disks == st.disks,
{
}

proof fn lemma_wf_zfs_compression_step(st: AppView, k: Key)
    requires
        app_wf(st),
        st.screen == Screen::ZfsCompression,
    ensures
        app_wf(zfs_compression_step(st, k).0),
        zfs_compression_step(st, k).0.disks == st.disks,
{
}

proof fn lemma_wf_zfs_caching_step(st: AppView, k: Key)
    requires
        app_wf(st),
        st.screen == Screen::ZfsCaching,
    ensures
        app_wf(zfs_caching_step(st, k).0),
        zfs_caching_step(st, k).0.disks == st.disks,
{
}

proof fn lemma_wf_zfs_autotrim_step(st: AppView, k: Key)
    requires
        app_wf(st),
        st.screen == Screen::ZfsAutotrimChoice,
    ensures
        app_wf(zfs_autotrim_step(st, k).0),
        zfs_autotrim_step(st, k).0.disks == st.disks,
{
}

proof fn lemma_wf_hostname_step(st: AppView, k: Key)
    requires
        app_wf(st),
        st.screen == Screen::Hostname,
    ensures
        app_wf(hostname_step(st, k).0),
        hostname_step(st, k).0.disks == st.disks,
{
}

proof fn lemma_wf_timezone_step(st: AppView, k: Key)
    requires
        app_wf(st),
        st.screen == Screen::Timezone,
    ensures
        app_wf(timezone_step(st, k).0),
        timezone_step(st, k).0.disks == st.disks,
{
}

proof fn lemma_wf_keyboard_layout_step(st: AppView, k: Key)
    requires
        app_wf(st),
        st.screen == Screen::KeyboardLayout,
    ensures
        app_wf(keyboard_layout_step(st, k).0),
        keyboard_layout_step(st, k).0.disks == st.disks,
{
}

proof fn lemma_wf_username_step(st: AppView, k: Key)
    requires
        app_wf(st),
        st.screen == Screen::Username,
    ensures
        app_wf(username_step(st, k).0),
        username_step(st, k).0.disks == st.disks,
{
}

proof fn lemma_wf_user_password_step(st: AppView, k: Key)
    requires
        app_wf(st),
        st.screen == Screen::UserPassword,
    ensures
        app_wf(user_password_step(st, k).0),
        user_password_step(st, k).0.disks == st.disks,
{
}

proof fn lemma_wf_user_password_confirm_step(st: AppView, k: Key)
    requires
        app_wf(st),
        st.screen == Screen::UserPasswordConfirm,
    ensures
        app_wf(user_password_confirm_step(st, k).0),
        user_password_confirm_step(st, k).0.disks == st.disks,
{
}

proof fn lemma_wf_enable_sudo_step(st: AppView, k: Key)
    requires
        app_wf(st),
        st.screen == Screen::EnableSudoChoice,
    ensures
        app_wf(enable_sudo_step(st, k).0),
        enable_sudo_step(st, k).0.disks == st.disks,
{
}

proof fn lemma_wf_root_password_step(st: AppView, k: Key)
    requires
        app_wf(st),
        st.screen == Screen::RootPassword,
    ensures
        app_wf(root_password_step(st, k).0),
        root_password_step(st, k).0.disks == st.disks,
{
}

proof fn lemma_wf_root_password_confirm_step(st: AppView, k: Key)
    requires
        app_wf(st),
        st.screen == Screen::RootPasswordConfirm,
    ensures
        app_wf(root_password_confirm_step(st, k).0),
        root_password_confirm_step(st, k).0.disks == st.disks,
{
}

proof fn lemma_wf_networkmanager_step(st: AppView, k: Key)
    requires
        app_wf(st),
        st.screen == Screen::NetworkManagerChoice,
    ensures
        app_wf(networkmanager_step(st, k).0),
        networkmanager_step(st, k).0.disks == st.disks,
{
}

proof fn lemma_wf_feature_toggles_step(st: AppView, k: Key)
    requires
        app_wf(st),
        st.screen == Screen::FeatureToggles,
    ensures
        app_wf(feature_toggles_step(st, k).0),
        feature_toggles_step(st, k).0.disks == st.disks,
{
    match k {
        Key::Char(c) => {},
        Key::Esc => {},
        Key::Enter => {},
        Key::Backspace => {},
        Key::Up => {},
        Key::Down => {},
        Key::Left => {},
        Key::Right => {},
        Key::Tab => {},
        Key::F(n) => {},
        Key::Other => {},
    }
}

proof fn lemma_wf_existing_step(st: AppView, k: Key)
    requires
        app_wf(st),
        st.screen == Screen::ExistingConfirm,
    ensures
        app_wf(existing_step(st, k).0),
        existing_step(st, k).0.disks == st.disks,
{
    let flipped = AppView { existing_overwrite_selected: !st.existing_overwrite_selected, ..st };
    let kept = AppView { existing_overwrite_selected: false, ..st };
    let confirmed = overwrite(AppView { existing_overwrite_selected: true, ..st });
    if k == Key::Char('o') || k == Key::Char('O') {
        assert(existing_step(st, k).0 == confirmed);
        lemma_answers_kept(st, confirmed);
    } else if k == Key::Char('k') || k == Key::Char('K') {
        assert(existing_step(st, k).0 == kept);
        lemma_answers_kept(st, kept);
    } else if flips(k) {
        assert(existing_step(st, k).0 == flipped);
        lemma_answers_kept(st, flipped);
    } else if k == Key::Enter && st.existing_overwrite_selected {
        assert(existing_step(st, k).0 == overwrite(st));
        lemma_answers_kept(st, overwrite(st));
    } else {
        assert(existing_step(st, k).0 == st);
    }
}

proof fn lemma_wf_final_step(st: AppView, k: Key)
    requires
        app_wf(st),
        st.screen == Screen::FinalConfirm,
    ensures
        app_wf(final_step(st, k).0),
        final_step(st, k).0.disks == st.disks,
{
}

/// Every key keeps the wizard's state consistent.
pub proof fn lemma_step_keeps_wf(st: AppView, k: Key)
    requires
        app_wf(st),
    ensures
        app_wf(key_step(st, k).0),
        key_step(st, k).0.disks == st.disks,
{
    match st.screen {
        Screen::DiskSelect => lemma_wf_disk_select_step(st, k),
        Screen::BootSize => lemma_wf_boot_size_step(st, k),
        Screen::SwapSize => lemma_wf_swap_size_step(st, k),
        Screen::EncryptionChoice => lemma_wf_encryption_choice_step(st, k),
        Screen::Passphrase => lemma_wf_passphrase_step(st, k),
        Screen::PassphraseConfirm => lemma_wf_passphrase_confirm_step(st, k),
        Screen::FlakesChoice => lemma_wf_flakes_choice_step(st, k),
        Screen::ZfsModeChoice => lemma_wf_zfs_mode_choice_step(st, k),
        Screen::ZfsAshift => lemma_wf_zfs_ashift_step(st, k),
        Screen::ZfsRedundancy => lemma_wf_zfs_redundancy_step(st, k),
        Screen::ZfsCompression => lemma_wf_zfs_compression_step(st, k),
        Screen::ZfsCaching => lemma_wf_zfs_caching_step(st, k),
        Screen::ZfsAutotrimChoice => lemma_wf_zfs_autotrim_step(st, k),
        Screen::Hostname => lemma_wf_hostname_step(st, k),
        Screen::Timezone => lemma_wf_timezone_step(st, k),
        Screen::KeyboardLayout => lemma_wf_keyboard_layout_step(st, k),
        Screen::Username => lemma_wf_username_step(st, k),
        Screen::UserPassword => lemma_wf_user_password_step(st, k),
        Screen::UserPasswordConfirm => lemma_wf_user_password_confirm_step(st, k),
        Screen::EnableSudoChoice => lemma_wf_enable_sudo_step(st, k),
        Screen::RootPassword => lemma_wf_root_password_step(st, k),
        Screen::RootPasswordConfirm => lemma_wf_root_password_confirm_step(st, k),
        Screen::NetworkManagerChoice => lemma_wf_networkmanager_step(st, k),
        Screen::FeatureToggles => lemma_wf_feature_toggles_step(st, k),
        Screen::ExistingConfirm => lemma_wf_existing_step(st, k),
        Screen::FinalConfirm => lemma_wf_final_step(st, k),
    }
}

/// The recommended ZFS settings pass every check the installer makes,
/// including the single-disk layout check.
pub proof fn lemma_recommended_zfs_valid()
    ensures
        ashift_check("12"@) is Ok,
        redundancy_check("single"@) is Ok,
        compression_check("lz4"@) is Ok,
        primarycache_check("all"@) is Ok,
        zfs_options_check("12"@, "single"@, "lz4"@, "all"@) is Ok,
{
    reveal_strlit("12");
    reveal_strlit("single");
    reveal_strlit("lz4");
    reveal_strlit("all");
    lemma_plain_word("12"@);
    lemma_plain_word("single"@);
    lemma_plain_word("lz4"@);
    lemma_plain_word("all"@);
    let d = "12"@;
    assert(d.drop_last() =~= seq!['1']);
    assert(seq!['1'].drop_last() =~= Seq::<char>::empty());
    assert(decimal(Seq::<char>::empty()) == 0);
    assert(decimal(seq!['1']) == 1);
    assert(d.last() == '2');
    assert(decimal(d) == 12);
}

/// A word of ASCII lower-case letters and digits is its own trimmed,
/// lower-cased form.
proof fn lemma_plain_word(w: Seq<char>)
    requires
        w.len() > 0,
        forall|i: int| 0 <= i < w.len() ==> ('a' <= #[trigger] w[i] <= 'z' || '0' <= w[i] <= '9'),
    ensures
        trimmed(w) == w,
        normalized(w) == w,
{
    assert(!is_ws(w[0]));
    assert(trim_start(w) == w);
    assert(!is_ws(w.last()));
    assert(trim_end(w) == w);
    assert(lowercase(w) =~= w);
}

/// Reporting the disk inspection keeps the wizard's state consistent.
pub proof fn lemma_inspection_keeps_wf(st: AppView, warnings: Seq<Seq<char>>, existing_found: bool)
    requires
        app_wf(st),
        st.screen == Screen::FeatureToggles,
    ensures
        app_wf(after_inspection(st, warnings, existing_found)),
{
}

/// The same answers, seen from a screen at least as far along, once every
/// answer has been accepted.
proof fn lemma_answers_kept(st: AppView, s2: AppView)
    requires
        inputs_checked(st),
        rank(st.screen) > rank(Screen::RootPasswordConfirm),
        rank(s2.screen) >= rank(st.screen),
        s2.boot_size == st.boot_size,
        s2.swap_size == st.swap_size,
        s2.enable_encryption == st.enable_encryption,
        s2.passphrase == st.passphrase,
        s2.passphrase_confirm == st.passphrase_confirm,
        s2.zfs_ashift == st.zfs_ashift,
        s2.zfs_redundancy == st.zfs_redundancy,
        s2.zfs_compression == st.zfs_compression,
        s2.zfs_primarycache == st.zfs_primarycache,
        s2.hostname == st.hostname,
        s2.timezone == st.timezone,
        s2.keyboard_layout == st.keyboard_layout,
        s2.username == st.username,
        s2.user_password == st.user_password,
        s2.user_password_confirm == st.user_password_confirm,
        s2.root_password == st.root_password,
        s2.root_password_confirm == st.root_password_confirm,
    ensures
        inputs_checked(s2),
{
}

/// The wizard hands over a configuration only from its final confirmation,
/// on Enter with Proceed selected or on F10; the configuration is the one
/// its answers describe, and every answer in it has passed its check.
pub proof fn lemma_install_only_confirmed(st: AppView, k: Key)
    requires
        app_wf(st),
        key_step(st, k).1 matches KeyOutcomeView::Finish(FinalActionView::Install(_)),
    ensures
        st.screen == Screen::FinalConfirm,
        k == Key::F(10) || (k == Key::Enter && st.final_proceed_selected),
        key_step(st, k).1 == KeyOutcomeView::Finish(FinalActionView::Install(config_of(st))),
        config_checked(config_of(st)),
{
    lemma_outcome_screens(st, k);
}

/// The user can leave the wizard only from the disk list, the question
/// about an earlier installation, or the final confirmation.
pub proof fn lemma_exit_screens(st: AppView, k: Key)
    requires
        app_wf(st),
        key_step(st, k).1 == KeyOutcomeView::Finish(FinalActionView::Exit),
    ensures
        st.screen == Screen::DiskSelect || st.screen == Screen::ExistingConfirm || st.screen
            == Screen::FinalConfirm,
{
    lemma_outcome_screens(st, k);
}

/// Which screens end the wizard or ask for the disk to be inspected.
proof fn lemma_outcome_screens(st: AppView, k: Key)
    ensures
        key_step(st, k).1 is Finish ==> (st.screen == Screen::DiskSelect || st.screen
            == Screen::ExistingConfirm || st.screen == Screen::FinalConfirm),
        key_step(st, k).1 is InspectDisk ==> st.screen == Screen::FeatureToggles,
        key_step(st, k).1 matches KeyOutcomeView::Finish(FinalActionView::Install(_))
            ==> st.screen == Screen::FinalConfirm,
{
    match st.screen {
        Screen::DiskSelect => lemma_outcome_disk_select_step(st, k),
        Screen::BootSize => lemma_outcome_boot_size_step(st, k),
        Screen::SwapSize => lemma_outcome_swap_size_step(st, k),
        Screen::EncryptionChoice => lemma_outcome_encryption_choice_step(st, k),
        Screen::Passphrase => lemma_outcome_passphrase_step(st, k),
        Screen::PassphraseConfirm => lemma_outcome_passphrase_confirm_step(st, k),
        Screen::FlakesChoice => lemma_outcome_flakes_choice_step(st, k),
        Screen::ZfsModeChoice => lemma_outcome_zfs_mode_choice_step(st, k),
        Screen::ZfsAshift => lemma_outcome_zfs_ashift_step(st, k),
        Screen::ZfsRedundancy => lemma_outcome_zfs_redundancy_step(st, k),
        Screen::ZfsCompression => lemma_outcome_zfs_compression_step(st, k),
        Screen::ZfsCaching => lemma_outcome_zfs_caching_step(st, k),
        Screen::ZfsAutotrimChoice => lemma_outcome_zfs_autotrim_step(st, k),
        Screen::Hostname => lemma_outcome_hostname_step(st, k),
        Screen::Timezone => lemma_outcome_timezone_step(st, k),
        Screen::KeyboardLayout => lemma_outcome_keyboard_layout_step(st, k),
        Screen::Username => lemma_outcome_username_step(st, k),
        Screen::UserPassword => lemma_outcome_user_password_step(st, k),
        Screen::UserPasswordConfirm => lemma_outcome_user_password_confirm_step(st, k),
        Screen::EnableSudoChoice => lemma_outcome_enable_sudo_step(st, k),
        Screen::RootPassword => lemma_outcome_root_password_step(st, k),
        Screen::RootPasswordConfirm => lemma_outcome_root_password_confirm_step(st, k),
        Screen::NetworkManagerChoice => lemma_outcome_networkmanager_step(st, k),
        Screen::FeatureToggles => lemma_outcome_feature_toggles_step(st, k),
        Screen::ExistingConfirm => lemma_outcome_existing_step(st, k),
        Screen::FinalConfirm => lemma_outcome_final_step(st, k),
    }
}

proof fn lemma_outcome_disk_select_step(st: AppView, k: Key)
    ensures
        !(disk_select_step(st, k).1 is InspectDisk),
        !(disk_select_step(st, k).1 matches KeyOutcomeView::Finish(FinalActionView::Install(_))),
{
}

proof fn lemma_outcome_boot_size_step(st: AppView, k: Key)
    ensures
        boot_size_step(st, k).1 == KeyOutcomeView::Continue,
{
}

proof fn lemma_outcome_swap_size_step(st: AppView, k: Key)
    ensures
        swap_size_step(st, k).1 == KeyOutcomeView::Continue,
{
}

proof fn lemma_outcome_encryption_choice_step(st: AppView, k: Key)
    ensures
        encryption_choice_step(st, k).1 == KeyOutcomeView::Continue,
{
}

proof fn lemma_outcome_passphrase_step(st: AppView, k: Key)
    ensures
        passphrase_step(st, k).1 == KeyOutcomeView::Continue,
{
}

proof fn lemma_outcome_passphrase_confirm_step(st: AppView, k: Key)
    ensures
        passphrase_confirm_step(st, k).1 == KeyOutcomeView::Continue,
{
}

proof fn lemma_outcome_flakes_choice_step(st: AppView, k: Key)
    ensures
        flakes_choice_step(st, k).1 == KeyOutcomeView::Continue,
{
}

proof fn lemma_outcome_zfs_mode_choice_step(st: AppView, k: Key)
    ensures
        zfs_mode_choice_step(st, k).1 == KeyOutcomeView::Continue,
{
}

proof fn lemma_outcome_zfs_ashift_step(st: AppView, k: Key)
    ensures
        zfs_ashift_step(st, k).1 == KeyOutcomeView::Continue,
{
}

proof fn lemma_outcome_zfs_redundancy_step(st: AppView, k: Key)
    ensures
        zfs_redundancy_step(st, k).1 == KeyOutcomeView::Continue,
{
}

proof fn lemma_outcome_zfs_compression_step(st: AppView, k: Key)
    ensures
        zfs_compression_step(st, k).1 == KeyOutcomeView::Continue,
{
}

proof fn lemma_outcome_zfs_caching_step(st: AppView, k: Key)
    ensures
        zfs_caching_step(st, k).1 == KeyOutcomeView::Continue,
{
}

proof fn lemma_outcome_zfs_autotrim_step(st: AppView, k: Key)
    ensures
        zfs_autotrim_step(st, k).1 == KeyOutcomeView::Continue,
{
}

proof fn lemma_outcome_hostname_step(st: AppView, k: Key)
    ensures
        hostname_step(st, k).1 == KeyOutcomeView::Continue,
{
}

proof fn lemma_outcome_timezone_step(st: AppView, k: Key)
    ensures
        timezone_step(st, k).1 == KeyOutcomeView::Continue,
{
}

proof fn lemma_outcome_keyboard_layout_step(st: AppView, k: Key)
    ensures
        keyboard_layout_step(st, k).1 == KeyOutcomeView::Continue,
{
}

proof fn lemma_outcome_username_step(st: AppView, k: Key)
    ensures
        username_step(st, k).1 == KeyOutcomeView::Continue,
{
}

proof fn lemma_outcome_user_password_step(st: AppView, k: Key)
    ensures
        user_password_step(st, k).1 == KeyOutcomeView::Continue,
{
}

proof fn lemma_outcome_user_password_confirm_step(st: AppView, k: Key)
    ensures
        user_password_confirm_step(st, k).1 == KeyOutcomeView::Continue,
{
}

proof fn lemma_outcome_enable_sudo_step(st: AppView, k: Key)
    ensures
        enable_sudo_step(st, k).1 == KeyOutcomeView::Continue,
{
}

proof fn lemma_outcome_root_password_step(st: AppView, k: Key)
    ensures
        root_password_step(st, k).1 == KeyOutcomeView::Continue,
{
}

proof fn lemma_outcome_root_password_confirm_step(st: AppView, k: Key)
    ensures
        root_password_confirm_step(st, k).1 == KeyOutcomeView::Continue,
{
}

proof fn lemma_outcome_networkmanager_step(st: AppView, k: Key)
    ensures
        networkmanager_step(st, k).1 == KeyOutcomeView::Continue,
{
}

proof fn lemma_outcome_feature_toggles_step(st: AppView, k: Key)
    ensures
        !(feature_toggles_step(st, k).1 is Finish),
{
}

proof fn lemma_outcome_existing_step(st: AppView, k: Key)
    ensures
        !(existing_step(st, k).1 is InspectDisk),
        !(existing_step(st, k).1 matches KeyOutcomeView::Finish(FinalActionView::Install(_))),
{
}

proof fn lemma_outcome_final_step(st: AppView, k: Key)
    ensures
        !(final_step(st, k).1 is InspectDisk),
{
}


/// Backspace takes back a character that a text field accepted.
pub proof fn lemma_backspace_undoes_typing(v: Seq<char>, c: char, t: Typing)
    requires
        typed(v, Key::Char(c), t) != v,
    ensures
        typed(typed(v, Key::Char(c), t), Key::Backspace, t) == v,
{
    assert(typed(v, Key::Char(c), t).drop_last() =~= v);
}


/// What the current screen shows, besides the title bar and the status line.
#[derive(Debug, PartialEq, Eq)]
pub enum Panel {
    /// The offered disks, with the cursor on `selected`.
    Disks { disks: Vec<Disk>, selected: usize },
    /// A text field; secret values are shown as one `*` per character.
    Value { title: String, prompt: String, value: String },
    /// A yes/no question.
    YesNo { title: String, prompt: String, yes_selected: bool },
    /// The optional programs and Continue, with the cursor on `selected`.
    Features { rows: Vec<String>, selected: usize },
    /// The question about an earlier installation on the disk.
    Existing { disk_line: String, overwrite_selected: bool },
    /// The summary before anything is written, with the disk's warnings.
    Final { summary: Vec<String>, warnings: Vec<String>, proceed_selected: bool },
}

pub enum PanelView {
    Disks { disks: Seq<DiskView>, selected: nat },
    Value { title: Seq<char>, prompt: Seq<char>, value: Seq<char> },
    YesNo { title: Seq<char>, prompt: Seq<char>, yes_selected: bool },
    Features { rows: Seq<Seq<char>>, selected: nat },
    Existing { disk_line: Seq<char>, overwrite_selected: bool },
    Final { summary: Seq<Seq<char>>, warnings: Seq<Seq<char>>, proceed_selected: bool },
}

impl View for Panel {
    type V = PanelView;

    open spec fn view(&self) -> PanelView {
        match self {
            Panel::Disks { disks, selected } => PanelView::Disks {
                disks: disk_views(disks@),
                selected: *selected as nat,
            },
            Panel::Value { title, prompt, value } => PanelView::Value {
                title: title@,
                prompt: prompt@,
                value: value@,
            },
            Panel::YesNo { title, prompt, yes_selected } => PanelView::YesNo {
                title: title@,
                prompt: prompt@,
                yes_selected: *yes_selected,
            },
            Panel::Features { rows, selected } => PanelView::Features {
                rows: text_views(rows@),
                selected: *selected as nat,
            },
            Panel::Existing { disk_line, overwrite_selected } => PanelView::Existing {
                disk_line: disk_line@,
                overwrite_selected: *overwrite_selected,
            },
            Panel::Final { summary, warnings, proceed_selected } => PanelView::Final {
                summary: text_views(summary@),
                warnings: text_views(warnings@),
                proceed_selected: *proceed_selected,
            },
        }
    }
}

/// One `*` for each character of a secret.
pub open spec fn masked(v: Seq<char>) -> Seq<char> {
    Seq::new(v.len(), |i: int| '*')
}

pub open spec fn enabled_word(b: bool) -> Seq<char> {
    if b {
        "enabled"@
    } else {
        "disabled"@
    }
}

pub open spec fn on_off(b: bool) -> Seq<char> {
    if b {
        "on"@
    } else {
        "off"@
    }
}

/// A disk as the confirmations describe it: path, then size and model.
pub open spec fn disk_line(d: DiskView) -> Seq<char> {
    "Disk: "@ + d.path + " ("@ + d.size + ", "@ + d.model + ")"@
}

/// The summary of the answers shown before anything is written.
pub open spec fn final_summary(st: AppView) -> Seq<Seq<char>> {
    seq![
        disk_line(st.disks[st.selected_disk as int]),
        "Boot: "@ + st.boot_size,
        "Swap: "@ + st.swap_size,
        "Encryption: "@ + enabled_word(st.enable_encryption),
        "Flakes: "@ + enabled_word(st.enable_flakes),
        "Hostname: "@ + st.hostname,
        "Timezone: "@ + st.timezone,
        "Keyboard: "@ + st.keyboard_layout,
        "User: "@ + st.username,
        "Sudo: "@ + enabled_word(st.enable_sudo),
        "NetworkManager: "@ + enabled_word(st.install_networkmanager),
        "Git: "@ + enabled_word(st.enable_git),
        "SSH: "@ + enabled_word(st.enable_ssh),
        "ZFS profile: "@ + if st.zfs_use_recommended {
            "recommended"@
        } else {
            "advanced"@
        },
        "ZFS ashift: "@ + st.zfs_ashift,
        "ZFS redundancy: "@ + st.zfs_redundancy,
        "ZFS compression: "@ + st.zfs_compression,
        "ZFS cache: "@ + st.zfs_primarycache,
        "ZFS autotrim: "@ + on_off(st.zfs_autotrim),
    ]
}

/// Each warning as a list item.
pub open spec fn warning_lines(w: Seq<Seq<char>>) -> Seq<Seq<char>> {
    w.map_values(|x: Seq<char>| "- "@ + x)
}

/// The rows of the programs screen.
pub open spec fn feature_rows(st: AppView) -> Seq<Seq<char>> {
    seq![
        "Git: "@ + if st.enable_git {
            "[ON]"@
        } else {
            "[OFF]"@
        },
        "SSH: "@ + if st.enable_ssh {
            "[ON]"@
        } else {
            "[OFF]"@
        },
        "Continue"@,
    ]
}

/// What the screen of a state shows.
pub open spec fn panel_of(st: AppView) -> PanelView {
    match st.screen {
        Screen::DiskSelect => PanelView::Disks { disks: st.disks, selected: st.selected_disk },
        Screen::BootSize => PanelView::Value { title: "Step 2/7 - Boot Partition"@, prompt: "Enter boot partition size (examples: 512M, 1G, 2G)."@, value: st.boot_size },
        Screen::SwapSize => PanelView::Value { title: "Step 3/7 - Swap Partition"@, prompt: "Enter swap partition size (examples: 4G, 8G, 16G)."@, value: st.swap_size },
        Screen::Passphrase => PanelView::Value { title: "Step 5/7 - Encryption Passphrase"@, prompt: "Enter passphrase (minimum 8 characters)."@, value: masked(st.passphrase) },
        Screen::PassphraseConfirm => PanelView::Value { title: "Step 6/7 - Confirm Passphrase"@, prompt: "Enter the same passphrase again."@, value: masked(st.passphrase_confirm) },
        Screen::ZfsAshift => PanelView::Value { title: "ZFS - ashift"@, prompt: "Set ashift (9-16). Common values: 12 for 4K sectors, 13 for 8K sectors."@, value: st.zfs_ashift },
        Screen::ZfsRedundancy => PanelView::Value { title: "ZFS - Redundancy Level"@, prompt: "Set redundancy: single, mirror, raidz1, raidz2, raidz3. Note: single-disk mode currently supports only single."@, value: st.zfs_redundancy },
        Screen::ZfsCompression => PanelView::Value { title: "ZFS - Compression"@, prompt: "Set compression: lz4 (recommended), zstd, gzip, zle, on, off."@, value: st.zfs_compression },
        Screen::ZfsCaching => PanelView::Value { title: "ZFS - Caching"@, prompt: "Set primarycache: all (default), metadata, or none."@, value: st.zfs_primarycache },
        Screen::Hostname => PanelView::Value { title: "System - Hostname"@, prompt: "Enter hostname (example: nixos, laptop, server01)."@, value: st.hostname },
        Screen::Timezone => PanelView::Value { title: "System - Timezone"@, prompt: "Enter timezone (example: UTC, Europe/Berlin, America/New_York)."@, value: st.timezone },
        Screen::KeyboardLayout => PanelView::Value { title: "System - Keyboard Layout"@, prompt: "Enter keymap/layout (example: us, de, fr)."@, value: st.keyboard_layout },
        Screen::Username => PanelView::Value { title: "User - Username"@, prompt: "Enter username for the initial user account."@, value: st.username },
        Screen::UserPassword => PanelView::Value { title: "User - Password"@, prompt: "Enter password for the initial user account."@, value: masked(st.user_password) },
        Screen::UserPasswordConfirm => PanelView::Value { title: "User - Confirm Password"@, prompt: "Enter the same user password again."@, value: masked(st.user_password_confirm) },
        Screen::RootPassword => PanelView::Value { title: "Root - Password"@, prompt: "Enter root password."@, value: masked(st.root_password) },
        Screen::RootPasswordConfirm => PanelView::Value { title: "Root - Confirm Password"@, prompt: "Enter the same root password again."@, value: masked(st.root_password_confirm) },
        Screen::EncryptionChoice => PanelView::YesNo { title: "Step 4/7 - Encryption"@, prompt: "Enable ZFS root encryption?"@, yes_selected: st.choice_yes_selected },
        Screen::FlakesChoice => PanelView::YesNo { title: "Step 7/7 - Nix Flakes"@, prompt: "Enable nix-command and flakes in generated configuration?"@, yes_selected: st.choice_yes_selected },
        Screen::ZfsModeChoice => PanelView::YesNo { title: "ZFS - Recommended or Advanced"@, prompt: "Use recommended defaults? Yes = ashift=12, redundancy=single, compression=lz4, primarycache=all, autotrim=on. No = configure each option manually."@, yes_selected: st.choice_yes_selected },
        Screen::ZfsAutotrimChoice => PanelView::YesNo { title: "ZFS - Autotrim"@, prompt: "Enable autotrim? Recommended for SSD/NVMe, usually disabled for HDD-only pools."@, yes_selected: st.choice_yes_selected },
        Screen::EnableSudoChoice => PanelView::YesNo { title: "User - Sudo Access"@, prompt: "Should this user be added to the wheel (sudo) group?"@, yes_selected: st.choice_yes_selected },
        Screen::NetworkManagerChoice => PanelView::YesNo { title: "Network"@, prompt: "Enable NetworkManager?"@, yes_selected: st.choice_yes_selected },
        Screen::FeatureToggles => PanelView::Features {
            rows: feature_rows(st),
            selected: st.feature_toggle_selected,
        },
        Screen::ExistingConfirm => PanelView::Existing {
            disk_line: disk_line(st.disks[st.selected_disk as int]),
            overwrite_selected: st.existing_overwrite_selected,
        },
        Screen::FinalConfirm => PanelView::Final {
            summary: final_summary(st),
            warnings: warning_lines(st.warnings),
            proceed_selected: st.final_proceed_selected,
        },
    }
}

fn mask_text(s: &str) -> (r: String)
    ensures
        r@ == masked(s@),
{
    let n = s.unicode_len();
    let mut r = String::new();
    let mut i: usize = 0;
    while i < n
        invariant
            i <= n,
            n == s@.len(),
            r@ == Seq::new(i as nat, |j: int| '*'),
        decreases n - i,
    {
        push_char(&mut r, '*');
        i = i + 1;
        assert(r@ =~= Seq::new(i as nat, |j: int| '*'));
    }
    assert(r@ =~= masked(s@));
    r
}

fn joined(a: &str, b: &str) -> (r: String)
    ensures
        r@ == a@ + b@,
{
    let mut s = owned(a);
    s.append(b);
    s
}

fn enabled_text(b: bool) -> (r: &'static str)
    ensures
        r@ == enabled_word(b),
{
    if b {
        "enabled"
    } else {
        "disabled"
    }
}

fn describe_disk(d: &Disk) -> (r: String)
    ensures
        r@ == disk_line(d@),
{
    let mut s = owned("Disk: ");
    s.append(d.path.as_str());
    s.append(" (");
    s.append(d.size.as_str());
    s.append(", ");
    s.append(d.model.as_str());
    s.append(")");
    s
}

fn disk_list(disks: &Vec<Disk>) -> (r: Vec<Disk>)
    ensures
        disk_views(r@) == disk_views(disks@),
{
    let mut v: Vec<Disk> = Vec::new();
    let mut i: usize = 0;
    while i < disks.len()
        invariant
            i <= disks@.len(),
            v@.len() == i,
            forall|k: int| 0 <= k < i ==> #[trigger] v@[k]@ == disks@[k]@,
        decreases disks@.len() - i,
    {
        v.push(disks[i].duplicate());
        i = i + 1;
    }
    assert(disk_views(v@) =~= disk_views(disks@));
    v
}

fn list_warnings(w: &Vec<String>) -> (r: Vec<String>)
    ensures
        text_views(r@) == warning_lines(text_views(w@)),
{
    let mut v: Vec<String> = Vec::new();
    let mut i: usize = 0;
    while i < w.len()
        invariant
            i <= w@.len(),
            v@.len() == i,
            forall|k: int| 0 <= k < i ==> #[trigger] v@[k]@ == "- "@ + w@[k]@,
        decreases w@.len() - i,
    {
        v.push(joined("- ", w[i].as_str()));
        i = i + 1;
    }
    assert(text_views(v@) =~= warning_lines(text_views(w@)));
    v
}

impl App {
    fn final_summary(&self) -> (r: Vec<String>)
        requires
            app_wf(self@),
        ensures
            text_views(r@) == final_summary(self@),
    {
        let mut v: Vec<String> = Vec::new();
        v.push(describe_disk(&self.disks[self.selected_disk]));
        v.push(joined("Boot: ", self.boot_size.as_str()));
        v.push(joined("Swap: ", self.swap_size.as_str()));
        v.push(joined("Encryption: ", enabled_text(self.enable_encryption)));
        v.push(joined("Flakes: ", enabled_text(self.enable_flakes)));
        v.push(joined("Hostname: ", self.hostname.as_str()));
        v.push(joined("Timezone: ", self.timezone.as_str()));
        v.push(joined("Keyboard: ", self.keyboard_layout.as_str()));
        v.push(joined("User: ", self.username.as_str()));
        v.push(joined("Sudo: ", enabled_text(self.enable_sudo)));
        v.push(joined("NetworkManager: ", enabled_text(self.install_networkmanager)));
        v.push(joined("Git: ", enabled_text(self.enable_git)));
        v.push(joined("SSH: ", enabled_text(self.enable_ssh)));
        v.push(
            joined(
                "ZFS profile: ",
                if self.zfs_use_recommended {
                    "recommended"
                } else {
                    "advanced"
                },
            ),
        );
        v.push(joined("ZFS ashift: ", self.zfs_ashift.as_str()));
        v.push(joined("ZFS redundancy: ", self.zfs_redundancy.as_str()));
        v.push(joined("ZFS compression: ", self.zfs_compression.as_str()));
        v.push(joined("ZFS cache: ", self.zfs_primarycache.as_str()));
        v.push(joined("ZFS autotrim: ", if self.zfs_autotrim { "on" } else { "off" }));
        assert(text_views(v@) =~= final_summary(self@));
        v
    }

    fn feature_rows(&self) -> (r: Vec<String>)
        ensures
            text_views(r@) == feature_rows(self@),
    {
        let mut v: Vec<String> = Vec::new();
        v.push(joined("Git: ", if self.enable_git { "[ON]" } else { "[OFF]" }));
        v.push(joined("SSH: ", if self.enable_ssh { "[ON]" } else { "[OFF]" }));
        v.push(owned("Continue"));
        assert(text_views(v@) =~= feature_rows(self@));
        v
    }

    /// What the current screen shows.
    pub fn panel(&self) -> (r: Panel)
        requires
            app_wf(self@),
        ensures
            r@ == panel_of(self@),
    {
        match self.screen {
            Screen::DiskSelect => Panel::Disks {
                disks: disk_list(&self.disks),
                selected: self.selected_disk,
            },
            Screen::BootSize => Panel::Value { title: owned("Step 2/7 - Boot Partition"), prompt: owned("Enter boot partition size (examples: 512M, 1G, 2G)."), value: self.boot_size.clone() },
            Screen::SwapSize => Panel::Value { title: owned("Step 3/7 - Swap Partition"), prompt: owned("Enter swap partition size (examples: 4G, 8G, 16G)."), value: self.swap_size.clone() },
            Screen::Passphrase => Panel::Value { title: owned("Step 5/7 - Encryption Passphrase"), prompt: owned("Enter passphrase (minimum 8 characters)."), value: mask_text(self.passphrase.as_str()) },
            Screen::PassphraseConfirm => Panel::Value { title: owned("Step 6/7 - Confirm Passphrase"), prompt: owned("Enter the same passphrase again."), value: mask_text(self.passphrase_confirm.as_str()) },
            Screen::ZfsAshift => Panel::Value { title: owned("ZFS - ashift"), prompt: owned("Set ashift (9-16). Common values: 12 for 4K sectors, 13 for 8K sectors."), value: self.zfs_ashift.clone() },
            Screen::ZfsRedundancy => Panel::Value { title: owned("ZFS - Redundancy Level"), prompt: owned("Set redundancy: single, mirror, raidz1, raidz2, raidz3. Note: single-disk mode currently supports only single."), value: self.zfs_redundancy.clone() },
            Screen::ZfsCompression => Panel::Value { title: owned("ZFS - Compression"), prompt: owned("Set compression: lz4 (recommended), zstd, gzip, zle, on, off."), value: self.zfs_compression.clone() },
            Screen::ZfsCaching => Panel::Value { title: owned("ZFS - Caching"), prompt: owned("Set primarycache: all (default), metadata, or none."), value: self.zfs_primarycache.clone() },
            Screen::Hostname => Panel::Value { title: owned("System - Hostname"), prompt: owned("Enter hostname (example: nixos, laptop, server01)."), value: self.hostname.clone() },
            Screen::Timezone => Panel::Value { title: owned("System - Timezone"), prompt: owned("Enter timezone (example: UTC, Europe/Berlin, America/New_York)."), value: self.timezone.clone() },
            Screen::KeyboardLayout => Panel::Value { title: owned("System - Keyboard Layout"), prompt: owned("Enter keymap/layout (example: us, de, fr)."), value: self.keyboard_layout.clone() },
            Screen::Username => Panel::Value { title: owned("User - Username"), prompt: owned("Enter username for the initial user account."), value: self.username.clone() },
            Screen::UserPassword => Panel::Value { title: owned("User - Password"), prompt: owned("Enter password for the initial user account."), value: mask_text(self.user_password.as_str()) },
            Screen::UserPasswordConfirm => Panel::Value { title: owned("User - Confirm Password"), prompt: owned("Enter the same user password again."), value: mask_text(self.user_password_confirm.as_str()) },
            Screen::RootPassword => Panel::Value { title: owned("Root - Password"), prompt: owned("Enter root password."), value: mask_text(self.root_password.as_str()) },
            Screen::RootPasswordConfirm => Panel::Value { title: owned("Root - Confirm Password"), prompt: owned("Enter the same root password again."), value: mask_text(self.root_password_confirm.as_str()) },
            Screen::EncryptionChoice => Panel::YesNo { title: owned("Step 4/7 - Encryption"), prompt: owned("Enable ZFS root encryption?"), yes_selected: self.choice_yes_selected },
            Screen::FlakesChoice => Panel::YesNo { title: owned("Step 7/7 - Nix Flakes"), prompt: owned("Enable nix-command and flakes in generated configuration?"), yes_selected: self.choice_yes_selected },
            Screen::ZfsModeChoice => Panel::YesNo { title: owned("ZFS - Recommended or Advanced"), prompt: owned("Use recommended defaults? Yes = ashift=12, redundancy=single, compression=lz4, primarycache=all, autotrim=on. No = configure each option manually."), yes_selected: self.choice_yes_selected },
            Screen::ZfsAutotrimChoice => Panel::YesNo { title: owned("ZFS - Autotrim"), prompt: owned("Enable autotrim? Recommended for SSD/NVMe, usually disabled for HDD-only pools."), yes_selected: self.choice_yes_selected },
            Screen::EnableSudoChoice => Panel::YesNo { title: owned("User - Sudo Access"), prompt: owned("Should this user be added to the wheel (sudo) group?"), yes_selected: self.choice_yes_selected },
            Screen::NetworkManagerChoice => Panel::YesNo { title: owned("Network"), prompt: owned("Enable NetworkManager?"), yes_selected: self.choice_yes_selected },
            Screen::FeatureToggles => Panel::Features {
                rows: self.feature_rows(),
                selected: self.feature_toggle_selected,
            },
            Screen::ExistingConfirm => Panel::Existing {
                disk_line: describe_disk(&self.disks[self.selected_disk]),
                overwrite_selected: self.existing_overwrite_selected,
            },
            Screen::FinalConfirm => Panel::Final {
                summary: self.final_summary(),
                warnings: list_warnings(&self.warnings),
                proceed_selected: self.final_proceed_selected,
            },
        }
    }

    /// The status line.
    pub fn status(&self) -> (r: String)
        ensures
            r@ == self@.status,
    {
        self.status.clone()
    }

    /// The current screen.
    pub fn screen(&self) -> (r: Screen)
        ensures
            r == self@.screen,
    {
        self.screen
    }
}

/// A configuration whose answers passed the wizard's checks is refused by
/// the installer only when its redundancy is not the single-disk layout, and
/// then with that refusal.
pub proof fn lemma_confirmed_config_installs(c: InstallConfigView)
    requires
        config_checked(c),
    ensures
        zfs_options_check(c.zfs_ashift, c.zfs_redundancy, c.zfs_compression, c.zfs_primarycache)
            is Ok <==> normalized(c.zfs_redundancy) == "single"@,
        zfs_options_check(c.zfs_ashift, c.zfs_redundancy, c.zfs_compression, c.zfs_primarycache)
            is Err ==> zfs_options_check(
            c.zfs_ashift,
            c.zfs_redundancy,
            c.zfs_compression,
            c.zfs_primarycache,
        ) == Err::<(), ValidationErrorView>(
            ValidationErrorView::RedundancyUnsupported { value: c.zfs_redundancy },
        ),
{
}

/// The secret a screen asks for: the passphrase, the user or root password,
/// or their confirmations.
pub open spec fn secret_of(st: AppView) -> Option<Seq<char>> {
    match st.screen {
        Screen::Passphrase => Some(st.passphrase),
        Screen::PassphraseConfirm => Some(st.passphrase_confirm),
        Screen::UserPassword => Some(st.user_password),
        Screen::UserPasswordConfirm => Some(st.user_password_confirm),
        Screen::RootPassword => Some(st.root_password),
        Screen::RootPasswordConfirm => Some(st.root_password_confirm),
        _ => None,
    }
}

/// A secret is never shown: its screen shows one `*` for each of its
/// characters and nothing of the characters themselves.
pub proof fn lemma_secrets_masked(st: AppView)
    requires
        secret_of(st) is Some,
    ensures
        panel_of(st) matches PanelView::Value { value, .. } && value.len() == secret_of(st)->0.len()
            && forall|i: int| 0 <= i < value.len() ==> value[i] == '*',
{
}

/// On the disk list, `q` and Esc leave the wizard; Up and Down move the
/// cursor by one, staying on the list; Enter moves on to the boot partition
/// size; every other key changes nothing.
pub proof fn lemma_disk_list_keys(st: AppView, k: Key)
    requires
        app_wf(st),
        st.screen == Screen::DiskSelect,
    ensures
        (k == Key::Char('q') || k == Key::Esc) ==> key_step(st, k) == (
            st,
            KeyOutcomeView::Finish(FinalActionView::Exit),
        ),
        !(k == Key::Char('q') || k == Key::Esc) ==> key_step(st, k).1 == KeyOutcomeView::Continue,
        key_step(st, k).0.selected_disk < st.disks.len(),
        k == Key::Down ==> key_step(st, k).0 == (AppView {
            selected_disk: if st.selected_disk + 1 < st.disks.len() {
                st.selected_disk + 1
            } else {
                st.selected_disk
            },
            ..st
        }),
        k == Key::Up ==> key_step(st, k).0 == (AppView {
            selected_disk: if st.selected_disk > 0 {
                (st.selected_disk - 1) as nat
            } else {
                0
            },
            ..st
        }),
        k == Key::Enter ==> key_step(st, k).0.screen == Screen::BootSize && key_step(st, k).0.selected_disk
            == st.selected_disk,
        !(k == Key::Char('q') || k == Key::Esc || k == Key::Up || k == Key::Down || k == Key::Enter)
            ==> key_step(st, k).0 == st,
{
}

/// On the programs screen, Up and Down move the cursor over its three rows;
/// a toggle key (or Enter on Git or SSH) flips the feature under the cursor
/// and nothing else; a toggle key on Continue changes nothing. None of these
/// leaves the screen.
pub proof fn lemma_feature_toggle_keys(st: AppView, k: Key)
    requires
        app_wf(st),
        st.screen == Screen::FeatureToggles,
        k == Key::Up || k == Key::Down || k == Key::Left || k == Key::Right || k == Key::Tab || k
            == Key::Char(' ') || (k == Key::Enter && st.feature_toggle_selected < 2),
    ensures
        key_step(st, k).1 == KeyOutcomeView::Continue,
        key_step(st, k).0.screen == Screen::FeatureToggles,
        key_step(st, k).0.feature_toggle_selected <= 2,
        k == Key::Up ==> key_step(st, k).0 == (AppView {
            feature_toggle_selected: if st.feature_toggle_selected > 0 {
                (st.feature_toggle_selected - 1) as nat
            } else {
                0
            },
            ..st
        }),
        k == Key::Down ==> key_step(st, k).0 == (AppView {
            feature_toggle_selected: if st.feature_toggle_selected < 2 {
                st.feature_toggle_selected + 1
            } else {
                2
            },
            ..st
        }),
        !(k == Key::Up || k == Key::Down) && st.feature_toggle_selected == 0 ==> key_step(st, k).0
            == (AppView { enable_git: !st.enable_git, ..st }),
        !(k == Key::Up || k == Key::Down) && st.feature_toggle_selected == 1 ==> key_step(st, k).0
            == (AppView { enable_ssh: !st.enable_ssh, ..st }),
        !(k == Key::Up || k == Key::Down) && st.feature_toggle_selected == 2 ==> key_step(st, k).0
            == st,
{
}

/// Enter on a yes/no question records the choice selected at that moment
/// as the answer, and the arrow and Tab keys flip that choice; choosing the
/// recommended ZFS setup sets ashift 12, single redundancy, lz4 compression,
/// primarycache all and autotrim on.
pub proof fn lemma_choices_recorded(st: AppView, k: Key)
    ensures
        st.screen == Screen::EncryptionChoice ==> key_step(st, Key::Enter).0.enable_encryption
            == st.choice_yes_selected,
        st.screen == Screen::FlakesChoice ==> key_step(st, Key::Enter).0.enable_flakes
            == st.choice_yes_selected,
        st.screen == Screen::ZfsModeChoice ==> key_step(st, Key::Enter).0.zfs_use_recommended
            == st.choice_yes_selected,
        st.screen == Screen::ZfsAutotrimChoice ==> key_step(st, Key::Enter).0.zfs_autotrim
            == st.choice_yes_selected,
        st.screen == Screen::EnableSudoChoice ==> key_step(st, Key::Enter).0.enable_sudo
            == st.choice_yes_selected,
        st.screen == Screen::NetworkManagerChoice ==> key_step(st, Key::Enter).0.install_networkmanager
            == st.choice_yes_selected,
        (st.screen == Screen::EncryptionChoice || st.screen == Screen::FlakesChoice || st.screen
            == Screen::ZfsModeChoice || st.screen == Screen::ZfsAutotrimChoice || st.screen
            == Screen::EnableSudoChoice || st.screen == Screen::NetworkManagerChoice) && (k
            == Key::Left || k == Key::Right || k == Key::Up || k == Key::Down || k == Key::Tab)
            ==> key_step(st, k).0.choice_yes_selected == !st.choice_yes_selected && key_step(
            st,
            k,
        ).0.screen == st.screen,
        (st.screen == Screen::ZfsModeChoice && st.choice_yes_selected) ==> ({
            let s2 = key_step(st, Key::Enter).0;
            &&& s2.zfs_ashift == "12"@
            &&& s2.zfs_redundancy == "single"@
            &&& s2.zfs_compression == "lz4"@
            &&& s2.zfs_primarycache == "all"@
            &&& s2.zfs_autotrim
        }),
{
}

} // verus!
