//! The values the wizard gathers and hands to the installer.
use vstd::prelude::*;

verus! {

/// A block device offered for installation.
#[derive(Clone, Debug, PartialEq, Eq)]
pub struct Disk {
    pub path: String,
    pub size: String,
    pub model: String,
}

/// The texts of a [`Disk`].
pub struct DiskView {
    pub path: Seq<char>,
    pub size: Seq<char>,
    pub model: Seq<char>,
}

impl View for Disk {
    type V = DiskView;

    open spec fn view(&self) -> DiskView {
        DiskView { path: self.path@, size: self.size@, model: self.model@ }
    }
}

impl Disk {
    /// A copy of this disk description.
    pub fn duplicate(&self) -> (r: Disk)
        ensures
            r@ == self@,
    {
        Disk { path: self.path.clone(), size: self.size.clone(), model: self.model.clone() }
    }
}

/// Everything the installer needs to partition, format and configure the target.
#[derive(Clone, Debug, PartialEq, Eq)]
pub struct InstallConfig {
    pub disk: Disk,
    pub boot_size: String,
    pub swap_size: String,
    pub passphrase: String,
    pub enable_encryption: bool,
    pub enable_flakes: bool,
    pub hostname: String,
    pub timezone: String,
    pub keyboard_layout: String,
    pub username: String,
    pub user_password: String,
    pub enable_sudo: bool,
    pub root_password: String,
    pub install_networkmanager: bool,
    pub enable_git: bool,
    pub enable_ssh: bool,
    pub zfs_use_recommended: bool,
    pub zfs_ashift: String,
    pub zfs_redundancy: String,
    pub zfs_compression: String,
    pub zfs_primarycache: String,
    pub zfs_autotrim: bool,
}

/// The texts and flags of an [`InstallConfig`].
pub struct InstallConfigView {
    pub disk: DiskView,
    pub boot_size: Seq<char>,
    pub swap_size: Seq<char>,
    pub passphrase: Seq<char>,
    pub enable_encryption: bool,
    pub enable_flakes: bool,
    pub hostname: Seq<char>,
    pub timezone: Seq<char>,
    pub keyboard_layout: Seq<char>,
    pub username: Seq<char>,
    pub user_password: Seq<char>,
    pub enable_sudo: bool,
    pub root_password: Seq<char>,
    pub install_networkmanager: bool,
    pub enable_git: bool,
    pub enable_ssh: bool,
    pub zfs_use_recommended: bool,
    pub zfs_ashift: Seq<char>,
    pub zfs_redundancy: Seq<char>,
    pub zfs_compression: Seq<char>,
    pub zfs_primarycache: Seq<char>,
    pub zfs_autotrim: bool,
}

impl View for InstallConfig {
    type V = InstallConfigView;

    open spec fn view(&self) -> InstallConfigView {
        InstallConfigView {
            disk: self.disk@,
            boot_size: self.boot_size@,
            swap_size: self.swap_size@,
            passphrase: self.passphrase@,
            enable_encryption: self.enable_encryption,
            enable_flakes: self.enable_flakes,
            hostname: self.hostname@,
            timezone: self.timezone@,
            keyboard_layout: self.keyboard_layout@,
            username: self.username@,
            user_password: self.user_password@,
            enable_sudo: self.enable_sudo,
            root_password: self.root_password@,
            install_networkmanager: self.install_networkmanager,
            enable_git: self.enable_git,
            enable_ssh: self.enable_ssh,
            zfs_use_recommended: self.zfs_use_recommended,
            zfs_ashift: self.zfs_ashift@,
            zfs_redundancy: self.zfs_redundancy@,
            zfs_compression: self.zfs_compression@,
            zfs_primarycache: self.zfs_primarycache@,
            zfs_autotrim: self.zfs_autotrim,
        }
    }
}

/// How the wizard ended: the user left, or confirmed an installation.
#[derive(Clone, Debug, PartialEq, Eq)]
pub enum FinalAction {
    Exit,
    Install(InstallConfig),
}

/// A [`FinalAction`] by its view.
pub enum FinalActionView {
    Exit,
    Install(InstallConfigView),
}

impl View for FinalAction {
    type V = FinalActionView;

    open spec fn view(&self) -> FinalActionView {
        match self {
            FinalAction::Exit => FinalActionView::Exit,
            FinalAction::Install(cfg) => FinalActionView::Install(cfg@),
        }
    }
}

} // verus!
