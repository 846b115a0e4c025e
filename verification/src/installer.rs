//! The installation itself, as a state machine. The library decides every
//! step: which command to run with which arguments, what to write where, how
//! to react to each result. The caller performs the steps and reports back.
use vstd::prelude::*;
use vstd::string::*;

use crate::nixconf::{
    is_host_id, patch_configuration, random_host_id, patched_configuration, setup_module, setup_module_text,
    zfs_module, zfs_module_text,
};
use crate::disks::zpool_uses_disk;
use crate::text::{has_prefix, lowercase, owned, starts_with, trim_str, trimmed};
use crate::types::{InstallConfig, InstallConfigView};
use crate::validate::{
    error_message, outcome, validate_zfs_options, zfs_options_check, ValidationError,
    ValidationErrorView,
};

verus! {

/// A partition the installer creates and later refers to by its device path.
#[derive(Clone, Copy, Debug, PartialEq, Eq)]
pub enum Slot {
    Boot,
    Swap,
    Root,
}

/// A command argument: fixed text, a partition's device path once known, or
/// the `keylocation=file://...` option naming the key file.
#[derive(Debug, PartialEq, Eq)]
pub enum Arg {
    Text(String),
    Part(Slot),
    KeyLocation,
}

pub enum ArgView {
    Text(Seq<char>),
    Part(Slot),
    KeyLocation,
}

impl View for Arg {
    type V = ArgView;

    open spec fn view(&self) -> ArgView {
        match self {
            Arg::Text(s) => ArgView::Text(s@),
            Arg::Part(p) => ArgView::Part(*p),
            Arg::KeyLocation => ArgView::KeyLocation,
        }
    }
}

/// The views of a list of arguments.
pub open spec fn arg_views(args: Seq<Arg>) -> Seq<ArgView> {
    args.map_values(|a: Arg| a@)
}

/// One step of the installation script.
#[derive(Debug, PartialEq, Eq)]
pub enum Instr {
    /// Print a progress line.
    Say(String),
    /// Run a program; the installation stops if it fails.
    Run(String, Vec<Arg>),
    /// Run a program and go on whatever happens.
    Try(String, Vec<Arg>),
    /// Destroy the `zroot` pool if it lives on the target disk.
    ReleasePool,
    /// Wait for a labelled partition of the target disk to appear.
    Locate(Slot, String),
    /// Write the passphrase to a temporary key file.
    MakeKeyFile,
    /// Remove the temporary key file.
    DropKeyFile,
    /// Create a directory.
    MakeDir(String),
    /// Read the swap partition's PARTUUID.
    ReadSwapUuid,
    /// Write the ZFS module to the path.
    WriteZfsModule(String),
    /// Write fixed contents to a path.
    Write(String, String),
    /// Add the installer's modules to the imports of the configuration at the path.
    PatchConfiguration(String),
}

pub enum InstrView {
    Say(Seq<char>),
    Run(Seq<char>, Seq<ArgView>),
    Try(Seq<char>, Seq<ArgView>),
    ReleasePool,
    Locate(Slot, Seq<char>),
    MakeKeyFile,
    DropKeyFile,
    MakeDir(Seq<char>),
    ReadSwapUuid,
    WriteZfsModule(Seq<char>),
    Write(Seq<char>, Seq<char>),
    PatchConfiguration(Seq<char>),
}

impl View for Instr {
    type V = InstrView;

    open spec fn view(&self) -> InstrView {
        match self {
            Instr::Say(s) => InstrView::Say(s@),
            Instr::Run(p, a) => InstrView::Run(p@, arg_views(a@)),
            Instr::Try(p, a) => InstrView::Try(p@, arg_views(a@)),
            Instr::ReleasePool => InstrView::ReleasePool,
            Instr::Locate(s, l) => InstrView::Locate(*s, l@),
            Instr::MakeKeyFile => InstrView::MakeKeyFile,
            Instr::DropKeyFile => InstrView::DropKeyFile,
            Instr::MakeDir(d) => InstrView::MakeDir(d@),
            Instr::ReadSwapUuid => InstrView::ReadSwapUuid,
            Instr::WriteZfsModule(p) => InstrView::WriteZfsModule(p@),
            Instr::Write(p, c) => InstrView::Write(p@, c@),
            Instr::PatchConfiguration(p) => InstrView::PatchConfiguration(p@),
        }
    }
}

/// The views of a script.
pub open spec fn instr_views(s: Seq<Instr>) -> Seq<InstrView> {
    s.map_values(|i: Instr| i@)
}

pub open spec fn text(s: Seq<char>) -> ArgView {
    ArgView::Text(s)
}

/// A `Run` of fixed arguments.
pub open spec fn run(program: Seq<char>, args: Seq<Seq<char>>) -> InstrView {
    InstrView::Run(program, args.map_values(|a: Seq<char>| text(a)))
}

/// The options of `zpool create`: sector size, trim and the dataset
/// defaults chosen in the wizard, then the fixed ones, then (with a key file)
/// the encryption options; the pool name and the root partition come last.
pub open spec fn zpool_create_args(c: InstallConfigView) -> Seq<ArgView> {
    seq![
        text("create"@),
        text("-f"@),
        text("-o"@),
        text("ashift="@ + trimmed(c.zfs_ashift)),
        text("-o"@),
        text("autotrim="@ + if c.zfs_autotrim {
            "on"@
        } else {
            "off"@
        }),
        text("-O"@),
        text("compression="@ + lowercase(trimmed(c.zfs_compression))),
        text("-O"@),
        text("acltype=posixacl"@),
        text("-O"@),
        text("atime=off"@),
        text("-O"@),
        text("xattr=sa"@),
        text("-O"@),
        text("normalization=formD"@),
        text("-O"@),
        text("mountpoint=none"@),
        text("-O"@),
        text("primarycache="@ + lowercase(trimmed(c.zfs_primarycache))),
    ] + (if c.enable_encryption {
        seq![
            text("-O"@),
            text("encryption=aes-256-gcm"@),
            text("-O"@),
            text("keyformat=passphrase"@),
            text("-O"@),
            ArgView::KeyLocation,
        ]
    } else {
        Seq::empty()
    }) + seq![text("zroot"@), ArgView::Part(Slot::Root)]
}

/// Cleaning up and partitioning the target disk.
pub open spec fn partition_steps(c: InstallConfigView) -> Seq<InstrView> {
    let disk = c.disk.path;
    seq![
        InstrView::Say("-> Cleaning up prior mounts/swap/pools"@),
        InstrView::Try("umount"@, seq![text("-R"@), text("/mnt"@)]),
        InstrView::Try("swapoff"@, seq![text("-a"@)]),
        InstrView::ReleasePool,
        run("udevadm"@, seq!["settle"@, "--timeout=30"@]),
        InstrView::Say("-> Wiping and partitioning "@ + disk),
        run("wipefs"@, seq!["-a"@, disk]),
        run("sgdisk"@, seq!["--zap-all"@, disk]),
        run(
            "sgdisk"@,
            seq!["-n"@, "1:0:+"@ + c.boot_size, "-t"@, "1:ef00"@, "-c"@, "1:NIXBOOT"@, disk],
        ),
        run(
            "sgdisk"@,
            seq!["-n"@, "2:0:+"@ + c.swap_size, "-t"@, "2:8200"@, "-c"@, "2:NIXSWAP"@, disk],
        ),
        run("sgdisk"@, seq!["-n"@, "3:0:0"@, "-t"@, "3:8300"@, "-c"@, "3:NIXROOT"@, disk]),
        run("partprobe"@, seq![disk]),
        run("udevadm"@, seq!["settle"@, "--timeout=30"@]),
        InstrView::Locate(Slot::Boot, "NIXBOOT"@),
        InstrView::Locate(Slot::Swap, "NIXSWAP"@),
        InstrView::Locate(Slot::Root, "NIXROOT"@),
        InstrView::Say("-> Formatting EFI and swap"@),
        InstrView::Run(
            "mkfs.fat"@,
            seq![text("-F"@), text("32"@), text("-n"@), text("NIXBOOT"@), ArgView::Part(Slot::Boot)],
        ),
        InstrView::Run("mkswap"@, seq![text("-L"@), text("SWAP"@), ArgView::Part(Slot::Swap)]),
        InstrView::Run("swapon"@, seq![ArgView::Part(Slot::Swap)]),
    ]
}

/// Creating the pool, with its key file when encrypted.
pub open spec fn pool_steps(c: InstallConfigView) -> Seq<InstrView> {
    if c.enable_encryption {
        seq![
            InstrView::Say("-> Creating encrypted zpool and datasets"@),
            InstrView::MakeKeyFile,
            InstrView::Run("zpool"@, zpool_create_args(c)),
            InstrView::DropKeyFile,
            run("zfs"@, seq!["set"@, "keylocation=prompt"@, "zroot"@]),
        ]
    } else {
        seq![
            InstrView::Say("-> Creating unencrypted zpool and datasets"@),
            InstrView::Run("zpool"@, zpool_create_args(c)),
        ]
    }
}

/// Datasets, mounts, the generated configuration and the installer's modules.
pub open spec fn system_steps(c: InstallConfigView) -> Seq<InstrView> {
    seq![
        run("zfs"@, seq!["create"@, "-o"@, "mountpoint=legacy"@, "zroot/root"@]),
        run("zfs"@, seq!["create"@, "-o"@, "mountpoint=legacy"@, "zroot/nix"@]),
        run("zfs"@, seq!["create"@, "-o"@, "mountpoint=legacy"@, "zroot/home"@]),
        run("zfs"@, seq!["create"@, "-o"@, "mountpoint=legacy"@, "zroot/tmp"@]),
        InstrView::Say("-> Mounting filesystems"@),
        run("mount"@, seq!["-t"@, "zfs"@, "zroot/root"@, "/mnt"@]),
        InstrView::MakeDir("/mnt/boot"@),
        InstrView::MakeDir("/mnt/nix"@),
        InstrView::MakeDir("/mnt/home"@),
        InstrView::MakeDir("/mnt/tmp"@),
        InstrView::Run("mount"@, seq![ArgView::Part(Slot::Boot), text("/mnt/boot"@)]),
        run("mount"@, seq!["-t"@, "zfs"@, "zroot/nix"@, "/mnt/nix"@]),
        run("mount"@, seq!["-t"@, "zfs"@, "zroot/home"@, "/mnt/home"@]),
        run("mount"@, seq!["-t"@, "zfs"@, "zroot/tmp"@, "/mnt/tmp"@]),
        InstrView::Say("-> Generating NixOS configuration"@),
        run("nixos-generate-config"@, seq!["--root"@, "/mnt"@]),
        InstrView::Say("-> Injecting zfs.nix overrides"@),
        InstrView::ReadSwapUuid,
        InstrView::WriteZfsModule("/mnt/etc/nixos/zfs.nix"@),
        InstrView::Write(
            "/mnt/etc/nixos/system-setup.nix"@,
            setup_module(
                c.hostname,
                c.timezone,
                c.keyboard_layout,
                c.username,
                c.user_password,
                c.root_password,
                c.enable_flakes,
                c.enable_sudo,
                c.install_networkmanager,
                c.enable_git,
                c.enable_ssh,
            ),
        ),
        InstrView::PatchConfiguration("/mnt/etc/nixos/configuration.nix"@),
        InstrView::Say(""@),
        InstrView::Say("=== ZFS Configuration Complete ==="@),
        InstrView::Say("Configuration ready at /mnt/etc/nixos/"@),
        InstrView::Say("Review: nano /mnt/etc/nixos/configuration.nix"@),
        InstrView::Say("Install: nixos-install"@),
    ]
}

/// The whole installation script for a configuration.
pub open spec fn install_script(c: InstallConfigView) -> Seq<InstrView> {
    partition_steps(c) + pool_steps(c) + system_steps(c)
}


fn text_arg(s: &str) -> (r: Arg)
    ensures
        r@ == text(s@),
{
    Arg::Text(owned(s))
}

fn args_from(texts: &[&str]) -> (r: Vec<Arg>)
    ensures
        arg_views(r@).len() == texts@.len(),
        forall|k: int| 0 <= k < texts@.len() ==> #[trigger] arg_views(r@)[k] == text(texts@[k]@),
{
    let mut v: Vec<Arg> = Vec::new();
    let mut i: usize = 0;
    while i < texts.len()
        invariant
            i <= texts@.len(),
            v@.len() == i,
            forall|k: int| 0 <= k < i ==> #[trigger] v@[k]@ == text(texts@[k]@),
        decreases texts@.len() - i,
    {
        v.push(text_arg(texts[i]));
        i = i + 1;
    }
    v
}

fn run1(program: &str, a0: &str) -> (r: Instr)
    ensures
        r@ == run(program@, seq![a0@]),
{
    let args = args_from(&[a0]);
    assert(arg_views(args@) =~= seq![a0@].map_values(|a: Seq<char>| text(a)));
    Instr::Run(owned(program), args)
}

fn run2(program: &str, a0: &str, a1: &str) -> (r: Instr)
    ensures
        r@ == run(program@, seq![a0@, a1@]),
{
    let args = args_from(&[a0, a1]);
    assert(arg_views(args@) =~= seq![a0@, a1@].map_values(|a: Seq<char>| text(a)));
    Instr::Run(owned(program), args)
}

fn run3(program: &str, a0: &str, a1: &str, a2: &str) -> (r: Instr)
    ensures
        r@ == run(program@, seq![a0@, a1@, a2@]),
{
    let args = args_from(&[a0, a1, a2]);
    assert(arg_views(args@) =~= seq![a0@, a1@, a2@].map_values(|a: Seq<char>| text(a)));
    Instr::Run(owned(program), args)
}

fn run4(program: &str, a0: &str, a1: &str, a2: &str, a3: &str) -> (r: Instr)
    ensures
        r@ == run(program@, seq![a0@, a1@, a2@, a3@]),
{
    let args = args_from(&[a0, a1, a2, a3]);
    assert(arg_views(args@) =~= seq![a0@, a1@, a2@, a3@].map_values(|a: Seq<char>| text(a)));
    Instr::Run(owned(program), args)
}

fn run7(program: &str, a: [&str; 7]) -> (r: Instr)
    ensures
        r@ == run(program@, seq![a@[0]@, a@[1]@, a@[2]@, a@[3]@, a@[4]@, a@[5]@, a@[6]@]),
{
    let args = args_from(&a);
    assert(arg_views(args@) =~= seq![a@[0]@, a@[1]@, a@[2]@, a@[3]@, a@[4]@, a@[5]@, a@[6]@].map_values(
        |x: Seq<char>| text(x),
    ));
    Instr::Run(owned(program), args)
}

fn say(s: &str) -> (r: Instr)
    ensures
        r@ == InstrView::Say(s@),
{
    Instr::Say(owned(s))
}

fn concat_text(a: &str, b: &str) -> (r: String)
    ensures
        r@ == a@ + b@,
{
    let mut s = owned(a);
    s.append(b);
    s
}

fn try1(program: &str, a0: &str) -> (r: Instr)
    ensures
        r@ == InstrView::Try(program@, seq![text(a0@)]),
{
    let args = args_from(&[a0]);
    assert(arg_views(args@) =~= seq![text(a0@)]);
    Instr::Try(owned(program), args)
}

fn try2(program: &str, a0: &str, a1: &str) -> (r: Instr)
    ensures
        r@ == InstrView::Try(program@, seq![text(a0@), text(a1@)]),
{
    let args = args_from(&[a0, a1]);
    assert(arg_views(args@) =~= seq![text(a0@), text(a1@)]);
    Instr::Try(owned(program), args)
}

fn with_part(args: Vec<Arg>, slot: Slot) -> (r: Vec<Arg>)
    ensures
        arg_views(r@) == arg_views(args@).push(ArgView::Part(slot)),
{
    let mut v = args;
    let ghost before = v@;
    v.push(Arg::Part(slot));
    assert(arg_views(v@) =~= arg_views(before).push(ArgView::Part(slot)));
    v
}

fn partition_script(cfg: &InstallConfig) -> (r: Vec<Instr>)
    ensures
        instr_views(r@) == partition_steps(cfg@),
{
    let ghost spec = partition_steps(cfg@);
    let disk = cfg.disk.path.as_str();
    let boot = concat_text("1:0:+", cfg.boot_size.as_str());
    let swap = concat_text("2:0:+", cfg.swap_size.as_str());
    let mut v: Vec<Instr> = Vec::new();
    v.push(say("-> Cleaning up prior mounts/swap/pools"));
    v.push(try2("umount", "-R", "/mnt"));
    v.push(try1("swapoff", "-a"));
    v.push(Instr::ReleasePool);
    v.push(run2("udevadm", "settle", "--timeout=30"));
    v.push(Instr::Say(concat_text("-> Wiping and partitioning ", disk)));
    v.push(run2("wipefs", "-a", disk));
    v.push(run2("sgdisk", "--zap-all", disk));
    v.push(run7("sgdisk", ["-n", boot.as_str(), "-t", "1:ef00", "-c", "1:NIXBOOT", disk]));
    v.push(run7("sgdisk", ["-n", swap.as_str(), "-t", "2:8200", "-c", "2:NIXSWAP", disk]));
    v.push(run7("sgdisk", ["-n", "3:0:0", "-t", "3:8300", "-c", "3:NIXROOT", disk]));
    v.push(run1("partprobe", disk));
    v.push(run2("udevadm", "settle", "--timeout=30"));
    v.push(Instr::Locate(Slot::Boot, owned("NIXBOOT")));
    v.push(Instr::Locate(Slot::Swap, owned("NIXSWAP")));
    v.push(Instr::Locate(Slot::Root, owned("NIXROOT")));
    v.push(say("-> Formatting EFI and swap"));
    let a = args_from(&["-F", "32", "-n", "NIXBOOT"]);
    let a = with_part(a, Slot::Boot);
    assert(arg_views(a@) =~= seq![text("-F"@), text("32"@), text("-n"@), text("NIXBOOT"@), ArgView::Part(Slot::Boot)]);
    v.push(Instr::Run(owned("mkfs.fat"), a));
    let a = args_from(&["-L", "SWAP"]);
    let a = with_part(a, Slot::Swap);
    assert(arg_views(a@) =~= seq![text("-L"@), text("SWAP"@), ArgView::Part(Slot::Swap)]);
    v.push(Instr::Run(owned("mkswap"), a));
    let a = with_part(Vec::new(), Slot::Swap);
    assert(arg_views(a@) =~= seq![ArgView::Part(Slot::Swap)]);
    v.push(Instr::Run(owned("swapon"), a));
    assert(instr_views(v@) =~= spec);
    v
}


fn zpool_args(cfg: &InstallConfig) -> (r: Vec<Arg>)
    ensures
        arg_views(r@) == zpool_create_args(cfg@),
{
    let ashift = concat_text("ashift=", trim_str(cfg.zfs_ashift.as_str()));
    let autotrim = concat_text("autotrim=", if cfg.zfs_autotrim { "on" } else { "off" });
    let compression_value = crate::text::ascii_lowercase(trim_str(cfg.zfs_compression.as_str()));
    let compression = concat_text("compression=", compression_value.as_str());
    let cache_value = crate::text::ascii_lowercase(trim_str(cfg.zfs_primarycache.as_str()));
    let cache = concat_text("primarycache=", cache_value.as_str());
    let mut v = args_from(
        &[
            "create",
            "-f",
            "-o",
            ashift.as_str(),
            "-o",
            autotrim.as_str(),
            "-O",
            compression.as_str(),
            "-O",
            "acltype=posixacl",
            "-O",
            "atime=off",
            "-O",
            "xattr=sa",
            "-O",
            "normalization=formD",
            "-O",
            "mountpoint=none",
            "-O",
            cache.as_str(),
        ],
    );
    let ghost first = arg_views(v@);
    if cfg.enable_encryption {
        let extra = args_from(&["-O", "encryption=aes-256-gcm", "-O", "keyformat=passphrase", "-O"]);
        let ghost ev = arg_views(extra@);
        let mut extra = extra;
        extra.push(Arg::KeyLocation);
        assert(arg_views(extra@) =~= ev.push(ArgView::KeyLocation));
        let ghost e2 = arg_views(extra@);
        v.append(&mut extra);
        assert(arg_views(v@) =~= first + e2);
    }
    let ghost mid = arg_views(v@);
    v.push(text_arg("zroot"));
    v.push(Arg::Part(Slot::Root));
    assert(arg_views(v@) =~= mid + seq![text("zroot"@), ArgView::Part(Slot::Root)]);
    assert(arg_views(v@) =~= zpool_create_args(cfg@));
    v
}

fn pool_script(cfg: &InstallConfig) -> (r: Vec<Instr>)
    ensures
        instr_views(r@) == pool_steps(cfg@),
{
    let mut v: Vec<Instr> = Vec::new();
    if cfg.enable_encryption {
        v.push(say("-> Creating encrypted zpool and datasets"));
        v.push(Instr::MakeKeyFile);
        v.push(Instr::Run(owned("zpool"), zpool_args(cfg)));
        v.push(Instr::DropKeyFile);
        v.push(run3("zfs", "set", "keylocation=prompt", "zroot"));
    } else {
        v.push(say("-> Creating unencrypted zpool and datasets"));
        v.push(Instr::Run(owned("zpool"), zpool_args(cfg)));
    }
    assert(instr_views(v@) =~= pool_steps(cfg@));
    v
}

fn system_script(cfg: &InstallConfig) -> (r: Vec<Instr>)
    ensures
        instr_views(r@) == system_steps(cfg@),
{
    let mut v: Vec<Instr> = Vec::new();
    v.push(run4("zfs", "create", "-o", "mountpoint=legacy", "zroot/root"));
    v.push(run4("zfs", "create", "-o", "mountpoint=legacy", "zroot/nix"));
    v.push(run4("zfs", "create", "-o", "mountpoint=legacy", "zroot/home"));
    v.push(run4("zfs", "create", "-o", "mountpoint=legacy", "zroot/tmp"));
    v.push(say("-> Mounting filesystems"));
    v.push(run4("mount", "-t", "zfs", "zroot/root", "/mnt"));
    v.push(Instr::MakeDir(owned("/mnt/boot")));
    v.push(Instr::MakeDir(owned("/mnt/nix")));
    v.push(Instr::MakeDir(owned("/mnt/home")));
    v.push(Instr::MakeDir(owned("/mnt/tmp")));
    let mut a: Vec<Arg> = Vec::new();
    a.push(Arg::Part(Slot::Boot));
    a.push(text_arg("/mnt/boot"));
    assert(arg_views(a@) =~= seq![ArgView::Part(Slot::Boot), text("/mnt/boot"@)]);
    v.push(Instr::Run(owned("mount"), a));
    v.push(run4("mount", "-t", "zfs", "zroot/nix", "/mnt/nix"));
    v.push(run4("mount", "-t", "zfs", "zroot/home", "/mnt/home"));
    v.push(run4("mount", "-t", "zfs", "zroot/tmp", "/mnt/tmp"));
    v.push(say("-> Generating NixOS configuration"));
    v.push(run2("nixos-generate-config", "--root", "/mnt"));
    v.push(say("-> Injecting zfs.nix overrides"));
    v.push(Instr::ReadSwapUuid);
    v.push(Instr::WriteZfsModule(owned("/mnt/etc/nixos/zfs.nix")));
    v.push(Instr::Write(owned("/mnt/etc/nixos/system-setup.nix"), setup_module_text(cfg)));
    v.push(Instr::PatchConfiguration(owned("/mnt/etc/nixos/configuration.nix")));
    v.push(say(""));
    v.push(say("=== ZFS Configuration Complete ==="));
    v.push(say("Configuration ready at /mnt/etc/nixos/"));
    v.push(say("Review: nano /mnt/etc/nixos/configuration.nix"));
    v.push(say("Install: nixos-install"));
    assert(instr_views(v@) =~= system_steps(cfg@));
    v
}

/// The installation script for a configuration.
pub fn build_script(cfg: &InstallConfig) -> (r: Vec<Instr>)
    ensures
        instr_views(r@) == install_script(cfg@),
{
    let mut v = partition_script(cfg);
    let ghost a = instr_views(v@);
    let mut p = pool_script(cfg);
    v.append(&mut p);
    assert(instr_views(v@) =~= a + pool_steps(cfg@));
    let ghost b = instr_views(v@);
    let mut q = system_script(cfg);
    v.append(&mut q);
    assert(instr_views(v@) =~= b + system_steps(cfg@));
    v
}


/// Why the installation stopped.
#[derive(Debug, PartialEq, Eq)]
pub enum InstallError {
    /// The configuration's ZFS options were refused.
    Invalid(ValidationError),
    /// A step failed; the text says how.
    Io(String),
    /// A reply did not fit the step it answered.
    Protocol,
    /// A labelled partition did not appear on the disk in time.
    PartitionTimeout { label: String, disk: String },
    /// `blkid` gave no PARTUUID for the swap partition.
    NoSwapUuid,
    /// The generated `configuration.nix` could not be read.
    ConfigUnreadable(String),
    /// The generated `configuration.nix` does not import the hardware configuration.
    MissingImport,
}

pub enum InstallErrorView {
    Invalid(ValidationErrorView),
    Io(Seq<char>),
    Protocol,
    PartitionTimeout { label: Seq<char>, disk: Seq<char> },
    NoSwapUuid,
    ConfigUnreadable(Seq<char>),
    MissingImport,
}

impl View for InstallError {
    type V = InstallErrorView;

    open spec fn view(&self) -> InstallErrorView {
        match self {
            InstallError::Invalid(e) => InstallErrorView::Invalid(e@),
            InstallError::Io(m) => InstallErrorView::Io(m@),
            InstallError::Protocol => InstallErrorView::Protocol,
            InstallError::PartitionTimeout { label, disk } => InstallErrorView::PartitionTimeout {
                label: label@,
                disk: disk@,
            },
            InstallError::NoSwapUuid => InstallErrorView::NoSwapUuid,
            InstallError::ConfigUnreadable(m) => InstallErrorView::ConfigUnreadable(m@),
            InstallError::MissingImport => InstallErrorView::MissingImport,
        }
    }
}

/// The text shown when the installation stops.
pub open spec fn install_message(e: InstallErrorView) -> Seq<char> {
    match e {
        InstallErrorView::Invalid(v) => error_message(v),
        InstallErrorView::Io(m) => m,
        InstallErrorView::Protocol => "An installer step received a reply that does not belong to it."@,
        InstallErrorView::PartitionTimeout { label, disk } => "Timed out waiting for partition label "@
            + label + " to appear on selected disk "@ + disk + "."@,
        InstallErrorView::NoSwapUuid => "Could not determine PARTUUID for swap partition."@,
        InstallErrorView::ConfigUnreadable(m) =>
            "Unable to read generated /mnt/etc/nixos/configuration.nix: "@ + m,
        InstallErrorView::MissingImport =>
            "Could not find ./hardware-configuration.nix import in configuration.nix; please add ./zfs.nix and ./system-setup.nix manually."@,
    }
}

impl InstallError {
    /// The text shown to the user.
    pub fn message(&self) -> (r: String)
        ensures
            r@ == install_message(self@),
    {
        match self {
            InstallError::Invalid(v) => v.message(),
            InstallError::Io(m) => m.clone(),
            InstallError::Protocol => owned(
                "An installer step received a reply that does not belong to it.",
            ),
            InstallError::PartitionTimeout { label, disk } => {
                let mut s = owned("Timed out waiting for partition label ");
                s.append(label.as_str());
                s.append(" to appear on selected disk ");
                s.append(disk.as_str());
                s.append(".");
                s
            },
            InstallError::NoSwapUuid => owned("Could not determine PARTUUID for swap partition."),
            InstallError::ConfigUnreadable(m) => {
                let mut s = owned("Unable to read generated /mnt/etc/nixos/configuration.nix: ");
                s.append(m.as_str());
                s
            },
            InstallError::MissingImport => owned(
                "Could not find ./hardware-configuration.nix import in configuration.nix; please add ./zfs.nix and ./system-setup.nix manually.",
            ),
        }
    }
}

/// What the caller is asked to do next.
#[derive(Debug, PartialEq, Eq)]
pub enum Action {
    /// Print a line.
    Say(String),
    /// Run a program; reply `Done`, or `Failed` with a description.
    Run { program: String, args: Vec<String> },
    /// Run a program, ignoring its exit status; reply `Done`, or `Failed` when
    /// it could not be started.
    Try { program: String, args: Vec<String> },
    /// Run `zpool status -P zroot`; reply `PoolStatus` with its output when it
    /// succeeded.
    QueryPool,
    /// Check whether a path exists; reply `Exists`.
    CheckPath(String),
    /// Run a program and capture its output; reply `Output` or `Failed`.
    Capture { program: String, args: Vec<String> },
    /// Create a temporary key file holding the text, kept until
    /// `RemoveKeyFile`; reply `KeyFile` with its path, or `Failed`.
    CreateKeyFile(String),
    /// Remove the temporary key file.
    RemoveKeyFile,
    /// Create a directory and its parents; reply `Done` or `Failed`.
    CreateDir(String),
    /// Write a file; reply `Done` or `Failed`.
    WriteFile { path: String, contents: String },
    /// Read a file; reply `Output` or `Failed`.
    ReadFile(String),
    /// The installation is complete.
    Finished,
    /// The installation stopped.
    Aborted(InstallError),
}

pub enum ActionView {
    Say(Seq<char>),
    Run { program: Seq<char>, args: Seq<Seq<char>> },
    Try { program: Seq<char>, args: Seq<Seq<char>> },
    QueryPool,
    CheckPath(Seq<char>),
    Capture { program: Seq<char>, args: Seq<Seq<char>> },
    CreateKeyFile(Seq<char>),
    RemoveKeyFile,
    CreateDir(Seq<char>),
    WriteFile { path: Seq<char>, contents: Seq<char> },
    ReadFile(Seq<char>),
    Finished,
    Aborted(InstallErrorView),
}

pub open spec fn string_views(v: Seq<String>) -> Seq<Seq<char>> {
    v.map_values(|s: String| s@)
}

impl View for Action {
    type V = ActionView;

    open spec fn view(&self) -> ActionView {
        match self {
            Action::Say(s) => ActionView::Say(s@),
            Action::Run { program, args } => ActionView::Run {
                program: program@,
                args: string_views(args@),
            },
            Action::Try { program, args } => ActionView::Try {
                program: program@,
                args: string_views(args@),
            },
            Action::QueryPool => ActionView::QueryPool,
            Action::CheckPath(p) => ActionView::CheckPath(p@),
            Action::Capture { program, args } => ActionView::Capture {
                program: program@,
                args: string_views(args@),
            },
            Action::CreateKeyFile(t) => ActionView::CreateKeyFile(t@),
            Action::RemoveKeyFile => ActionView::RemoveKeyFile,
            Action::CreateDir(d) => ActionView::CreateDir(d@),
            Action::WriteFile { path, contents } => ActionView::WriteFile {
                path: path@,
                contents: contents@,
            },
            Action::ReadFile(p) => ActionView::ReadFile(p@),
            Action::Finished => ActionView::Finished,
            Action::Aborted(e) => ActionView::Aborted(e@),
        }
    }
}

/// The caller's report on the last action.
#[derive(Debug, PartialEq, Eq)]
pub enum Event {
    Done,
    Failed(String),
    Output(String),
    Exists(bool),
    PoolStatus(Option<String>),
    KeyFile(String),
}

pub enum EventView {
    Done,
    Failed(Seq<char>),
    Output(Seq<char>),
    Exists(bool),
    PoolStatus(Option<Seq<char>>),
    KeyFile(Seq<char>),
}

impl View for Event {
    type V = EventView;

    open spec fn view(&self) -> EventView {
        match self {
            Event::Done => EventView::Done,
            Event::Failed(m) => EventView::Failed(m@),
            Event::Output(o) => EventView::Output(o@),
            Event::Exists(b) => EventView::Exists(*b),
            Event::PoolStatus(s) => EventView::PoolStatus(
                match s {
                    Some(t) => Some(t@),
                    None => None,
                },
            ),
            Event::KeyFile(p) => EventView::KeyFile(p@),
        }
    }
}


/// Which reply the machine waits for.
#[derive(Clone, Copy, Debug, PartialEq, Eq)]
pub enum Pending {
    /// Nothing has been asked yet.
    Fresh,
    /// The first action of the current step.
    Main,
    /// `readlink` of a partition path found to exist.
    LocateResolve,
    /// Letting udev settle before looking for the partition again.
    LocateSettle,
    /// Destroying the old pool.
    PoolDestroy,
    /// Writing the patched configuration.
    PatchWrite,
    /// Removing the key file before the installation ends.
    Releasing,
    /// The installation finished or stopped.
    Over,
}

/// How many times a partition is looked for before giving up.
pub open spec fn locate_tries() -> nat {
    40
}

/// The installation in progress.
pub struct Installer {
    disk: String,
    passphrase: String,
    host_id: String,
    script: Vec<Instr>,
    pc: usize,
    pending: Pending,
    attempts: usize,
    boot: String,
    swap: String,
    root: String,
    key_path: String,
    key_held: bool,
    swap_uuid: String,
    failure: Option<InstallError>,
}

pub struct InstallerView {
    pub disk: Seq<char>,
    pub passphrase: Seq<char>,
    pub host_id: Seq<char>,
    pub script: Seq<InstrView>,
    pub pc: nat,
    pub pending: Pending,
    pub attempts: nat,
    pub boot: Seq<char>,
    pub swap: Seq<char>,
    pub root: Seq<char>,
    pub key_path: Seq<char>,
    pub key_held: bool,
    pub swap_uuid: Seq<char>,
    pub failure: Option<InstallErrorView>,
}

impl View for Installer {
    type V = InstallerView;

    closed spec fn view(&self) -> InstallerView {
        InstallerView {
            disk: self.disk@,
            passphrase: self.passphrase@,
            host_id: self.host_id@,
            script: instr_views(self.script@),
            pc: self.pc as nat,
            pending: self.pending,
            attempts: self.attempts as nat,
            boot: self.boot@,
            swap: self.swap@,
            root: self.root@,
            key_path: self.key_path@,
            key_held: self.key_held,
            swap_uuid: self.swap_uuid@,
            failure: match self.failure {
                Some(e) => Some(e@),
                None => None,
            },
        }
    }
}

/// The device path a partition gets from its label.
pub open spec fn partition_path(label: Seq<char>) -> Seq<char> {
    "/dev/disk/by-partlabel/"@ + label
}

/// The device path found for a partition so far.
pub open spec fn slot_value(st: InstallerView, s: Slot) -> Seq<char> {
    match s {
        Slot::Boot => st.boot,
        Slot::Swap => st.swap,
        Slot::Root => st.root,
    }
}

/// An argument with partition paths and the key location filled in.
pub open spec fn resolve(st: InstallerView, a: ArgView) -> Seq<char> {
    match a {
        ArgView::Text(t) => t,
        ArgView::Part(s) => slot_value(st, s),
        ArgView::KeyLocation => "keylocation=file://"@ + st.key_path,
    }
}

pub open spec fn resolve_all(st: InstallerView, args: Seq<ArgView>) -> Seq<Seq<char>> {
    args.map_values(|a: ArgView| resolve(st, a))
}

/// The first action of the current step.
pub open spec fn entry_action(st: InstallerView) -> ActionView {
    match st.script[st.pc as int] {
        InstrView::Say(s) => ActionView::Say(s),
        InstrView::Run(p, a) => ActionView::Run { program: p, args: resolve_all(st, a) },
        InstrView::Try(p, a) => ActionView::Try { program: p, args: resolve_all(st, a) },
        InstrView::ReleasePool => ActionView::QueryPool,
        InstrView::Locate(_, l) => ActionView::CheckPath(partition_path(l)),
        InstrView::MakeKeyFile => ActionView::CreateKeyFile(st.passphrase + "\n"@),
        InstrView::DropKeyFile => ActionView::RemoveKeyFile,
        InstrView::MakeDir(d) => ActionView::CreateDir(d),
        InstrView::ReadSwapUuid => ActionView::Capture {
            program: "blkid"@,
            args: seq!["-s"@, "PARTUUID"@, "-o"@, "value"@, st.swap],
        },
        InstrView::WriteZfsModule(p) => ActionView::WriteFile {
            path: p,
            contents: zfs_module(st.host_id, st.swap_uuid),
        },
        InstrView::Write(p, c) => ActionView::WriteFile { path: p, contents: c },
        InstrView::PatchConfiguration(p) => ActionView::ReadFile(p),
    }
}

/// The last answer: `Finished`, or `Aborted` with the error that stopped
/// the installation.
pub open spec fn end_action(failure: Option<InstallErrorView>) -> ActionView {
    match failure {
        Some(e) => ActionView::Aborted(e),
        None => ActionView::Finished,
    }
}

/// Ending the installation: a key file still held is removed first, then the
/// end is announced.
pub open spec fn conclude(st: InstallerView, failure: Option<InstallErrorView>) -> (
    InstallerView,
    ActionView,
) {
    if st.key_held {
        (InstallerView { pending: Pending::Releasing, failure, ..st }, ActionView::RemoveKeyFile)
    } else {
        (InstallerView { pending: Pending::Over, failure, ..st }, end_action(failure))
    }
}

/// Moving to step `pc`: its first action, or the end past the last step.
pub open spec fn enter(st: InstallerView, pc: nat) -> (InstallerView, ActionView) {
    let s2 = InstallerView { pc, pending: Pending::Main, attempts: 0, ..st };
    if pc >= st.script.len() {
        conclude(s2, None)
    } else {
        (s2, entry_action(s2))
    }
}

pub open spec fn next(st: InstallerView) -> (InstallerView, ActionView) {
    enter(st, st.pc + 1)
}

/// Stopping with an error.
pub open spec fn stop(st: InstallerView, e: InstallErrorView) -> (InstallerView, ActionView) {
    conclude(st, Some(e))
}

/// Letting udev settle before the next look for a partition.
pub open spec fn settle(st: InstallerView) -> (InstallerView, ActionView) {
    (
        InstallerView { pending: Pending::LocateSettle, ..st },
        ActionView::Try { program: "udevadm"@, args: seq!["settle"@, "--timeout=1"@] },
    )
}

pub open spec fn with_slot(st: InstallerView, s: Slot, path: Seq<char>) -> InstallerView {
    match s {
        Slot::Boot => InstallerView { boot: path, ..st },
        Slot::Swap => InstallerView { swap: path, ..st },
        Slot::Root => InstallerView { root: path, ..st },
    }
}

pub open spec fn locate_slot(i: InstrView) -> Slot {
    match i {
        InstrView::Locate(s, _) => s,
        _ => Slot::Boot,
    }
}

pub open spec fn locate_label(i: InstrView) -> Seq<char> {
    match i {
        InstrView::Locate(_, l) => l,
        _ => Seq::empty(),
    }
}

/// The reply to the first action of the current step.
pub open spec fn respond_main(st: InstallerView, ev: EventView) -> (InstallerView, ActionView) {
    match st.script[st.pc as int] {
        InstrView::Say(_) => next(st),
        InstrView::Try(_, _) => next(st),
        InstrView::DropKeyFile => next(InstallerView { key_held: false, ..st }),
        InstrView::Run(_, _) | InstrView::MakeDir(_) | InstrView::Write(_, _)
        | InstrView::WriteZfsModule(_) => match ev {
            EventView::Failed(m) => stop(st, InstallErrorView::Io(m)),
            _ => next(st),
        },
        InstrView::ReleasePool => match ev {
            EventView::PoolStatus(Some(t)) => if crate::disks::zpool_mentions(t, st.disk) {
                (
                    InstallerView { pending: Pending::PoolDestroy, ..st },
                    ActionView::Try {
                        program: "zpool"@,
                        args: seq!["destroy"@, "-f"@, "zroot"@],
                    },
                )
            } else {
                next(st)
            },
            _ => next(st),
        },
        InstrView::Locate(_, l) => match ev {
            EventView::Exists(true) => (
                InstallerView { pending: Pending::LocateResolve, ..st },
                ActionView::Capture { program: "readlink"@, args: seq!["-f"@, partition_path(l)] },
            ),
            _ => settle(st),
        },
        InstrView::MakeKeyFile => match ev {
            EventView::KeyFile(p) => next(InstallerView { key_path: p, key_held: true, ..st }),
            EventView::Failed(m) => stop(st, InstallErrorView::Io(m)),
            _ => stop(st, InstallErrorView::Protocol),
        },
        InstrView::ReadSwapUuid => match ev {
            EventView::Output(o) => if trimmed(o).len() == 0 {
                stop(st, InstallErrorView::NoSwapUuid)
            } else {
                next(InstallerView { swap_uuid: trimmed(o), ..st })
            },
            EventView::Failed(m) => stop(st, InstallErrorView::Io(m)),
            _ => stop(st, InstallErrorView::Protocol),
        },
        InstrView::PatchConfiguration(p) => match ev {
            EventView::Output(t) => match patched_configuration(t) {
                Some(n) => (
                    InstallerView { pending: Pending::PatchWrite, ..st },
                    ActionView::WriteFile { path: p, contents: n },
                ),
                None => stop(st, InstallErrorView::MissingImport),
            },
            EventView::Failed(m) => stop(st, InstallErrorView::ConfigUnreadable(m)),
            _ => stop(st, InstallErrorView::Protocol),
        },
    }
}

/// The machine's answer to a reply: its next state and the next action.
pub open spec fn respond(st: InstallerView, ev: EventView) -> (InstallerView, ActionView) {
    match st.pending {
        Pending::Fresh => enter(st, 0),
        Pending::Over => (st, end_action(st.failure)),
        Pending::Releasing => (
            InstallerView { pending: Pending::Over, key_held: false, ..st },
            end_action(st.failure),
        ),
        Pending::Main => respond_main(st, ev),
        Pending::LocateResolve => {
            let i = st.script[st.pc as int];
            match ev {
                EventView::Output(o) => if has_prefix(trimmed(o), st.disk) {
                    next(with_slot(st, locate_slot(i), partition_path(locate_label(i))))
                } else {
                    settle(st)
                },
                EventView::Failed(m) => stop(st, InstallErrorView::Io(m)),
                _ => stop(st, InstallErrorView::Protocol),
            }
        },
        Pending::LocateSettle => {
            let i = st.script[st.pc as int];
            match ev {
                EventView::Failed(m) => stop(st, InstallErrorView::Io(m)),
                _ => if st.attempts + 1 >= locate_tries() {
                    stop(
                        st,
                        InstallErrorView::PartitionTimeout { label: locate_label(i), disk: st.disk },
                    )
                } else {
                    (
                        InstallerView { attempts: st.attempts + 1, pending: Pending::Main, ..st },
                        ActionView::CheckPath(partition_path(locate_label(i))),
                    )
                },
            }
        },
        Pending::PoolDestroy => next(st),
        Pending::PatchWrite => match ev {
            EventView::Failed(m) => stop(st, InstallErrorView::Io(m)),
            _ => next(st),
        },
    }
}

/// The machine's state is consistent: the step counter is in range and each
/// waiting state belongs to the step it waits in.
pub open spec fn installer_wf(st: InstallerView) -> bool {
    &&& st.script.len() < usize::MAX
    &&& st.pc <= st.script.len()
    &&& st.attempts < locate_tries()
    &&& (st.pending != Pending::Fresh && st.pending != Pending::Over && st.pending
        != Pending::Releasing) ==> st.pc < st.script.len()
    &&& st.pending == Pending::Releasing ==> st.key_held
    &&& (st.pending == Pending::Releasing && st.failure is None) ==> st.pc == st.script.len()
    &&& st.pending == Pending::Over ==> !st.key_held
    &&& (st.pending == Pending::LocateResolve || st.pending == Pending::LocateSettle)
        ==> st.script[st.pc as int] is Locate
    &&& st.pending == Pending::PoolDestroy ==> st.script[st.pc as int] is ReleasePool
    &&& st.pending == Pending::PatchWrite ==> st.script[st.pc as int] is PatchConfiguration
}

/// A machine that has asked nothing yet.
pub open spec fn fresh_installer(c: InstallConfigView, host_id: Seq<char>) -> InstallerView {
    InstallerView {
        disk: c.disk.path,
        passphrase: c.passphrase,
        host_id,
        script: install_script(c),
        pc: 0,
        pending: Pending::Fresh,
        attempts: 0,
        boot: Seq::empty(),
        swap: Seq::empty(),
        root: Seq::empty(),
        key_path: Seq::empty(),
        key_held: false,
        swap_uuid: Seq::empty(),
        failure: None,
    }
}


fn strings(texts: &[&str]) -> (r: Vec<String>)
    ensures
        r@.len() == texts@.len(),
        forall|k: int| 0 <= k < texts@.len() ==> #[trigger] r@[k]@ == texts@[k]@,
{
    let mut v: Vec<String> = Vec::new();
    let mut i: usize = 0;
    while i < texts.len()
        invariant
            i <= texts@.len(),
            v@.len() == i,
            forall|k: int| 0 <= k < i ==> #[trigger] v@[k]@ == texts@[k]@,
        decreases texts@.len() - i,
    {
        v.push(owned(texts[i]));
        i = i + 1;
    }
    v
}

impl InstallError {
    /// A copy of this error.
    pub fn duplicate(&self) -> (r: InstallError)
        ensures
            r@ == self@,
    {
        match self {
            InstallError::Invalid(v) => InstallError::Invalid(v.duplicate()),
            InstallError::Io(m) => InstallError::Io(m.clone()),
            InstallError::Protocol => InstallError::Protocol,
            InstallError::PartitionTimeout { label, disk } => InstallError::PartitionTimeout {
                label: label.clone(),
                disk: disk.clone(),
            },
            InstallError::NoSwapUuid => InstallError::NoSwapUuid,
            InstallError::ConfigUnreadable(m) => InstallError::ConfigUnreadable(m.clone()),
            InstallError::MissingImport => InstallError::MissingImport,
        }
    }
}

impl Installer {
    /// A machine for the configuration, or the refusal of its ZFS options.
    /// `host_id` becomes `networking.hostId` in `zfs.nix`.
    pub fn new(cfg: &InstallConfig, host_id: String) -> (r: Result<Installer, InstallError>)
        ensures
            match r {
                Ok(m) => {
                    &&& zfs_options_check(
                        cfg.zfs_ashift@,
                        cfg.zfs_redundancy@,
                        cfg.zfs_compression@,
                        cfg.zfs_primarycache@,
                    ) is Ok
                    &&& m@ == fresh_installer(cfg@, host_id@)
                    &&& installer_wf(m@)
                },
                Err(e) => zfs_options_check(
                    cfg.zfs_ashift@,
                    cfg.zfs_redundancy@,
                    cfg.zfs_compression@,
                    cfg.zfs_primarycache@,
                ) == Err::<(), ValidationErrorView>(e->Invalid_0@) && e is Invalid,
            },
    {
        match validate_zfs_options(cfg) {
            Err(v) => Err(InstallError::Invalid(v)),
            Ok(()) => {
                let script = build_script(cfg);
                let m = Installer {
                    disk: cfg.disk.path.clone(),
                    passphrase: cfg.passphrase.clone(),
                    host_id,
                    script,
                    pc: 0,
                    pending: Pending::Fresh,
                    attempts: 0,
                    boot: String::new(),
                    swap: String::new(),
                    root: String::new(),
                    key_path: String::new(),
                    key_held: false,
                    swap_uuid: String::new(),
                    failure: None,
                };
                assert(m@ =~= fresh_installer(cfg@, host_id@));
                Ok(m)
            },
        }
    }

    /// A machine for the configuration with a fresh random host id.
    pub fn start(cfg: &InstallConfig) -> (r: Result<Installer, InstallError>)
        ensures
            match r {
                Ok(m) => {
                    &&& zfs_options_check(
                        cfg.zfs_ashift@,
                        cfg.zfs_redundancy@,
                        cfg.zfs_compression@,
                        cfg.zfs_primarycache@,
                    ) is Ok
                    &&& is_host_id(m@.host_id)
                    &&& m@ == fresh_installer(cfg@, m@.host_id)
                    &&& installer_wf(m@)
                },
                Err(e) => zfs_options_check(
                    cfg.zfs_ashift@,
                    cfg.zfs_redundancy@,
                    cfg.zfs_compression@,
                    cfg.zfs_primarycache@,
                ) == Err::<(), ValidationErrorView>(e->Invalid_0@) && e is Invalid,
            },
    {
        let host = random_host_id();
        Installer::new(cfg, host)
    }

    fn slot_path(&self, s: Slot) -> (r: String)
        ensures
            r@ == slot_value(self@, s),
    {
        match s {
            Slot::Boot => self.boot.clone(),
            Slot::Swap => self.swap.clone(),
            Slot::Root => self.root.clone(),
        }
    }

    fn resolve_arg(&self, a: &Arg) -> (r: String)
        ensures
            r@ == resolve(self@, a@),
    {
        match a {
            Arg::Text(t) => t.clone(),
            Arg::Part(s) => self.slot_path(*s),
            Arg::KeyLocation => concat_text("keylocation=file://", self.key_path.as_str()),
        }
    }

    fn resolve_args(&self, args: &Vec<Arg>) -> (r: Vec<String>)
        ensures
            string_views(r@) == resolve_all(self@, arg_views(args@)),
    {
        let mut v: Vec<String> = Vec::new();
        let mut i: usize = 0;
        while i < args.len()
            invariant
                i <= args@.len(),
                v@.len() == i,
                forall|k: int| 0 <= k < i ==> #[trigger] v@[k]@ == resolve(self@, args@[k]@),
            decreases args@.len() - i,
        {
            v.push(self.resolve_arg(&args[i]));
            i = i + 1;
        }
        assert(string_views(v@) =~= resolve_all(self@, arg_views(args@)));
        v
    }

    /// The first action of the current step.
    fn entry(&self) -> (r: Action)
        requires
            self@.pc < self@.script.len(),
        ensures
            r@ == entry_action(self@),
    {
        assert(self@.script[self.pc as int] == self.script@[self.pc as int]@);
        match &self.script[self.pc] {
            Instr::Say(s) => Action::Say(s.clone()),
            Instr::Run(p, a) => Action::Run { program: p.clone(), args: self.resolve_args(a) },
            Instr::Try(p, a) => Action::Try { program: p.clone(), args: self.resolve_args(a) },
            Instr::ReleasePool => Action::QueryPool,
            Instr::Locate(_, l) => Action::CheckPath(concat_text("/dev/disk/by-partlabel/", l.as_str())),
            Instr::MakeKeyFile => Action::CreateKeyFile(concat_text(self.passphrase.as_str(), "\n")),
            Instr::DropKeyFile => Action::RemoveKeyFile,
            Instr::MakeDir(d) => Action::CreateDir(d.clone()),
            Instr::ReadSwapUuid => {
                let mut args = strings(&["-s", "PARTUUID", "-o", "value"]);
                args.push(self.swap.clone());
                assert(string_views(args@) =~= seq!["-s"@, "PARTUUID"@, "-o"@, "value"@, self@.swap]);
                Action::Capture { program: owned("blkid"), args }
            },
            Instr::WriteZfsModule(p) => Action::WriteFile {
                path: p.clone(),
                contents: zfs_module_text(self.host_id.as_str(), self.swap_uuid.as_str()),
            },
            Instr::Write(p, c) => Action::WriteFile { path: p.clone(), contents: c.clone() },
            Instr::PatchConfiguration(p) => Action::ReadFile(p.clone()),
        }
    }

    fn enter(&mut self, pc: usize) -> (r: Action)
        requires
            pc <= old(self)@.script.len(),
        ensures
            (final(self)@, r@) == enter(old(self)@, pc as nat),
    {
        self.pc = pc;
        self.pending = Pending::Main;
        self.attempts = 0;
        if pc >= self.script.len() {
            self.conclude(None)
        } else {
            self.entry()
        }
    }

    fn next(&mut self) -> (r: Action)
        requires
            old(self)@.pc < old(self)@.script.len(),
            old(self)@.script.len() < usize::MAX,
        ensures
            (final(self)@, r@) == next(old(self)@),
    {
        let pc = self.pc + 1;
        self.enter(pc)
    }

    /// The last answer for the recorded failure.
    fn end_action(&self) -> (r: Action)
        ensures
            r@ == end_action(self@.failure),
    {
        match &self.failure {
            Some(e) => Action::Aborted(e.duplicate()),
            None => Action::Finished,
        }
    }

    fn conclude(&mut self, failure: Option<InstallError>) -> (r: Action)
        ensures
            (final(self)@, r@) == conclude(
                old(self)@,
                match failure {
                    Some(e) => Some(e@),
                    None => None,
                },
            ),
    {
        self.failure = failure;
        if self.key_held {
            self.pending = Pending::Releasing;
            Action::RemoveKeyFile
        } else {
            self.pending = Pending::Over;
            self.end_action()
        }
    }

    fn stop(&mut self, e: InstallError) -> (r: Action)
        ensures
            (final(self)@, r@) == stop(old(self)@, e@),
    {
        self.conclude(Some(e))
    }

    fn settle(&mut self) -> (r: Action)
        ensures
            (final(self)@, r@) == settle(old(self)@),
    {
        self.pending = Pending::LocateSettle;
        let args = strings(&["settle", "--timeout=1"]);
        assert(string_views(args@) =~= seq!["settle"@, "--timeout=1"@]);
        Action::Try { program: owned("udevadm"), args }
    }
}

impl Installer {
    fn respond_main(&mut self, event: Event) -> (r: Action)
        requires
            installer_wf(old(self)@),
            old(self)@.pending == Pending::Main,
        ensures
            (final(self)@, r@) == respond_main(old(self)@, event@),
    {
        let pc = self.pc;
        assert(self@.script[pc as int] == self.script@[pc as int]@);
        match &self.script[pc] {
            Instr::Say(_) | Instr::Try(_, _) => self.next(),
            Instr::DropKeyFile => {
                self.key_held = false;
                self.next()
            },
            Instr::Run(_, _) | Instr::MakeDir(_) | Instr::Write(_, _) | Instr::WriteZfsModule(_) => {
                match event {
                    Event::Failed(m) => self.stop(InstallError::Io(m)),
                    _ => self.next(),
                }
            },
            Instr::ReleasePool => match event {
                Event::PoolStatus(Some(t)) => {
                    if zpool_uses_disk(t.as_str(), self.disk.as_str()) {
                        self.pending = Pending::PoolDestroy;
                        let args = strings(&["destroy", "-f", "zroot"]);
                        assert(string_views(args@) =~= seq!["destroy"@, "-f"@, "zroot"@]);
                        Action::Try { program: owned("zpool"), args }
                    } else {
                        self.next()
                    }
                },
                _ => self.next(),
            },
            Instr::Locate(_, l) => {
                let path = concat_text("/dev/disk/by-partlabel/", l.as_str());
                match event {
                    Event::Exists(true) => {
                        self.pending = Pending::LocateResolve;
                        let mut args = strings(&["-f"]);
                        args.push(path);
                        assert(string_views(args@) =~= seq!["-f"@, partition_path(
                            locate_label(self@.script[pc as int]),
                        )]);
                        Action::Capture { program: owned("readlink"), args }
                    },
                    _ => self.settle(),
                }
            },
            Instr::MakeKeyFile => match event {
                Event::KeyFile(p) => {
                    self.key_path = p;
                    self.key_held = true;
                    self.next()
                },
                Event::Failed(m) => self.stop(InstallError::Io(m)),
                _ => self.stop(InstallError::Protocol),
            },
            Instr::ReadSwapUuid => match event {
                Event::Output(o) => {
                    let t = trim_str(o.as_str());
                    if t.unicode_len() == 0 {
                        self.stop(InstallError::NoSwapUuid)
                    } else {
                        self.swap_uuid = owned(t);
                        self.next()
                    }
                },
                Event::Failed(m) => self.stop(InstallError::Io(m)),
                _ => self.stop(InstallError::Protocol),
            },
            Instr::PatchConfiguration(p) => {
                let path = p.clone();
                match event {
                    Event::Output(t) => match patch_configuration(t.as_str()) {
                        Some(n) => {
                            self.pending = Pending::PatchWrite;
                            Action::WriteFile { path, contents: n }
                        },
                        None => self.stop(InstallError::MissingImport),
                    },
                    Event::Failed(m) => self.stop(InstallError::ConfigUnreadable(m)),
                    _ => self.stop(InstallError::Protocol),
                }
            },
        }
    }

    /// Takes the reply to the last action and gives the next one. The first
    /// call starts the installation, whatever its event; once the machine has
    /// finished or stopped, it repeats its last answer.
    pub fn advance(&mut self, event: Event) -> (r: Action)
        requires
            installer_wf(old(self)@),
        ensures
            installer_wf(final(self)@),
            (final(self)@, r@) == respond(old(self)@, event@),
    {
        match self.pending {
            Pending::Fresh => self.enter(0),
            Pending::Over => self.end_action(),
            Pending::Releasing => {
                self.pending = Pending::Over;
                self.key_held = false;
                self.end_action()
            },
            Pending::Main => self.respond_main(event),
            Pending::LocateResolve => {
                let pc = self.pc;
                assert(self@.script[pc as int] == self.script@[pc as int]@);
                let (slot, label) = match &self.script[pc] {
                    Instr::Locate(s, l) => (*s, l.clone()),
                    _ => (Slot::Boot, String::new()),
                };
                match event {
                    Event::Output(o) => {
                        if starts_with(trim_str(o.as_str()), self.disk.as_str()) {
                            let path = concat_text("/dev/disk/by-partlabel/", label.as_str());
                            match slot {
                                Slot::Boot => self.boot = path,
                                Slot::Swap => self.swap = path,
                                Slot::Root => self.root = path,
                            }
                            self.next()
                        } else {
                            self.settle()
                        }
                    },
                    Event::Failed(m) => self.stop(InstallError::Io(m)),
                    _ => self.stop(InstallError::Protocol),
                }
            },
            Pending::LocateSettle => {
                let pc = self.pc;
                assert(self@.script[pc as int] == self.script@[pc as int]@);
                let label = match &self.script[pc] {
                    Instr::Locate(_, l) => l.clone(),
                    _ => String::new(),
                };
                match event {
                    Event::Failed(m) => self.stop(InstallError::Io(m)),
                    _ => {
                        if self.attempts + 1 >= 40 {
                            let disk = self.disk.clone();
                            self.stop(InstallError::PartitionTimeout { label, disk })
                        } else {
                            self.attempts = self.attempts + 1;
                            self.pending = Pending::Main;
                            Action::CheckPath(concat_text("/dev/disk/by-partlabel/", label.as_str()))
                        }
                    },
                }
            },
            Pending::PoolDestroy => self.next(),
            Pending::PatchWrite => match event {
                Event::Failed(m) => self.stop(InstallError::Io(m)),
                _ => self.next(),
            },
        }
    }
}

/// Once the installation has finished or stopped, every reply leaves the
/// machine as it is and gets the same answer again.
pub proof fn lemma_over_is_final(st: InstallerView, ev: EventView)
    requires
        st.pending == Pending::Over,
    ensures
        respond(st, ev).0 == st,
        respond(st, ev).1 == end_action(st.failure),
{
}

/// Steps run in their order: no reply changes the script, and a reply moves
/// the machine on by one step at most (the first reply enters the first step).
pub proof fn lemma_steps_in_order(st: InstallerView, ev: EventView)
    requires
        installer_wf(st),
    ensures
        respond(st, ev).0.script == st.script,
        st.pending == Pending::Fresh ==> respond(st, ev).0.pc == 0,
        st.pending != Pending::Fresh ==> respond(st, ev).0.pc == st.pc || respond(st, ev).0.pc
            == st.pc + 1,
{
}

/// The installation is reported complete only on leaving its last step.
pub proof fn lemma_finish_after_last_step(st: InstallerView, ev: EventView)
    requires
        installer_wf(st),
        st.pending != Pending::Over,
        respond(st, ev).1 == ActionView::Finished,
    ensures
        respond(st, ev).0.pc == st.script.len(),
        st.pending == Pending::Fresh || st.pc + 1 == st.script.len() || (st.pending
            == Pending::Releasing && st.pc == st.script.len()),
{
}

/// A partition's device path is recorded only once `readlink` has shown that
/// it resolves to a path on the selected disk.
pub proof fn lemma_partition_on_disk(st: InstallerView, ev: EventView, s: Slot)
    requires
        installer_wf(st),
        slot_value(respond(st, ev).0, s) != slot_value(st, s),
    ensures
        st.pending == Pending::LocateResolve,
        ev matches EventView::Output(o) && has_prefix(trimmed(o), st.disk),
        slot_value(respond(st, ev).0, s) == partition_path(locate_label(st.script[st.pc as int])),
{
}

/// Waiting for a partition gives up only after its last allowed wait.
pub proof fn lemma_timeout_after_all_tries(st: InstallerView, ev: EventView)
    requires
        installer_wf(st),
        st.pending != Pending::Over,
        st.pending != Pending::Releasing,
        respond(st, ev).1 matches ActionView::Aborted(InstallErrorView::PartitionTimeout { .. }),
    ensures
        st.pending == Pending::LocateSettle,
        st.attempts + 1 == locate_tries(),
{
}

/// Whether a step passes the key file's location to its program.
pub open spec fn names_key_file(i: InstrView) -> bool {
    match i {
        InstrView::Run(_, a) => a.contains(ArgView::KeyLocation),
        InstrView::Try(_, a) => a.contains(ArgView::KeyLocation),
        _ => false,
    }
}

/// The step that creates the pool, counted from the start of the script.
pub open spec fn pool_create_index(c: InstallConfigView) -> int {
    partition_steps(c).len() + if c.enable_encryption {
        2int
    } else {
        1int
    }
}

/// With encryption, the key file is written right before `zpool create`,
/// named only by that step, and removed right after it; without encryption no
/// step writes, names or removes a key file.
pub proof fn lemma_key_file_lifetime(c: InstallConfigView)
    ensures
        install_script(c)[pool_create_index(c)] == InstrView::Run("zpool"@, zpool_create_args(c)),
        forall|j: int|
            0 <= j < install_script(c).len() ==> (#[trigger] install_script(c)[j]
                == InstrView::MakeKeyFile <==> c.enable_encryption && j == pool_create_index(c)
                - 1),
        forall|j: int|
            0 <= j < install_script(c).len() ==> (#[trigger] install_script(c)[j]
                == InstrView::DropKeyFile <==> c.enable_encryption && j == pool_create_index(c)
                + 1),
        forall|j: int|
            0 <= j < install_script(c).len() ==> (names_key_file(#[trigger] install_script(c)[j])
                <==> c.enable_encryption && j == pool_create_index(c)),
{
    let a = partition_steps(c);
    let b = pool_steps(c);
    let d = system_steps(c);
    let s = install_script(c);
    let za = zpool_create_args(c);
    assert(c.enable_encryption ==> za[25] == ArgView::KeyLocation);
    assert(!c.enable_encryption ==> !za.contains(ArgView::KeyLocation));
    assert forall|j: int| 0 <= j < a.len() implies #[trigger] s[j] == a[j] by {}
    assert forall|j: int| 0 <= j < b.len() implies #[trigger] s[a.len() + j] == b[j] by {}
    assert forall|j: int| 0 <= j < d.len() implies #[trigger] s[a.len() + b.len() + j] == d[j] by {}
    assert forall|j: int| 0 <= j < a.len() implies !names_key_file(#[trigger] a[j]) && a[j] != InstrView::MakeKeyFile && a[j] != InstrView::DropKeyFile by {}
    assert forall|j: int| 0 <= j < d.len() implies !names_key_file(#[trigger] d[j]) && d[j] != InstrView::MakeKeyFile && d[j] != InstrView::DropKeyFile by {}
    assert forall|j: int| 0 <= j < s.len() implies (#[trigger] s[j] == InstrView::MakeKeyFile
        <==> c.enable_encryption && j == pool_create_index(c) - 1) && (s[j] == InstrView::DropKeyFile
        <==> c.enable_encryption && j == pool_create_index(c) + 1) && (names_key_file(s[j])
        <==> c.enable_encryption && j == pool_create_index(c)) by {
        if j < a.len() {
            assert(s[j] == a[j]);
        } else if j < a.len() + b.len() {
            assert(s[j] == b[j - a.len()]);
        } else {
            assert(s[j] == d[j - a.len() - b.len()]);
        }
    }
}

/// Whether a program rewrites a whole disk's layout.
pub open spec fn rewrites_disk(program: Seq<char>) -> bool {
    program == "wipefs"@ || program == "sgdisk"@ || program == "partprobe"@
}

/// Whether a program formats or enables a partition.
pub open spec fn partition_tool(program: Seq<char>) -> bool {
    program == "mkfs.fat"@ || program == "mkswap"@ || program == "swapon"@
}

/// Whether a step formats, enables or builds a pool on a partition.
pub open spec fn formats_partition(i: InstrView) -> bool {
    match i {
        InstrView::Run(p, a) => partition_tool(p) || (p == "zpool"@ && a.len() > 0 && a[0] == text(
            "create"@,
        )),
        _ => false,
    }
}

/// A step that rewrites the disk layout names the disk last, and a step that
/// formats or pools storage names a partition last.
pub open spec fn targets_ok(i: InstrView, disk: Seq<char>) -> bool {
    &&& (i is Run && rewrites_disk(i->Run_0) ==> i->Run_1.len() > 0 && i->Run_1.last() == text(
        disk,
    ))
    &&& (formats_partition(i) ==> i->Run_1.len() > 0 && i->Run_1.last() is Part)
}

proof fn lemma_tool_names()
    ensures
        !rewrites_disk("udevadm"@) && !partition_tool("udevadm"@) && "udevadm"@ != "zpool"@,
        !rewrites_disk("zfs"@) && !partition_tool("zfs"@) && "zfs"@ != "zpool"@,
        !rewrites_disk("mount"@) && !partition_tool("mount"@) && "mount"@ != "zpool"@,
        !rewrites_disk("nixos-generate-config"@) && !partition_tool("nixos-generate-config"@)
            && "nixos-generate-config"@ != "zpool"@,
        !rewrites_disk("zpool"@) && !partition_tool("zpool"@),
        !rewrites_disk("mkfs.fat"@) && !rewrites_disk("mkswap"@) && !rewrites_disk("swapon"@),
        !partition_tool("wipefs"@) && "wipefs"@ != "zpool"@,
        !partition_tool("sgdisk"@) && "sgdisk"@ != "zpool"@,
        !partition_tool("partprobe"@) && "partprobe"@ != "zpool"@,
        "set"@ != "create"@,
{
    reveal_strlit("wipefs");
    reveal_strlit("sgdisk");
    reveal_strlit("partprobe");
    reveal_strlit("mkfs.fat");
    reveal_strlit("mkswap");
    reveal_strlit("swapon");
    reveal_strlit("zpool");
    reveal_strlit("zfs");
    reveal_strlit("mount");
    reveal_strlit("udevadm");
    reveal_strlit("nixos-generate-config");
    reveal_strlit("create");
    reveal_strlit("set");
    assert("wipefs"@.len() == 6);
    assert("sgdisk"@.len() == 6);
    assert("partprobe"@.len() == 9);
    assert("mkfs.fat"@.len() == 8);
    assert("mkswap"@.len() == 6);
    assert("swapon"@.len() == 6);
    assert("zpool"@.len() == 5);
    assert("zfs"@.len() == 3);
    assert("mount"@.len() == 5);
    assert("udevadm"@.len() == 7);
    assert("nixos-generate-config"@.len() == 21);
    assert("create"@.len() == 6);
    assert("set"@.len() == 3);
    assert("wipefs"@[0] != "mkswap"@[0] && "wipefs"@[0] != "swapon"@[0]);
    assert("sgdisk"@[0] != "mkswap"@[0] && "sgdisk"@[1] != "swapon"@[1]);
    assert("set"@[0] != "create"@[0]);
    assert("mount"@[0] != "zpool"@[0]);
}

proof fn lemma_partition_steps_targets(c: InstallConfigView)
    ensures
        forall|j: int|
            0 <= j < partition_steps(c).len() ==> targets_ok(
                #[trigger] partition_steps(c)[j],
                c.disk.path,
            ),
{
    lemma_tool_names();
    let a = partition_steps(c);
    let disk = c.disk.path;
    assert(seq!["-a"@, disk].map_values(|x: Seq<char>| text(x)).last() == text(disk));
    assert(seq!["--zap-all"@, disk].map_values(|x: Seq<char>| text(x)).last() == text(disk));
    assert(seq!["-n"@, "1:0:+"@ + c.boot_size, "-t"@, "1:ef00"@, "-c"@, "1:NIXBOOT"@, disk].map_values(
        |x: Seq<char>| text(x),
    ).last() == text(disk));
    assert(seq!["-n"@, "2:0:+"@ + c.swap_size, "-t"@, "2:8200"@, "-c"@, "2:NIXSWAP"@, disk].map_values(
        |x: Seq<char>| text(x),
    ).last() == text(disk));
    assert(seq!["-n"@, "3:0:0"@, "-t"@, "3:8300"@, "-c"@, "3:NIXROOT"@, disk].map_values(
        |x: Seq<char>| text(x),
    ).last() == text(disk));
    assert(seq![disk].map_values(|x: Seq<char>| text(x)).last() == text(disk));
    assert forall|j: int| 0 <= j < a.len() implies targets_ok(#[trigger] a[j], disk) by {}
}

/// Every command that rewrites the disk layout (`wipefs`, `sgdisk`,
/// `partprobe`) is given the selected disk as its last argument, and every
/// command that formats or pools storage is given one of the partitions the
/// installer created and then located on that disk.
pub proof fn lemma_disk_commands_target_disk(c: InstallConfigView)
    ensures
        forall|j: int|
            0 <= j < install_script(c).len() ==> targets_ok(
                #[trigger] install_script(c)[j],
                c.disk.path,
            ),
{
    lemma_tool_names();
    lemma_partition_steps_targets(c);
    let a = partition_steps(c);
    let b = pool_steps(c);
    let d = system_steps(c);
    let s = install_script(c);
    let disk = c.disk.path;
    assert(zpool_create_args(c).last() is Part);
    assert(zpool_create_args(c)[0] == text("create"@));
    assert(seq!["set"@, "keylocation=prompt"@, "zroot"@].map_values(|x: Seq<char>| text(x))[0] == text("set"@));
    assert forall|j: int| 0 <= j < b.len() implies targets_ok(#[trigger] b[j], disk) by {}
    assert forall|j: int| 0 <= j < d.len() implies targets_ok(#[trigger] d[j], disk) by {}
    assert forall|j: int| 0 <= j < s.len() implies targets_ok(#[trigger] s[j], disk) by {
        if j < a.len() {
            assert(s[j] == a[j]);
        } else if j < a.len() + b.len() {
            assert(s[j] == b[j - a.len()]);
        } else {
            assert(s[j] == d[j - a.len() - b.len()]);
        }
    }
}

/// The label the installer gives a partition.
pub open spec fn slot_label(s: Slot) -> Seq<char> {
    match s {
        Slot::Boot => "NIXBOOT"@,
        Slot::Swap => "NIXSWAP"@,
        Slot::Root => "NIXROOT"@,
    }
}

/// The step of the script that looks for a partition.
pub open spec fn locate_index(s: Slot) -> nat {
    match s {
        Slot::Boot => 13,
        Slot::Swap => 14,
        Slot::Root => 15,
    }
}

/// Every partition whose lookup step is behind the machine holds the path of
/// its label.
pub open spec fn slots_located(st: InstallerView) -> bool {
    &&& st.pc > locate_index(Slot::Boot) ==> st.boot == partition_path(slot_label(Slot::Boot))
    &&& st.pc > locate_index(Slot::Swap) ==> st.swap == partition_path(slot_label(Slot::Swap))
    &&& st.pc > locate_index(Slot::Root) ==> st.root == partition_path(slot_label(Slot::Root))
}

/// Whether a step passes a partition to its program.
pub open spec fn names_partition(i: InstrView) -> bool {
    match i {
        InstrView::Run(_, a) => exists|k: int| 0 <= k < a.len() && #[trigger] a[k] is Part,
        InstrView::Try(_, a) => exists|k: int| 0 <= k < a.len() && #[trigger] a[k] is Part,
        _ => false,
    }
}

proof fn lemma_lookup_steps(c: InstallConfigView)
    ensures
        install_script(c)[13] == InstrView::Locate(Slot::Boot, slot_label(Slot::Boot)),
        install_script(c)[14] == InstrView::Locate(Slot::Swap, slot_label(Slot::Swap)),
        install_script(c)[15] == InstrView::Locate(Slot::Root, slot_label(Slot::Root)),
        forall|j: int| 0 <= j <= 15 ==> !names_partition(#[trigger] install_script(c)[j]),
        install_script(c).len() > 15,
{
    let a = partition_steps(c);
    let s = install_script(c);
    assert forall|j: int| 0 <= j < a.len() implies #[trigger] s[j] == a[j] by {}
    assert forall|j: int| 0 <= j <= 15 implies !names_partition(#[trigger] a[j]) by {
        let x = a[j];
        if x is Run {
            let args = x->Run_1;
            assert forall|k: int| 0 <= k < args.len() implies !(#[trigger] args[k] is Part) by {}
        }
        if x is Try {
            let args = x->Try_1;
            assert forall|k: int| 0 <= k < args.len() implies !(#[trigger] args[k] is Part) by {}
        }
    }
    assert forall|j: int| 0 <= j <= 15 implies !names_partition(#[trigger] s[j]) by {
        assert(s[j] == a[j]);
    }
}

/// The machine records each partition when leaving its lookup step, and
/// never forgets it: from a fresh machine on, every partition whose lookup
/// is behind the machine holds the path of its label.
pub proof fn lemma_slots_located_kept(c: InstallConfigView, st: InstallerView, ev: EventView)
    requires
        installer_wf(st),
        st.script == install_script(c),
        slots_located(st),
    ensures
        slots_located(respond(st, ev).0),
        slots_located(fresh_installer(c, st.host_id)),
{
    lemma_lookup_steps(c);
}

/// A program is never given a partition before the partition was found on
/// the selected disk: every partition argument of the current step resolves
/// to the path of the partition's label.
pub proof fn lemma_partition_args_located(c: InstallConfigView, st: InstallerView, a: ArgView)
    requires
        installer_wf(st),
        st.script == install_script(c),
        slots_located(st),
        st.pc < st.script.len(),
        names_partition(st.script[st.pc as int]),
        a is Part,
    ensures
        resolve(st, a) == partition_path(slot_label(a->Part_0)),
{
    lemma_lookup_steps(c);
}

/// The installation never ends while it holds a key file: when it finishes
/// or stops with one held, it first asks for the file's removal, and the key
/// file is given up only after such a request (at the step that removes it,
/// or on ending).
pub proof fn lemma_key_file_released(st: InstallerView, ev: EventView)
    requires
        installer_wf(st),
    ensures
        (respond(st, ev).1 is Aborted || respond(st, ev).1 is Finished) ==> !respond(
            st,
            ev,
        ).0.key_held,
        (st.key_held && st.pending != Pending::Releasing && respond(st, ev).0.pending
            == Pending::Releasing) ==> respond(st, ev).1 == ActionView::RemoveKeyFile,
        (st.key_held && !respond(st, ev).0.key_held) ==> (st.pending == Pending::Releasing || (
        st.pending == Pending::Main && st.script[st.pc as int] == InstrView::DropKeyFile)),
{
}

/// `zpool create` builds the pool `zroot` on the root partition with the
/// chosen settings: `-o ashift=` the chosen sector size, `-o autotrim=on`
/// exactly when autotrim was chosen and `-o autotrim=off` otherwise, and
/// `-O compression=` and `-O primarycache=` the chosen values in lower case.
pub proof fn lemma_pool_options(c: InstallConfigView)
    ensures
        install_script(c)[pool_create_index(c)] == InstrView::Run("zpool"@, zpool_create_args(c)),
        zpool_create_args(c).len() >= 22,
        zpool_create_args(c)[0] == text("create"@),
        zpool_create_args(c)[2] == text("-o"@),
        zpool_create_args(c)[3] == text("ashift="@ + trimmed(c.zfs_ashift)),
        zpool_create_args(c)[4] == text("-o"@),
        c.zfs_autotrim ==> zpool_create_args(c)[5] == text("autotrim=on"@),
        !c.zfs_autotrim ==> zpool_create_args(c)[5] == text("autotrim=off"@),
        zpool_create_args(c)[6] == text("-O"@),
        zpool_create_args(c)[7] == text("compression="@ + lowercase(trimmed(c.zfs_compression))),
        zpool_create_args(c)[18] == text("-O"@),
        zpool_create_args(c)[19] == text("primarycache="@ + lowercase(trimmed(c.zfs_primarycache))),
        zpool_create_args(c)[zpool_create_args(c).len() - 2] == text("zroot"@),
        zpool_create_args(c).last() == ArgView::Part(Slot::Root),
{
    lemma_key_file_lifetime(c);
    reveal_strlit("autotrim=");
    reveal_strlit("on");
    reveal_strlit("off");
    reveal_strlit("autotrim=on");
    reveal_strlit("autotrim=off");
    assert("autotrim="@ + "on"@ =~= "autotrim=on"@);
    assert("autotrim="@ + "off"@ =~= "autotrim=off"@);
}

} // verus!
