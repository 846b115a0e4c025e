//! The checks made before the wizard starts: platform, privileges, firmware
//! mode and the tools the installer runs.
use vstd::prelude::*;
use vstd::string::*;

use crate::disks::text_views;
use crate::text::{owned, str_eq, trim_str, trimmed};

verus! {

/// Why the installer cannot start.
#[derive(Clone, Debug, PartialEq, Eq)]
pub enum SetupError {
    NotLinux,
    NotRoot,
    NoUefi,
    MissingTools { names: Vec<String> },
    NoDisks,
}

/// `names` separated by `, `.
pub open spec fn joined(names: Seq<Seq<char>>) -> Seq<char>
    decreases names.len(),
{
    if names.len() == 0 {
        Seq::empty()
    } else if names.len() == 1 {
        names[0]
    } else {
        joined(names.drop_last()) + ", "@ + names.last()
    }
}

/// The text shown for a [`SetupError`].
pub open spec fn setup_message(e: SetupError) -> Seq<char> {
    match e {
        SetupError::NotLinux => "This installer must run on Linux (NixOS installer environment)."@,
        SetupError::NotRoot => "Please run as root (e.g. sudo nix run ...)"@,
        SetupError::NoUefi =>
            "UEFI mode was not detected. Reboot the installer media in UEFI mode before proceeding."@,
        SetupError::MissingTools { names } => "Missing required tools in PATH: "@ + joined(
            text_views(names@),
        ),
        SetupError::NoDisks => "No writable disks were found via lsblk."@,
    }
}

impl SetupError {
    /// The text shown to the user.
    pub fn message(&self) -> (r: String)
        ensures
            r@ == setup_message(*self),
    {
        match self {
            SetupError::NotLinux => owned(
                "This installer must run on Linux (NixOS installer environment).",
            ),
            SetupError::NotRoot => owned("Please run as root (e.g. sudo nix run ...)"),
            SetupError::NoUefi => owned(
                "UEFI mode was not detected. Reboot the installer media in UEFI mode before proceeding.",
            ),
            SetupError::MissingTools { names } => {
                let mut s = owned("Missing required tools in PATH: ");
                let ghost start = s@;
                let mut i: usize = 0;
                while i < names.len()
                    invariant
                        i <= names@.len(),
                        s@ == start + joined(text_views(names@.take(i as int))),
                    decreases names@.len() - i,
                {
                    let ghost before = s@;
                    if i > 0 {
                        s.append(", ");
                    }
                    s.append(names[i].as_str());
                    proof {
                        let t = text_views(names@.take(i + 1));
                        assert(t.drop_last() =~= text_views(names@.take(i as int)));
                        assert(t.last() == names@[i as int]@);
                        if i == 0 {
                            assert(t.len() == 1);
                            assert(joined(text_views(names@.take(0))) =~= Seq::<char>::empty());
                        }
                        assert(s@ =~= start + joined(t));
                    }
                    i = i + 1;
                }
                assert(names@.take(names@.len() as int) =~= names@);
                s
            },
            SetupError::NoDisks => owned("No writable disks were found via lsblk."),
        }
    }
}

/// The outcome of the start-up checks, in order: Linux, root, UEFI.
pub open spec fn preflight_outcome(
    is_linux: bool,
    euid_output: Seq<char>,
    uefi_present: bool,
) -> Result<(), SetupError> {
    if !is_linux {
        Err(SetupError::NotLinux)
    } else if trimmed(euid_output) != "0"@ {
        Err(SetupError::NotRoot)
    } else if !uefi_present {
        Err(SetupError::NoUefi)
    } else {
        Ok(())
    }
}

/// Decides whether the installer may start: it must run on Linux, as root
/// (`euid_output` is what `id -u` printed) and on UEFI firmware.
pub fn preflight_checks(is_linux: bool, euid_output: &str, uefi_present: bool) -> (r: Result<
    (),
    SetupError,
>)
    ensures
        r == preflight_outcome(is_linux, euid_output@, uefi_present),
{
    if !is_linux {
        return Err(SetupError::NotLinux);
    }
    if !str_eq(trim_str(euid_output), "0") {
        return Err(SetupError::NotRoot);
    }
    if !uefi_present {
        return Err(SetupError::NoUefi);
    }
    Ok(())
}

/// The programs the installer runs.
pub open spec fn required_command_names() -> Seq<Seq<char>> {
    seq![
        "id"@,
        "findmnt"@,
        "readlink"@,
        "lsblk"@,
        "wipefs"@,
        "sgdisk"@,
        "partprobe"@,
        "mkfs.fat"@,
        "mkswap"@,
        "swapon"@,
        "swapoff"@,
        "mount"@,
        "umount"@,
        "zpool"@,
        "zfs"@,
        "blkid"@,
        "nixos-generate-config"@,
        "udevadm"@,
    ]
}

/// The programs the installer runs, in the order they are checked.
pub fn required_commands() -> (r: Vec<&'static str>)
    ensures
        r@.map_values(|s: &str| s@) == required_command_names(),
{
    let r = vec![
        "id",
        "findmnt",
        "readlink",
        "lsblk",
        "wipefs",
        "sgdisk",
        "partprobe",
        "mkfs.fat",
        "mkswap",
        "swapon",
        "swapoff",
        "mount",
        "umount",
        "zpool",
        "zfs",
        "blkid",
        "nixos-generate-config",
        "udevadm",
    ];
    assert(r@.map_values(|s: &str| s@) =~= required_command_names());
    r
}

/// The required programs among the first `k` that were not found; `found[i]`
/// tells whether the `i`-th one is on the search path (a missing entry
/// counts as not found).
pub open spec fn missing_among(found: Seq<bool>, k: int) -> Seq<Seq<char>>
    decreases k,
{
    if k <= 0 {
        Seq::empty()
    } else {
        missing_among(found, k - 1) + if k - 1 < found.len() && found[k - 1] {
            Seq::empty()
        } else {
            seq![required_command_names()[k - 1]]
        }
    }
}

/// The required programs that were not found.
pub open spec fn missing_commands(found: Seq<bool>) -> Seq<Seq<char>> {
    missing_among(found, required_command_names().len() as int)
}

/// Fails, naming the missing programs in order, when some required program
/// was not found; `found[i]` tells whether `required_commands()[i]` is on the
/// search path.
pub fn check_required_commands(found: &Vec<bool>) -> (r: Result<(), SetupError>)
    ensures
        missing_commands(found@).len() == 0 ==> r is Ok,
        missing_commands(found@).len() > 0 ==> (r matches Err(SetupError::MissingTools { names })
            && text_views(names@) == missing_commands(found@)),
{
    let cmds = required_commands();
    let mut missing: Vec<String> = Vec::new();
    let mut i: usize = 0;
    while i < cmds.len()
        invariant
            i <= cmds@.len(),
            cmds@.map_values(|s: &str| s@) == required_command_names(),
            text_views(missing@) == missing_among(found@, i as int),
        decreases cmds@.len() - i,
    {
        let present = i < found.len() && found[i];
        let ghost before = missing@;
        if !present {
            missing.push(owned(cmds[i]));
            assert(cmds@[i as int]@ == required_command_names()[i as int]);
            assert(text_views(missing@) =~= text_views(before) + seq![required_command_names()[i as int]]);
        }
        assert(text_views(missing@) =~= missing_among(found@, i + 1));
        i = i + 1;
    }
    if missing.len() > 0 {
        return Err(SetupError::MissingTools { names: missing });
    }
    Ok(())
}

} // verus!
