# nix_install_zfs

A guided NixOS-on-ZFS installer whose decisions are proved with Verus.

The library (`src/`) holds everything the installer decides:

- `validate` — the checks on sizes, names, passwords and ZFS options, with
  the messages shown for each refusal;
- `disks` — which `lsblk` devices are offered, whether a disk holds an earlier
  installation, and the warnings shown before it is erased;
- `preflight` — the start-up checks and the list of required tools;
- `nixconf` — escaping for Nix strings, the generated `zfs.nix` and
  `system-setup.nix`, and the patch of `configuration.nix`;
- `installer` — the installation script and the state machine that walks it,
  asking its caller to run each command and reporting what comes back;
- `wizard` — the setup wizard as a state machine over key presses, and what
  each screen shows;
- `commands` — the texts reported about failed commands and the banner
  printed before installing.

Laws of the library are public proof functions (`lemma_*`) next to the
functions they speak of: for instance that the wizard hands over a
configuration only from its final confirmation and only with answers that
passed their checks, that the key file exists only around `zpool create`, and
that every command rewriting the disk layout names the selected disk.

`app/main.rs` is the program around the library: it runs the commands, reads
and writes files, parses `lsblk` JSON and draws the wizard in the terminal.
