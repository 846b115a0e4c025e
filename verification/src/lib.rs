//! Planning and validation logic for a guided NixOS-on-ZFS installer.
pub mod text;
pub mod types;
pub mod validate;
pub mod nixconf;
pub mod disks;
pub mod preflight;
pub mod installer;
pub mod wizard;
pub mod commands;
