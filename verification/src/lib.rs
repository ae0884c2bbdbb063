//! Verified core of BootControl: configuration parsers, ETag optimistic
//! locking, the payload blacklist, snapshot path policy and the GUI state
//! machines that stage and confirm boot-configuration changes.

pub mod text;
pub mod etag;
pub mod error;
pub mod lines;
pub mod grub;
pub mod sanitize;
pub mod words;
pub mod uki;
pub mod boot_entries;
pub mod confirmation;
pub mod grub_settings;
pub mod polkit;
pub mod policy_check;
pub mod audit;
pub mod snapshot;
pub mod systemd_boot;
pub mod failsafe;
pub mod uefi;
pub mod initramfs;
pub mod immutable_distro;
pub mod secureboot;
pub mod luks_keymap;
pub mod rpm_ostree;
pub mod prober;
pub mod lifecycle;
pub mod theme;
pub mod backend;
pub mod view_model;
pub mod write_flow;
pub mod call_gate;
pub mod restore_flow;
pub mod enroll_flow;
pub mod nvram_flow;
pub mod keygen_flow;
pub mod journal;
pub mod manager;
pub mod gui_events;
pub mod demo;
