# bootcontrol

The verified core of BootControl, a bootloader manager for Linux: the
configuration parsers and editors (GRUB `/etc/default/grub`, systemd-boot
loader entries and `loader.conf`, the UKI kernel command line), the ETag
checks that guard every configuration-file write and snapshot restore, the kernel-parameter blacklist, the snapshot
and restore policy, the UEFI boot-variable codecs, the Secure Boot command
plans, and the state machines of the daemon's privileged D-Bus calls and of
the GUI's staged changes and of its (re)load of the live state. Every function in `src/` carries a contract that
Verus proves, except six small trusted wrappers (around `sha2`, `chrono` and
three standard-library conversions) whose contracts are assumed and stated
in their doc comments.

Layout:

- `src/` — the library, verified with Verus. `call_gate.rs`, `write_flow.rs`,
  `restore_flow.rs`, `enroll_flow.rs` and `nvram_flow.rs` decide the order of
  the daemon's privileged calls (caller, Polkit, host, audit, snapshot,
  write); `rpm_ostree.rs` orders a kernel-argument change on rpm-ostree hosts
  (blacklist, fresh read, ETag check, change), and `keygen_flow.rs` the
  tool runs of paranoia mode's key generation and `db` merge; `manager.rs` holds the daemon's configured paths; `view_model.rs`,
  `boot_entries.rs`, `confirmation.rs`, `grub_settings.rs`, `gui_events.rs`
  and `demo.rs` hold the GUI's state and what it shows for each message;
  the other modules hold the formats and policies.
- `tests/` — tests of the library on concrete values.
- `app/` — the daemon `bootcontrold`: D-Bus and Polkit, file I/O, external
  tools and the audit journal, driving the library's state machines.
