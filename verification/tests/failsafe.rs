use bootcontrol::failsafe::{
    build_failsafe_snippet, choose_kernel, failsafe_snippet_at, initrd_candidates,
    kernel_from_release, parse_proc_version, parse_root_device, root_argument, BootImage,
    KernelInfo,
};

fn fake_kernel() -> KernelInfo {
    KernelInfo {
        version: "5.15.0-test".to_owned(),
        vmlinuz: "/tmp/fixture/vmlinuz-5.15.0-test".to_owned(),
    }
}

// 2026-01-01 00:00:00 UTC
const FIXED_SECS: i64 = 1767225600;

#[test]
fn parse_proc_version_extracts_release() {
    let input =
        "Linux version 6.8.0-54-generic (buildd@lcy02-amd64-013) #57-Ubuntu SMP PREEMPT_DYNAMIC";
    assert_eq!(
        parse_proc_version(input),
        Some("6.8.0-54-generic".to_owned())
    );
}

#[test]
fn parse_root_device_finds_root() {
    let mounts =
        "sysfs /sys sysfs rw 0 0\n/dev/sda2 / ext4 rw,relatime 0 0\ntmpfs /tmp tmpfs rw 0 0\n";
    assert_eq!(parse_root_device(mounts), Some("/dev/sda2".to_owned()));
}

#[test]
fn parse_root_device_returns_none_when_absent() {
    let mounts = "sysfs /sys sysfs rw 0 0\n";
    assert_eq!(parse_root_device(mounts), None);
}

#[test]
fn build_failsafe_snippet_omits_initrd_when_none() {
    let kernel = fake_kernel();
    let snippet = build_failsafe_snippet(&kernel, None, "UUID=abc", "2026-01-01T00:00:00+00:00");
    assert!(
        !snippet.contains("initrd"),
        "initrd line must be absent when initrd is None:\n{snippet}"
    );
}

#[test]
fn build_failsafe_snippet_includes_initrd_when_some() {
    let kernel = fake_kernel();
    let snippet = build_failsafe_snippet(
        &kernel,
        Some("/tmp/fixture/initrd.img-5.15.0-test"),
        "UUID=abc",
        "2026-01-01T00:00:00+00:00",
    );
    assert!(
        snippet.contains("initrd"),
        "initrd line must be present when initrd is Some:\n{snippet}"
    );
}

#[test]
fn snippet_at_fixed_time_has_menuentry_and_timestamp_comment() {
    let kernel = fake_kernel();
    let content = failsafe_snippet_at(&kernel, None, "UUID=dead-beef", FIXED_SECS, 0).unwrap();
    assert!(content.contains("menuentry"));
    assert!(content.contains("# Generated:"));
    assert!(content.contains("2026-01-01"));
    assert!(content.contains("# Generated: 2026-01-01T00:00:00+00:00\n"));
}

#[test]
fn snippet_linux_line_ends_with_ro() {
    let kernel = fake_kernel();
    let content = failsafe_snippet_at(&kernel, None, "UUID=dead-beef", FIXED_SECS, 0).unwrap();
    let linux_line = content
        .lines()
        .find(|l| l.trim_start().starts_with("linux "))
        .expect("linux line must be present");
    assert_eq!(
        linux_line,
        "    linux   /tmp/fixture/vmlinuz-5.15.0-test root=UUID=dead-beef ro"
    );
}

#[test]
fn snippet_does_not_contain_cmdline_default() {
    let kernel = fake_kernel();
    let content = failsafe_snippet_at(&kernel, None, "UUID=test-uuid", FIXED_SECS, 0).unwrap();
    assert!(!content.contains("GRUB_CMDLINE_LINUX_DEFAULT"));
    assert!(!content.contains("quiet splash"));
}

#[test]
fn snippet_is_the_same_when_built_twice() {
    let kernel = fake_kernel();
    let a = failsafe_snippet_at(&kernel, None, "UUID=abcd", FIXED_SECS, 0).unwrap();
    let b = failsafe_snippet_at(&kernel, None, "UUID=abcd", FIXED_SECS, 0).unwrap();
    assert_eq!(a, b);
}

#[test]
fn snippet_exact_text() {
    let kernel = fake_kernel();
    let s = build_failsafe_snippet(&kernel, Some("/boot/initrd.img-x"), "/dev/sda2", "T");
    assert_eq!(
        s,
        "# BootControl Failsafe Entry — auto-generated, do not edit manually\n\
         # Generated: T\n\
         menuentry \"Linux (Failsafe — BootControl)\" --class linux {\n\
         \x20   load_video\n\
         \x20   insmod gzio\n\
         \x20   insmod part_gpt\n\
         \x20   insmod ext2\n\
         \x20   linux   /tmp/fixture/vmlinuz-5.15.0-test root=/dev/sda2 ro\n\
         \x20   initrd  /boot/initrd.img-x\n\
         }\n"
    );
}

#[test]
fn kernel_from_release_names_boot_image() {
    let k = kernel_from_release("6.8.0-54-generic");
    assert_eq!(k.version, "6.8.0-54-generic");
    assert_eq!(k.vmlinuz, "/boot/vmlinuz-6.8.0-54-generic");
    let c = initrd_candidates("6.8.0-54-generic");
    assert_eq!(
        c,
        vec![
            "/boot/initrd.img-6.8.0-54-generic".to_owned(),
            "/boot/initramfs-6.8.0-54-generic.img".to_owned()
        ]
    );
}

#[test]
fn choose_kernel_prefers_proc_version_then_newest_image() {
    let images = vec![
        BootImage { file_name: "vmlinuz-6.1".into(), mtime_nanos: 10 },
        BootImage { file_name: "vmlinuz-6.5".into(), mtime_nanos: 30 },
        BootImage { file_name: "vmlinuz-6.3".into(), mtime_nanos: 30 },
    ];
    let k = choose_kernel(Some("Linux version 6.8.0 (x) #1"), &images);
    assert_eq!(k.version, "6.8.0");
    let k = choose_kernel(None, &images);
    assert_eq!(k.version, "6.5");
    assert_eq!(k.vmlinuz, "/boot/vmlinuz-6.5");
    let k = choose_kernel(Some("garbage"), &[]);
    assert_eq!(k.version, "unknown");
    assert_eq!(k.vmlinuz, "/boot/vmlinuz-unknown");
}

#[test]
fn root_argument_prefers_uuid() {
    assert_eq!(root_argument(Some("/dev/sda2"), Some("abcd")), "UUID=abcd");
    assert_eq!(root_argument(Some("/dev/sda2"), None), "/dev/sda2");
    assert_eq!(root_argument(None, Some("abcd")), "/dev/sda1");
}

#[test]
fn parse_root_device_skips_short_lines() {
    let mounts = "\n/dev/sda2 / ext4 rw,relatime 0 0\n";
    assert_eq!(parse_root_device(mounts), Some("/dev/sda2".to_owned()));
    assert_eq!(parse_root_device("junk\nproc /proc proc rw 0 0\n"), None);
}
