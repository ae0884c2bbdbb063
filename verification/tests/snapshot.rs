use bootcontrol::snapshot::{
    begin_snapshot, capture_entry, check_restore_id, flatten_path, is_lexically_managed,
    is_plain_component, listed_info, mode_octal, new_manifest, newest_first, plan_restore,
    reap_cutoff, select_for_reaping, snapshot_id, AncestorCheck, ManifestFile, RestoreCopy,
    SnapshotError, SnapshotInfo, SnapshotManifest, SnapshotRequest, SCHEMA_VERSION,
};

fn manifest_for(paths: &[&str]) -> SnapshotManifest {
    SnapshotManifest {
        schema_version: SCHEMA_VERSION,
        ts: "2026-08-26T00:00:00Z".to_string(),
        op: "evil".to_string(),
        polkit_action: "org.bootcontrol.restore-snapshot".to_string(),
        caller_uid: 1000,
        etag_before: "00".to_string(),
        files: paths
            .iter()
            .map(|p| ManifestFile { path: p.to_string(), sha256: "00".into(), mode: "0644".into() })
            .collect(),
        efivars: Vec::new(),
        audit_job_id: "job".to_string(),
    }
}

fn clear(n: usize) -> Vec<AncestorCheck> {
    vec![AncestorCheck::Clear; n]
}

fn info(id: &str, ts: &str) -> SnapshotInfo {
    SnapshotInfo {
        id: id.into(),
        op: "op".into(),
        ts: ts.into(),
        audit_job_id: "job".into(),
        manifest_path: format!("/snap/{id}/index.json"),
    }
}

#[test]
fn restore_rejects_absolute_id_escaping_the_root() {
    let err = check_restore_id("/tmp/evil/snap").unwrap_err();
    assert!(matches!(err, SnapshotError::InvalidId(_)), "got {err:?}");
}

#[test]
fn restore_rejects_parent_traversal_in_id() {
    for id in ["..", "../..", "../sibling", "a/../../b"] {
        let err = check_restore_id(id).unwrap_err();
        assert!(matches!(err, SnapshotError::InvalidId(_)), "id {id:?} must be rejected");
    }
}

#[test]
fn restore_rejects_id_that_is_not_a_single_component() {
    for id in ["", "nested/snap", "snap/", "snap\\evil", "."] {
        let err = check_restore_id(id).unwrap_err();
        assert!(matches!(err, SnapshotError::InvalidId(_)), "id {id:?} must be rejected");
    }
}

#[test]
fn plain_snapshot_ids_are_accepted() {
    assert!(check_restore_id("2026-04-30T130211Z-test_op-0123456789abcdef").is_ok());
    assert!(is_plain_component("..."));
    assert!(!is_plain_component("a/b"));
}

#[test]
fn restore_rejects_target_outside_the_managed_set() {
    let m = manifest_for(&["/tmp/t/sudoers.d-lookalike"]);
    let err = plan_restore(&m, &["/tmp/t/managed-grub".to_string()], &clear(1)).unwrap_err();
    assert!(matches!(err, SnapshotError::UnmanagedTarget(_)), "got {err:?}");
}

#[test]
fn restore_validates_every_target_before_writing_any_file() {
    let m = manifest_for(&["/tmp/t/managed-grub", "/tmp/t/outside"]);
    let err = plan_restore(&m, &["/tmp/t/managed-grub".to_string()], &clear(2)).unwrap_err();
    assert_eq!(err, SnapshotError::UnmanagedTarget("/tmp/t/outside".into()));
}

#[test]
fn restore_rejects_manifest_target_climbing_out_of_a_managed_dir() {
    let m = manifest_for(&["/tmp/t/managed/../escaped"]);
    let err = plan_restore(&m, &["/tmp/t/managed".to_string()], &clear(1)).unwrap_err();
    assert!(matches!(err, SnapshotError::UnmanagedTarget(_)), "got {err:?}");
}

#[test]
fn restore_allows_a_file_inside_a_managed_directory() {
    let m = manifest_for(&["/tmp/t/loader-entries/arch.conf"]);
    let plan = plan_restore(&m, &["/tmp/t/loader-entries".to_string()], &clear(1)).unwrap();
    assert_eq!(
        plan,
        vec![RestoreCopy {
            captured_name: "tmp__t__loader-entries__arch.conf".into(),
            target: "/tmp/t/loader-entries/arch.conf".into()
        }]
    );
}

#[test]
fn restore_rejects_sibling_path_sharing_a_managed_prefix() {
    let m = manifest_for(&["/tmp/t/grub-evil"]);
    let err = plan_restore(&m, &["/tmp/t/grub".to_string()], &clear(1)).unwrap_err();
    assert!(matches!(err, SnapshotError::UnmanagedTarget(_)), "got {err:?}");
}

#[test]
fn restore_rejects_symlink_inside_a_managed_directory() {
    let m = manifest_for(&["/tmp/t/managed/entry.conf"]);
    let err = plan_restore(&m, &["/tmp/t/managed".to_string()], &[AncestorCheck::Symlink]).unwrap_err();
    assert!(matches!(err, SnapshotError::UnmanagedTarget(_)), "got {err:?}");
}

#[test]
fn restore_reports_failed_ancestor_check_as_io() {
    let m = manifest_for(&["/tmp/t/managed/entry.conf"]);
    let err = plan_restore(
        &m,
        &["/tmp/t/managed".to_string()],
        &[AncestorCheck::Failed("permission denied".into())],
    )
    .unwrap_err();
    assert_eq!(err, SnapshotError::Io("permission denied".into()));
}

#[test]
fn restore_refuses_newer_schema() {
    let mut m = manifest_for(&["/tmp/t/grub"]);
    m.schema_version = 42;
    assert_eq!(
        plan_restore(&m, &["/tmp/t/grub".to_string()], &clear(1)),
        Err(SnapshotError::SchemaUpgradeRequired(42))
    );
}

#[test]
fn lexical_containment_compares_whole_components() {
    let allowed = vec!["/etc/default/grub".to_string(), "/boot/loader/entries".to_string()];
    assert!(is_lexically_managed("/etc/default/grub", &allowed));
    assert!(is_lexically_managed("/boot/loader/entries/a.conf", &allowed));
    assert!(!is_lexically_managed("/etc/default/grub-evil", &allowed));
    assert!(!is_lexically_managed("etc/default/grub", &allowed));
    assert!(!is_lexically_managed("/boot/loader/entries/../x", &allowed));
}

#[test]
fn flatten_path_doubles_separators() {
    assert_eq!(flatten_path("/etc/default/grub"), "etc__default__grub");
    assert_eq!(flatten_path("//x/y"), "x__y");
    assert_eq!(flatten_path("rel"), "rel");
}

#[test]
fn snapshot_id_drops_colons_and_hashes_job() {
    let id = snapshot_id("2026-04-30T13:02:11Z", "test_op", "job");
    assert_eq!(id, "2026-04-30T130211Z-test_op-5e8c9902207afaeb");
}

#[test]
fn begin_snapshot_stamps_seconds_in_utc() {
    let req = SnapshotRequest {
        root: "/var/lib/bootcontrol/snapshots",
        op: "test_op",
        polkit_action: "org.bootcontrol.rewrite-grub",
        caller_uid: 1000,
        etag_before: "00",
        audit_job_id: "job",
        files: &[],
    };
    let (ts, id) = begin_snapshot(&req, 1767225600).unwrap();
    assert_eq!(ts, "2026-01-01T00:00:00Z");
    assert_eq!(id, "2026-01-01T000000Z-test_op-5e8c9902207afaeb");
    let m = new_manifest(&req, &ts, Vec::new());
    assert_eq!(m.schema_version, SCHEMA_VERSION);
    assert_eq!(m.op, "test_op");
    assert!(m.efivars.is_empty());
}

#[test]
fn capture_entry_records_hash_and_mode() {
    let f = capture_entry("/etc/default/grub", b"abc", 0o100644);
    assert_eq!(f.path, "/etc/default/grub");
    assert_eq!(f.sha256, "ba7816bf8f01cfea414140de5dae2223b00361a396177a9cb410ff61f20015ad");
    assert_eq!(f.mode, "0644");
    assert_eq!(mode_octal(0o4755), "4755");
    assert_eq!(mode_octal(0o600), "0600");
}

#[test]
fn listed_info_mirrors_manifest() {
    let m = manifest_for(&[]);
    let i = listed_info("snap", m.clone(), "/r/snap/index.json").unwrap();
    assert_eq!(i.id, "snap");
    assert_eq!(i.op, "evil");
    assert_eq!(i.ts, m.ts);
    assert_eq!(i.manifest_path, "/r/snap/index.json");
    let mut newer = m;
    newer.schema_version = 2;
    assert_eq!(
        listed_info("snap", newer, "/x"),
        Err(SnapshotError::SchemaUpgradeRequired(2))
    );
}

#[test]
fn create_then_list_returns_newest_first() {
    let listed = newest_first(vec![
        info("a", "2026-01-01T00:00:00Z"),
        info("c", "2026-03-01T00:00:00Z"),
        info("b", "2026-02-01T00:00:00Z"),
        info("d", "2026-03-01T00:00:00Z"),
    ]);
    let ids: Vec<&str> = listed.iter().map(|s| s.id.as_str()).collect();
    assert_eq!(ids, vec!["c", "d", "b", "a"]);
}

#[test]
fn reap_keeps_at_least_keep_count_when_all_recent() {
    let snaps = newest_first(vec![
        info("op0", "2026-01-01T00:00:00Z"),
        info("op1", "2026-01-01T00:00:01Z"),
        info("op2", "2026-01-01T00:00:02Z"),
    ]);
    let cutoff = reap_cutoff(1767225600, 30).unwrap();
    assert_eq!(cutoff, "2025-12-02T00:00:00Z");
    assert!(select_for_reaping(&snaps, 10, &cutoff).is_empty());
}

#[test]
fn reap_deletes_only_old_snapshots_beyond_keep_count() {
    let snaps = vec![
        info("new", "2026-01-03T00:00:00Z"),
        info("old1", "2025-01-02T00:00:00Z"),
        info("old2", "2025-01-01T00:00:00Z"),
    ];
    assert_eq!(select_for_reaping(&snaps, 1, "2026-01-01T00:00:00Z"), vec!["old1", "old2"]);
    assert_eq!(select_for_reaping(&snaps, 2, "2026-01-01T00:00:00Z"), vec!["old2"]);
    assert!(select_for_reaping(&snaps, 0, "2024-01-01T00:00:00Z").is_empty());
}

#[test]
fn snapshot_error_messages() {
    assert_eq!(
        SnapshotError::NotFound("x".into()).message(),
        "snapshot not found: x"
    );
    assert_eq!(
        SnapshotError::SchemaUpgradeRequired(42).message(),
        "snapshot schema_version 42 not supported by this daemon"
    );
    assert_eq!(
        SnapshotError::InvalidId("a/b".into()).message(),
        "invalid snapshot id \"a/b\": must be a single directory name, without path separators, '.' or '..'"
    );
}

#[test]
fn invalid_id_message_escapes_like_debug_formatting() {
    for id in ["quote\"d", "back\\slash", "line\nbreak", "tab\tcr\r", "nul\0", "bell\u{7}", "esc\u{1b}", "del\u{7f}"] {
        let expected = format!(
            "invalid snapshot id {id:?}: must be a single directory name, without path separators, '.' or '..'"
        );
        assert_eq!(SnapshotError::InvalidId(id.into()).message(), expected);
    }
}

#[test]
fn begin_snapshot_covers_the_epoch_through_year_9999() {
    let req = SnapshotRequest {
        root: "/var/lib/bootcontrol/snapshots",
        op: "op",
        polkit_action: "org.bootcontrol.rewrite-grub",
        caller_uid: 0,
        etag_before: "00",
        audit_job_id: "job",
        files: &[],
    };
    let (first, _) = begin_snapshot(&req, 0).unwrap();
    assert_eq!(first, "1970-01-01T00:00:00Z");
    let (last, _) = begin_snapshot(&req, 253_402_300_799).unwrap();
    assert_eq!(last, "9999-12-31T23:59:59Z");
    assert!(begin_snapshot(&req, i64::MAX).is_none());
}

#[test]
fn distinct_jobs_in_the_same_second_get_distinct_ids() {
    let a = snapshot_id("2026-04-30T13:02:11Z", "set_grub_value", "job-a");
    let b = snapshot_id("2026-04-30T13:02:11Z", "set_grub_value", "job-b");
    assert_ne!(a, b);
    assert!(a.starts_with("2026-04-30T130211Z-set_grub_value-"));
    assert_eq!(a.len(), b.len());
}
