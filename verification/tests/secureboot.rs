use bootcontrol::error::BootControlError;
use bootcontrol::initramfs::{CommandRun, ToolProbe};
use bootcontrol::keygen_flow::{KeygenAction, KeygenCall, MergeAction, MergeCall};
use bootcontrol::secureboot::{
    backup_file_name, get_mok_cert_path, get_mok_key_path, is_secureboot_var_name, join_path,
    keygen_outcome, keyset_commands, keyset_in, merge_commands, openssl_binary,
    select_backup_vars, sign_with_default_keys, signing_outcome, NvramBackup, ParanoiaKeySet, SbsignMokSigner,
    VarListing, DEFAULT_MOK_CERT_PATH, DEFAULT_MOK_KEY_PATH,
};

fn fake_binary(path: &str) -> ToolProbe {
    let _ = path;
    ToolProbe { override_exists: true, on_path: None }
}

fn on_path(path: &str) -> ToolProbe {
    ToolProbe { override_exists: false, on_path: Some(path.to_string()) }
}

fn missing_binary() -> ToolProbe {
    ToolProbe { override_exists: false, on_path: None }
}

fn mock_efivars() -> Vec<VarListing> {
    vec![
        VarListing::Entry {
            name: "db-d719b2cb-3d3a-4596-a3bc-dad00e67656f".into(),
            contents: Some(Ok(b"\x00\x00\x00\x07some_db_data".to_vec())),
        },
        VarListing::Entry {
            name: "KEK-8be4df61-93ca-11d2-aa0d-00e098032b8c".into(),
            contents: Some(Ok(b"\x00\x00\x00\x07some_kek_data".to_vec())),
        },
        VarListing::Entry {
            name: "PK-8be4df61-93ca-11d2-aa0d-00e098032b8c".into(),
            contents: Some(Ok(b"\x00\x00\x00\x07some_pk_data".to_vec())),
        },
        VarListing::Entry { name: "Boot0001-xxx".into(), contents: None },
    ]
}

#[test]
fn sign_uki_returns_tool_not_found_when_sbsign_missing() {
    let signer = SbsignMokSigner {
        sbsign_override: Some("/nonexistent/sbsign".into()),
        mokutil_override: None,
    };
    let result = signer.sign_uki_command("image.efi", "mok.key", "mok.crt", true, true, &missing_binary());
    assert!(
        matches!(result, Err(BootControlError::ToolNotFound { ref tool }) if tool == "sbsign"),
        "expected ToolNotFound(sbsign), got: {result:?}"
    );
}

#[test]
fn sign_uki_returns_mok_key_not_found_when_key_missing() {
    let signer = SbsignMokSigner {
        sbsign_override: Some("/tmp/fake/sbsign".into()),
        mokutil_override: None,
    };
    let result = signer.sign_uki_command(
        "image.efi",
        "missing.key",
        "mok.crt",
        false,
        true,
        &fake_binary("/tmp/fake/sbsign"),
    );
    assert!(
        matches!(result, Err(BootControlError::MokKeyNotFound { .. })),
        "expected MokKeyNotFound, got: {result:?}"
    );
}

#[test]
fn sign_uki_succeeds_with_fake_sbsign_exit_0() {
    let signer = SbsignMokSigner {
        sbsign_override: Some("/tmp/fake/sbsign".into()),
        mokutil_override: None,
    };
    let cmd = signer
        .sign_uki_command("image.efi", "mok.key", "mok.crt", true, true, &fake_binary("/tmp/fake/sbsign"))
        .expect("command");
    assert_eq!(cmd.binary, "/tmp/fake/sbsign");
    assert_eq!(
        cmd.args,
        vec!["--key", "mok.key", "--cert", "mok.crt", "--output", "image.efi", "image.efi"]
    );
    let result = signing_outcome("sbsign", CommandRun::Exited { success: true, stderr: String::new() });
    assert!(result.is_ok(), "expected Ok(()), got: {result:?}");
}

#[test]
fn sign_uki_returns_signing_failed_when_sbsign_exits_1() {
    let result = signing_outcome("sbsign", CommandRun::Exited { success: false, stderr: "bad".into() });
    assert!(
        matches!(result, Err(BootControlError::SigningFailed { .. })),
        "expected SigningFailed, got: {result:?}"
    );
    assert_eq!(
        result,
        Err(BootControlError::SigningFailed { reason: "sbsign exited non-zero: bad".into() })
    );
}

#[test]
fn enrollment_request_returns_tool_not_found_when_mokutil_missing() {
    let signer = SbsignMokSigner {
        sbsign_override: None,
        mokutil_override: Some("/nonexistent/mokutil".into()),
    };
    let result = signer.enrollment_request_command("mok.crt", &missing_binary());
    assert!(
        matches!(result, Err(BootControlError::ToolNotFound { ref tool }) if tool == "mokutil"),
        "expected ToolNotFound(mokutil), got: {result:?}"
    );
}

#[test]
fn enrollment_request_succeeds_with_fake_mokutil_exit_0() {
    let signer = SbsignMokSigner {
        sbsign_override: None,
        mokutil_override: Some("/tmp/fake/mokutil".into()),
    };
    let cmd = signer
        .enrollment_request_command("mok.crt", &fake_binary("/tmp/fake/mokutil"))
        .expect("command");
    assert_eq!(cmd.args, vec!["--import", "mok.crt"]);
    let result = signing_outcome("mokutil", CommandRun::Exited { success: true, stderr: String::new() });
    assert!(result.is_ok(), "expected Ok(()), got: {result:?}");
}

#[test]
fn sign_with_default_keys_returns_mok_key_not_found_when_missing() {
    let key = get_mok_key_path(None);
    let cert = get_mok_cert_path(None);
    let signer = SbsignMokSigner { sbsign_override: None, mokutil_override: None };
    let ok_run = CommandRun::Exited { success: true, stderr: String::new() };
    let result = sign_with_default_keys(&signer, "/boot/efi/EFI/Linux/a.efi", &key, &cert, false, false, &on_path("/usr/bin/sbsign"), ok_run);
    assert!(
        matches!(result, Err(BootControlError::MokKeyNotFound { .. })),
        "expected MokKeyNotFound, got: {result:?}"
    );
}

#[test]
fn path_lock_is_accessible() {
    let lock = std::sync::Mutex::new(());
    let _guard = lock.lock().expect("PATH lock poisoned");
}

#[test]
fn mok_paths_honour_overrides() {
    assert_eq!(get_mok_key_path(None), DEFAULT_MOK_KEY_PATH);
    assert_eq!(get_mok_cert_path(None), DEFAULT_MOK_CERT_PATH);
    assert_eq!(get_mok_key_path(Some("/k")), "/k");
}

#[test]
fn sign_with_default_keys_signs_and_reports_the_tool() {
    let signer = SbsignMokSigner { sbsign_override: None, mokutil_override: None };
    let ok = || CommandRun::Exited { success: true, stderr: String::new() };
    let uki = "/boot/efi/EFI/Linux/a.efi";
    assert_eq!(
        sign_with_default_keys(&signer, uki, "/k", "/c", true, false, &on_path("/usr/bin/sbsign"), ok()),
        Err(BootControlError::MokKeyNotFound { path: "/c".into() })
    );
    assert!(matches!(
        sign_with_default_keys(&signer, uki, "/k", "/c", true, true, &missing_binary(), ok()),
        Err(BootControlError::ToolNotFound { ref tool }) if tool == "sbsign"
    ));
    assert_eq!(
        sign_with_default_keys(&signer, uki, "/k", "/c", true, true, &on_path("/usr/bin/sbsign"), ok()),
        Ok(())
    );
    assert!(matches!(
        sign_with_default_keys(
            &signer,
            uki,
            "/k",
            "/c",
            true,
            true,
            &on_path("/usr/bin/sbsign"),
            CommandRun::Exited { success: false, stderr: "bad key".into() }
        ),
        Err(BootControlError::SigningFailed { ref reason }) if reason.contains("bad key")
    ));
}

#[test]
fn backup_copies_only_secureboot_variables() {
    let vars = select_backup_vars("/efivars", Some(Ok(mock_efivars()))).expect("backup should succeed");
    assert_eq!(vars.len(), 3, "expected exactly 3 backed-up files");
    for (name, _) in &vars {
        assert!(name.starts_with("db-") || name.starts_with("KEK-") || name.starts_with("PK-"));
    }
    assert!(!vars.iter().any(|(n, _)| n.starts_with("Boot0001")));
    assert_eq!(vars[1].1, b"\x00\x00\x00\x07some_kek_data".to_vec());
}

#[test]
fn backup_fails_when_efivars_dir_missing() {
    let result = select_backup_vars("/this/path/does/not/exist/efivars", None);
    assert!(
        matches!(result, Err(BootControlError::NvramBackupFailed { .. })),
        "expected NvramBackupFailed, got: {result:?}"
    );
}

#[test]
fn backup_fails_when_no_secureboot_variables_found() {
    let listing = vec![
        VarListing::Entry { name: "Boot0001-xxx".into(), contents: None },
        VarListing::Entry { name: "BootOrder".into(), contents: None },
    ];
    let result = select_backup_vars("/efivars", Some(Ok(listing)));
    assert!(
        matches!(result, Err(BootControlError::NvramBackupFailed { ref reason }) if reason.contains("no Secure Boot variables found")),
        "got: {result:?}"
    );
}

#[test]
fn backup_reports_unreadable_variable() {
    let listing = vec![VarListing::Entry { name: "PK-x".into(), contents: Some(Err("EIO".into())) }];
    assert_eq!(
        select_backup_vars("/efivars", Some(Ok(listing))).map(|v| v.len()),
        Err(BootControlError::NvramBackupFailed { reason: "failed to read variable 'PK-x': EIO".into() })
    );
}

#[test]
fn verify_returns_ok_when_files_exist_and_nonempty() {
    let backup = NvramBackup { files: vec!["/b/test.efivar".into()], timestamp_unix: 0 };
    assert!(backup.verify(&[Ok(4)]).is_ok());
}

#[test]
fn verify_returns_error_when_file_deleted() {
    let backup = NvramBackup { files: vec!["/b/vanished.efivar".into()], timestamp_unix: 0 };
    assert!(matches!(
        backup.verify(&[Err("No such file or directory".into())]),
        Err(BootControlError::NvramBackupFailed { .. })
    ));
}

#[test]
fn verify_rejects_empty_backup_file() {
    let backup = NvramBackup { files: vec!["/b/a".into(), "/b/e".into()], timestamp_unix: 0 };
    assert_eq!(
        backup.verify(&[Ok(3), Ok(0)]),
        Err(BootControlError::NvramBackupFailed { reason: "backup file '/b/e' is empty".into() })
    );
}

#[test]
fn secureboot_variable_names_and_backup_files() {
    assert!(is_secureboot_var_name("db-1234"));
    assert!(is_secureboot_var_name("KEK-1234"));
    assert!(is_secureboot_var_name("PK-1234"));
    assert!(!is_secureboot_var_name("dbx-1234"));
    assert!(!is_secureboot_var_name("Boot0001-1234"));
    assert_eq!(backup_file_name("PK-1234"), "PK-1234.efivar");
}

fn ok_run() -> CommandRun {
    CommandRun::Exited { success: true, stderr: String::new() }
}

fn keygen_args(dir: &str, name: &str) -> Vec<String> {
    vec![
        "req".to_string(),
        "-newkey".into(),
        "rsa:4096".into(),
        "-nodes".into(),
        "-keyout".into(),
        format!("{dir}/{name}.key"),
        "-x509".into(),
        "-days".into(),
        "3650".into(),
        "-subj".into(),
        format!("/CN=BootControl {name}/"),
        "-out".into(),
        format!("{dir}/{name}.crt"),
    ]
}

#[test]
fn generate_keyset_creates_expected_files() {
    let (mut call, mut next) = KeygenCall::new("/bin/openssl".to_string(), "/keys".to_string());
    let mut issued = Vec::new();
    let keyset = loop {
        next = match next {
            KeygenAction::Run(cmd) => {
                assert_eq!(cmd.binary, "/bin/openssl");
                issued.push(cmd.args);
                call.advance(ok_run())
            }
            KeygenAction::Reply(r) => break r.unwrap(),
        };
    };
    assert_eq!(issued, vec![keygen_args("/keys", "PK"), keygen_args("/keys", "KEK"), keygen_args("/keys", "db")]);
    assert_eq!(keyset.pk_cert, "/keys/PK.crt");
    assert_eq!(keyset.pk_key, "/keys/PK.key");
    assert_eq!(keyset.kek_cert, "/keys/KEK.crt");
    assert_eq!(keyset.kek_key, "/keys/KEK.key");
    assert_eq!(keyset.db_cert, "/keys/db.crt");
    assert_eq!(keyset.db_key, "/keys/db.key");
    assert_eq!(keyset, keyset_in("/keys"));
    let cs = keyset_commands("/bin/openssl", "/keys");
    assert_eq!(cs.iter().map(|c| c.args.clone()).collect::<Vec<_>>(), issued);
}

#[test]
fn generate_keyset_propagates_openssl_error() {
    let (mut call, first) = KeygenCall::new("openssl".to_string(), "/keys".to_string());
    assert!(matches!(first, KeygenAction::Run(_)));
    let result = call.advance(CommandRun::Exited { success: false, stderr: "some error".into() });
    assert!(matches!(
        result,
        KeygenAction::Reply(Err(BootControlError::KeyGenerationFailed { ref reason })) if reason.contains("some error")
    ));
    assert_eq!(
        keygen_outcome("openssl", CommandRun::Exited { success: false, stderr: "boom".into() }),
        Err(BootControlError::KeyGenerationFailed { reason: "boom".into() })
    );
    assert!(matches!(
        openssl_binary(None, false, None),
        Err(BootControlError::ToolNotFound { .. })
    ));
}

#[test]
fn keyset_generation_stops_at_the_first_failed_run() {
    let (mut call, _) = KeygenCall::new("openssl".to_string(), "/keys".to_string());
    match call.advance(ok_run()) {
        KeygenAction::Run(cmd) => assert_eq!(cmd.args, keygen_args("/keys", "KEK")),
        other => panic!("expected the KEK run, got {other:?}"),
    }
    match call.advance(CommandRun::SpawnFailed("No such file".into())) {
        KeygenAction::Reply(Err(BootControlError::KeyGenerationFailed { reason })) => {
            assert_eq!(reason, "Failed to execute openssl: No such file")
        }
        other => panic!("expected the refusal, got {other:?}"),
    }
    // Nothing more is handed out once the call has answered.
    assert!(matches!(call.advance(ok_run()), KeygenAction::Reply(Err(_))));
}

fn lowercase_keyset() -> ParanoiaKeySet {
    ParanoiaKeySet {
        pk_cert: "pk.crt".into(),
        pk_key: "pk.key".into(),
        kek_cert: "kek.crt".into(),
        kek_key: "kek.key".into(),
        db_cert: "db.crt".into(),
        db_key: "db.key".into(),
    }
}

#[test]
fn merge_returns_path_to_auth_file() {
    let keyset = lowercase_keyset();
    let (mut call, first) = MergeCall::new(&keyset, "/tmp/out", "/bin/cert-to-efi-sig-list", "/bin/sign-efi-sig-list");
    match first {
        MergeAction::Run(cmd) => {
            assert_eq!(cmd.binary, "/bin/cert-to-efi-sig-list");
            assert_eq!(cmd.args, vec!["db.crt", "/tmp/out/db.esl"]);
        }
        other => panic!("expected the conversion, got {other:?}"),
    }
    match call.advance(ok_run()) {
        MergeAction::Run(cmd) => {
            assert_eq!(cmd.binary, "/bin/sign-efi-sig-list");
            assert_eq!(
                cmd.args,
                vec!["-k", "kek.key", "-c", "kek.crt", "db", "/tmp/out/db.esl", "/tmp/out/db-merged.auth"]
            );
        }
        other => panic!("expected the signing, got {other:?}"),
    }
    let result = call.advance(ok_run());
    assert!(matches!(result, MergeAction::Reply(Ok(ref p)) if p == "/tmp/out/db-merged.auth"));
    let (_, auth) = merge_commands(&keyset, "/tmp/out", "cert-to-efi-sig-list", "sign-efi-sig-list");
    assert_eq!(auth, "/tmp/out/db-merged.auth");
}

#[test]
fn join_path_adds_one_separator() {
    assert_eq!(join_path("/a", "b"), "/a/b");
    assert_eq!(join_path("/a/", "b"), "/a/b");
    assert_eq!(join_path("", "b"), "b");
}

#[test]
fn merge_propagates_tool_error() {
    let keyset = lowercase_keyset();
    let (mut call, _) = MergeCall::new(&keyset, "/out", "cert-to-efi-sig-list", "sign-efi-sig-list");
    let result = call.advance(CommandRun::Exited { success: false, stderr: "fail cert".into() });
    assert!(matches!(
        result,
        MergeAction::Reply(Err(BootControlError::KeyGenerationFailed { ref reason })) if reason.contains("fail cert")
    ));
    // The signing command is never handed out after a failed conversion.
    assert!(matches!(call.advance(ok_run()), MergeAction::Reply(Err(_))));
}

#[test]
fn merge_refuses_a_failed_signing() {
    let keyset = lowercase_keyset();
    let (mut call, _) = MergeCall::new(&keyset, "/out", "cert-to-efi-sig-list", "sign-efi-sig-list");
    assert!(matches!(call.advance(ok_run()), MergeAction::Run(_)));
    let result = call.advance(CommandRun::SpawnFailed("denied".into()));
    assert!(matches!(
        result,
        MergeAction::Reply(Err(BootControlError::KeyGenerationFailed { ref reason }))
            if reason == "Failed to execute sign-efi-sig-list: denied"
    ));
}
