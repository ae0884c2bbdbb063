use bootcontrol::error::BootControlError;
use bootcontrol::uefi::{
    boot_entry_index, boot_next_update, boot_next_value, boot_order_update, encode_boot_order, global_var_file, global_var_name,
    list_boot_entries, parse_boot_entry, parse_boot_order, parse_single_u16_var,
    strip_attribute_header, validate_boot_next, validate_boot_order, with_attribute_header,
    EfiBootEntry, EfivarFsReader, EFIVARS_DIR, EFI_GLOBAL_VARIABLE_GUID,
};

/// The bytes of an efivarfs file: 4-byte attribute prefix + payload.
fn efivarfs_file(attrs: u32, payload: &[u8]) -> Vec<u8> {
    let mut bytes = Vec::with_capacity(4 + payload.len());
    bytes.extend_from_slice(&attrs.to_le_bytes());
    bytes.extend_from_slice(payload);
    bytes
}

fn build_boot_entry_payload(attrs: u32, description: &str) -> Vec<u8> {
    let mut payload = Vec::new();
    payload.extend_from_slice(&attrs.to_le_bytes());
    payload.extend_from_slice(&0u16.to_le_bytes());
    for ch in description.encode_utf16() {
        payload.extend_from_slice(&ch.to_le_bytes());
    }
    payload.extend_from_slice(&0u16.to_le_bytes());
    payload
}

/// Store each payload in a fake efivarfs file, read it back as the daemon
/// does, and decode the `Boot####` entries.
fn list_from(files: &[(&str, Vec<u8>)]) -> Result<Vec<EfiBootEntry>, BootControlError> {
    let names: Vec<String> = files.iter().map(|(n, _)| n.to_string()).collect();
    let reads: Vec<Option<Result<Vec<u8>, BootControlError>>> = files
        .iter()
        .map(|(n, raw)| {
            if boot_entry_index(n).is_some() {
                Some(strip_attribute_header(&global_var_file(n), &efivarfs_file(0x07, raw)))
            } else {
                None
            }
        })
        .collect();
    list_boot_entries(&names, &reads)
}

#[test]
fn read_global_strips_attribute_prefix() {
    let raw = efivarfs_file(0x07, &encode_boot_order(&[1, 0]));
    let payload = strip_attribute_header("BootOrder", &raw).unwrap();
    assert_eq!(parse_boot_order(&payload).unwrap(), vec![1u16, 0u16]);
}

#[test]
fn read_global_rejects_truncated_entry() {
    let result = strip_attribute_header("Boot0000", &[0x01, 0x02, 0x03]);
    assert!(matches!(result, Err(BootControlError::EspScanFailed { .. })));
}

#[test]
fn list_global_names_filters_by_vendor_guid() {
    let files = [
        global_var_file("BootOrder"),
        global_var_file("BootNext"),
        "PK-deadbeef-1234-1234-1234-deadbeefdead".to_string(),
    ];
    let mut names: Vec<String> = files.iter().filter_map(|f| global_var_name(f)).collect();
    names.sort();
    assert_eq!(names, vec!["BootNext".to_string(), "BootOrder".to_string()]);
}

#[test]
fn list_boot_entries_returns_sorted_active_entries() {
    let entries = list_from(&[
        ("Boot0001", build_boot_entry_payload(0x01, "ubuntu")),
        ("Boot0002", build_boot_entry_payload(0x00, "fedora")),
        ("Boot0000", build_boot_entry_payload(0x01, "Windows Boot Manager")),
    ])
    .map(|v| v.into_iter().collect::<Vec<_>>())
    .unwrap();
    let descriptions: Vec<_> = entries.iter().map(|e| e.description.as_str()).collect();
    assert_eq!(descriptions, vec!["Windows Boot Manager", "ubuntu", "fedora"]);
    assert_eq!(entries[0].index, 0);
    assert_eq!(entries[1].index, 1);
    assert_eq!(entries[2].index, 2);
    assert!(entries[0].active);
    assert!(entries[1].active);
    assert!(!entries[2].active);
}

#[test]
fn list_boot_entries_skips_non_boot_entries() {
    let entries = list_from(&[
        ("BootOrder", encode_boot_order(&[0])),
        ("Boot0000", build_boot_entry_payload(0x01, "single")),
    ])
    .unwrap();
    assert_eq!(entries.len(), 1);
    assert_eq!(entries[0].description, "single");
}

#[test]
fn list_boot_entries_reports_truncated_entry() {
    let result = list_from(&[("Boot0003", vec![1, 0])]);
    assert!(matches!(result, Err(BootControlError::MalformedValue { .. })));
}

#[test]
fn efivarfs_file_names() {
    assert_eq!(
        global_var_file("BootOrder"),
        format!("BootOrder-{EFI_GLOBAL_VARIABLE_GUID}")
    );
    assert_eq!(global_var_name(&global_var_file("Boot0007")), Some("Boot0007".to_string()));
    assert_eq!(boot_entry_index("Boot000A"), Some(10));
    assert_eq!(boot_entry_index("Boot00ff"), Some(255));
    assert_eq!(boot_entry_index("BootOrder"), None);
    assert_eq!(boot_entry_index("Boot12345"), None);
}

#[test]
fn reader_root_priority() {
    assert_eq!(EfivarFsReader::new().root_dir(None), EFIVARS_DIR);
    assert_eq!(EfivarFsReader::new().root_dir(Some("/tmp/e")), "/tmp/e");
    assert_eq!(EfivarFsReader::new().root_dir(Some("")), EFIVARS_DIR);
    assert_eq!(
        EfivarFsReader::with_root("/pinned".into()).root_dir(Some("/tmp/e")),
        "/pinned"
    );
    assert!(EfivarFsReader::default().root.is_none());
}

#[test]
fn boot_order_round_trips() {
    let order = [3u16, 0x1234, 0, 0xffff];
    let bytes = encode_boot_order(&order);
    assert_eq!(bytes, vec![3, 0, 0x34, 0x12, 0, 0, 0xff, 0xff]);
    assert_eq!(parse_boot_order(&bytes).unwrap(), order.to_vec());
    assert!(matches!(parse_boot_order(&[1, 2, 3]), Err(BootControlError::MalformedValue { .. })));
}

#[test]
fn boot_entry_decoding() {
    let e = parse_boot_entry(5, &build_boot_entry_payload(0x09, "Linux Boot Manager")).unwrap();
    assert_eq!(e.index, 5);
    assert!(e.active);
    assert!(e.hidden);
    assert_eq!(e.description, "Linux Boot Manager");
    assert!(parse_boot_entry(5, &[1, 0, 0]).is_err());
}

#[test]
fn boot_next_reading() {
    assert_eq!(parse_single_u16_var("BootNext", &[2, 1]), Ok(258));
    assert!(parse_single_u16_var("BootNext", &[2]).is_err());
    assert_eq!(boot_next_value(Ok(vec![4, 0])), Ok(4));
    assert_eq!(
        boot_next_value(Err(BootControlError::EspScanFailed { reason: "absent".into() })),
        Ok(-1)
    );
    assert_eq!(
        boot_next_value(Err(BootControlError::PolkitDenied)),
        Err(BootControlError::PolkitDenied)
    );
}

#[test]
fn new_boot_order_must_permute_existing_entries() {
    assert!(validate_boot_order(&[0, 1, 2], &[2, 0, 1]).is_ok());
    assert!(validate_boot_order(&[0, 1, 2], &[2, 0]).is_err());
    assert!(validate_boot_order(&[0, 1, 2], &[2, 2]).is_err());
    assert!(validate_boot_order(&[0, 1, 2], &[7]).is_err());
    assert!(validate_boot_next(&[0, 1], 1).is_ok());
    assert_eq!(
        validate_boot_next(&[0, 1], 9),
        Err(BootControlError::KeyNotFound { key: "BootNext".into() })
    );
}

#[test]
fn attribute_header_is_prepended() {
    let f = with_attribute_header(0x07, &[9, 8]);
    assert_eq!(f, vec![7, 0, 0, 0, 9, 8]);
    assert_eq!(strip_attribute_header("X", &f).unwrap(), vec![9, 8]);
}

#[test]
fn boot_order_update_encodes_a_valid_reordering() {
    let current = [0x01, 0x00, 0x02, 0x00, 0x03, 0x00];
    assert_eq!(boot_order_update(&current, &[3, 1, 2]).unwrap(), vec![0x03, 0x00, 0x01, 0x00, 0x02, 0x00]);
    assert!(matches!(boot_order_update(&current, &[3, 1]), Err(BootControlError::MalformedValue { .. })));
    assert!(matches!(boot_order_update(&current, &[1, 2, 3, 4]), Err(BootControlError::MalformedValue { .. })));
    assert!(matches!(boot_order_update(&current, &[1, 1, 2, 3]), Err(BootControlError::MalformedValue { .. })));
    assert!(matches!(boot_order_update(&[0x01], &[1]), Err(BootControlError::MalformedValue { .. })));
}

#[test]
fn boot_next_update_names_an_entry_of_the_boot_order() {
    let current = [0x01, 0x00, 0x02, 0x01];
    assert_eq!(boot_next_update(&current, 0x0102).unwrap(), vec![0x02, 0x01]);
    assert!(matches!(boot_next_update(&current, 7), Err(BootControlError::KeyNotFound { .. })));
    assert!(matches!(boot_next_update(&[0x01, 0x00, 0x02], 1), Err(BootControlError::MalformedValue { .. })));
}
