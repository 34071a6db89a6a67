use fulmen_catalogs::fulhash::Algorithm;
use fulmen_catalogs::codec::DecodeError;
use fulmen_catalogs::fulhash::Digest;
use fulmen_catalogs::fulpack::ratio_millis;
use fulmen_catalogs::fulpack::ArchiveEntry;
use fulmen_catalogs::fulpack::ArchiveInfo;
use fulmen_catalogs::fulpack::ArchiveManifest;
use fulmen_catalogs::fulpack::CreateOptions;
use fulmen_catalogs::fulpack::ExtractOptions;
use fulmen_catalogs::fulpack::ExtractResult;
use fulmen_catalogs::fulpack::ScanOptions;
use fulmen_catalogs::fulpack::ValidationResult;

fn entry(path: &str, size: i64) -> ArchiveEntry {
    ArchiveEntry {
        path: path.to_string(),
        entry_type: "file".to_string(),
        size,
        compressed_size: None,
        modified: None,
        checksum: None,
        mode: None,
        symlink_target: None,
    }
}

#[test]
fn digest_formatted_is_algorithm_colon_hex() {
    let digest = Digest::new(Algorithm::Sha256, "abc123".to_string()).expect("valid hex");
    assert_eq!(digest.algorithm, "sha256");
    assert_eq!(digest.hex, "abc123");
    assert_eq!(digest.formatted, "sha256:abc123");
    assert_eq!(digest.bytes, None);
}

#[test]
fn digest_rejects_empty_or_invalid_hex() {
    assert_eq!(Digest::new(Algorithm::Sha256, String::new()), None);
    assert_eq!(Digest::new(Algorithm::Sha256, "ABC".to_string()), None);
    assert_eq!(Digest::new(Algorithm::Crc32, "12g4".to_string()), None);
}

#[test]
fn digest_from_bytes_renders_lowercase_hex() {
    let digest = Digest::from_bytes(Algorithm::Crc32, vec![0xde, 0xad, 0x01]).expect("non-empty");
    assert_eq!(digest.hex, "dead01");
    assert_eq!(digest.formatted, "crc32:dead01");
    assert_eq!(digest.hex.len(), 2 * digest.bytes.as_ref().unwrap().len());
    assert_eq!(Digest::from_bytes(Algorithm::Crc32, Vec::new()), None);
}

#[test]
fn digest_encodes_with_optional_bytes() {
    let without = Digest::new(Algorithm::Sha256, "ff".to_string()).expect("valid hex");
    assert_eq!(
        without.to_json().expect("safe fields"),
        "{\"algorithm\":\"sha256\",\"hex\":\"ff\",\"formatted\":\"sha256:ff\"}"
    );
    let with = Digest::from_bytes(Algorithm::Sha256, vec![255, 0]).expect("non-empty");
    assert_eq!(
        with.to_json().expect("safe fields"),
        "{\"algorithm\":\"sha256\",\"hex\":\"ff00\",\"formatted\":\"sha256:ff00\",\"bytes\":[255,0]}"
    );
}

#[test]
fn digest_from_fields_validates_and_round_trips() {
    let digest = Digest::new(Algorithm::Sha256, "abc123".to_string()).expect("valid hex");
    let rebuilt = Digest::from_fields(
        digest.algorithm.clone(),
        digest.hex.clone(),
        digest.formatted.clone(),
    )
    .expect("a constructed digest's own fields validate");
    assert_eq!(rebuilt, digest);
}

#[test]
fn digest_from_fields_rejects_bad_fields() {
    match Digest::from_fields(
        "md5".to_string(),
        "ab".to_string(),
        "md5:ab".to_string(),
    ) {
        Err(DecodeError::UnrecognizedVariant(tag)) => assert_eq!(tag, "md5"),
        other => panic!("expected UnrecognizedVariant, got {other:?}"),
    }
    match Digest::from_fields(
        "sha256".to_string(),
        String::new(),
        "sha256:".to_string(),
    ) {
        Err(DecodeError::ShapeMismatch(raw)) => assert_eq!(raw, ""),
        other => panic!("expected ShapeMismatch, got {other:?}"),
    }
    match Digest::from_fields(
        "sha256".to_string(),
        "ab".to_string(),
        "sha256:cd".to_string(),
    ) {
        Err(DecodeError::ShapeMismatch(raw)) => assert_eq!(raw, "sha256:cd"),
        other => panic!("expected ShapeMismatch, got {other:?}"),
    }
}

#[test]
fn extract_options_default_encodes_to_empty_object() {
    // No field set: the encoded form is an empty object, not an object of
    // keys set to null.
    let options = ExtractOptions::default();
    assert_eq!(options.to_json().expect("no string fields"), "{}");
    assert_eq!(CreateOptions::default().to_json().expect("no string fields"), "{}");
    assert_eq!(ScanOptions::default().to_json().expect("no string fields"), "{}");
}

#[test]
fn options_encode_only_present_fields() {
    let mut options = ExtractOptions::default();
    options.overwrite = Some("skip".to_string());
    options.max_entries = Some(100);
    assert_eq!(
        options.to_json().expect("safe fields"),
        "{\"overwrite\":\"skip\",\"max_entries\":100}"
    );

    let mut create = CreateOptions::default();
    create.compression_level = Some(9);
    create.include_patterns = Some(vec!["**/*.py".to_string(), "**/*.md".to_string()]);
    create.follow_symlinks = Some(false);
    assert_eq!(
        create.to_json().expect("safe fields"),
        "{\"compression_level\":9,\"include_patterns\":[\"**/*.py\",\"**/*.md\"],\"follow_symlinks\":false}"
    );
}

#[test]
fn options_encode_extreme_numbers() {
    let mut options = ExtractOptions::default();
    options.max_size = Some(i64::MIN);
    options.max_entries = Some(i64::MAX);
    assert_eq!(
        options.to_json().expect("safe fields"),
        "{\"max_size\":-9223372036854775808,\"max_entries\":9223372036854775807}"
    );
}

#[test]
fn strings_that_would_need_escaping_are_refused() {
    let mut options = ExtractOptions::default();
    options.overwrite = Some("a\"b".to_string());
    assert_eq!(options.to_json(), None);

    let mut create = CreateOptions::default();
    create.include_patterns = Some(vec!["ok".to_string(), "bad\\pattern".to_string()]);
    assert_eq!(create.to_json(), None);
}

#[test]
fn archive_entry_encodes_in_declaration_order() {
    let mut item = entry("docs/readme.md", 2048);
    item.checksum = Some("ab12".to_string());
    item.mode = Some("0644".to_string());
    assert_eq!(
        item.to_json().expect("safe fields"),
        "{\"path\":\"docs/readme.md\",\"type\":\"file\",\"size\":2048,\"checksum\":\"ab12\",\"mode\":\"0644\"}"
    );
}

#[test]
fn validation_result_valid_iff_no_errors() {
    let clean = ValidationResult::new(Vec::new(), vec!["no checksums".to_string()], 3);
    assert!(clean.valid);
    let broken = ValidationResult::new(vec!["bad entry".to_string()], Vec::new(), 3);
    assert!(!broken.valid);
    assert_eq!(
        broken.to_json().expect("safe fields"),
        "{\"valid\":false,\"errors\":[\"bad entry\"],\"warnings\":[],\"entry_count\":3}"
    );
}

#[test]
fn extract_result_encodes_counts_and_optionals() {
    let result = ExtractResult {
        extracted_count: 10,
        skipped_count: 2,
        error_count: 0,
        errors: None,
        warnings: Some(vec!["skipped existing file".to_string()]),
        checksums_verified: Some(10),
        total_bytes: Some(123456),
    };
    assert_eq!(
        result.to_json().expect("safe fields"),
        "{\"extracted_count\":10,\"skipped_count\":2,\"error_count\":0,\"warnings\":[\"skipped existing file\"],\"checksums_verified\":10,\"total_bytes\":123456}"
    );
}

#[test]
fn manifest_from_entries_counts_entries() {
    let entries = vec![entry("a", 1), entry("b", 2), entry("c", 3)];
    let manifest = ArchiveManifest::from_entries(
        "tar.gz".to_string(),
        "1.0.0".to_string(),
        "2025-01-01T00:00:00Z".to_string(),
        entries,
    );
    assert_eq!(manifest.entry_count, 3);
    assert_eq!(manifest.entries.len(), 3);
    assert_eq!(manifest.index, None);
}

#[test]
fn manifest_count_mismatch_is_accepted_as_shaped_data() {
    // The count/length invariant is documented, not enforced: a manifest
    // violating it is a producer bug, and this layer still carries it.
    let manifest = ArchiveManifest {
        format: "zip".to_string(),
        version: "1.0.0".to_string(),
        generated: "2025-01-01T00:00:00Z".to_string(),
        entry_count: 7,
        entries: vec![entry("only", 1)],
        total_size: None,
        compressed_size: None,
        index: None,
    };
    assert_eq!(manifest.entry_count, 7);
    assert_eq!(manifest.entries.len(), 1);
}

#[test]
fn manifest_index_carries_loose_values() {
    let manifest = ArchiveManifest {
        format: "tar".to_string(),
        version: "1.0.0".to_string(),
        generated: "2025-01-01T00:00:00Z".to_string(),
        entry_count: 0,
        entries: Vec::new(),
        total_size: Some(0),
        compressed_size: Some(0),
        index: Some(vec![("marker".to_string(), serde_json::Value::Null)]),
    };
    let index = manifest.index.as_ref().unwrap();
    assert_eq!(index.len(), 1);
    assert_eq!(index[0].0, "marker");
    assert!(index[0].1.is_null());
}

#[test]
fn compression_ratio_is_sizes_quotient_in_thousandths() {
    assert_eq!(ratio_millis(250, 100), 2500);
    assert_eq!(ratio_millis(1000, 3), 333333);
    assert_eq!(ratio_millis(0, 5), 0);
    assert_eq!(ratio_millis(7, 7), 1000);
    let info = ArchiveInfo {
        format: "tar.gz".to_string(),
        entry_count: 10,
        total_size: 250,
        compressed_size: 100,
        compression: Some("gzip".to_string()),
        compression_ratio_millis: Some(ratio_millis(250, 100)),
        has_checksums: Some(true),
        checksum_algorithm: Some("sha256".to_string()),
        created: None,
    };
    assert_eq!(info.compression_ratio_millis, Some(2500));
}
