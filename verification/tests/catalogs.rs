use fulmen_catalogs::codec::decode_json;
use fulmen_catalogs::codec::encode_json;
use fulmen_catalogs::codec::Catalog;
use fulmen_catalogs::codec::DecodeError;
use fulmen_catalogs::fulencode::ConfidenceLevel;
use fulmen_catalogs::fulencode::EncodingFormat;
use fulmen_catalogs::fulencode::NormalizationProfile;
use fulmen_catalogs::fulencode::FULENCODE_VERSION;
use fulmen_catalogs::fulhash::Algorithm;
use fulmen_catalogs::fulhash::FULHASH_VERSION;
use fulmen_catalogs::fulpack::ArchiveFormat;
use fulmen_catalogs::fulpack::EntryType;
use fulmen_catalogs::fulpack::Operation;
use fulmen_catalogs::fulpack::FULPACK_VERSION;

fn assert_round_trip<T: Catalog + PartialEq + std::fmt::Debug>(v: T, tag: &str) {
    assert_eq!(v.canonical_tag(), tag);
    assert_eq!(T::decode_tag(tag).expect("declared tag must decode"), v);
    let json = encode_json(v);
    assert_eq!(json, format!("\"{tag}\""));
    assert_eq!(decode_json::<T>(&json).expect("framed tag must decode"), v);
}

#[test]
fn encoding_format_tags() {
    assert_round_trip(EncodingFormat::Base64, "base64");
    assert_round_trip(EncodingFormat::Base64url, "base64url");
    assert_round_trip(EncodingFormat::Base64Raw, "base64_raw");
    assert_round_trip(EncodingFormat::Base32, "base32");
    assert_round_trip(EncodingFormat::Base32hex, "base32hex");
    assert_round_trip(EncodingFormat::Hex, "hex");
    assert_round_trip(EncodingFormat::Utf8, "utf-8");
    assert_round_trip(EncodingFormat::Utf16le, "utf-16le");
    assert_round_trip(EncodingFormat::Utf16be, "utf-16be");
    assert_round_trip(EncodingFormat::Iso88591, "iso-8859-1");
    assert_round_trip(EncodingFormat::Cp1252, "cp1252");
    assert_round_trip(EncodingFormat::Ascii, "ascii");
}

#[test]
fn base64url_encodes_exactly() {
    // The wire form is the declared tag, not the variant name and not a
    // hyphenated spelling.
    let json = encode_json(EncodingFormat::Base64url);
    assert_eq!(json, "\"base64url\"");
    assert_ne!(json, "\"Base64url\"");
    assert_ne!(json, "\"base64-url\"");
}

#[test]
fn normalization_profile_tags() {
    assert_round_trip(NormalizationProfile::Nfc, "nfc");
    assert_round_trip(NormalizationProfile::Nfd, "nfd");
    assert_round_trip(NormalizationProfile::Nfkc, "nfkc");
    assert_round_trip(NormalizationProfile::Nfkd, "nfkd");
    assert_round_trip(NormalizationProfile::SafeIdentifiers, "safe_identifiers");
    assert_round_trip(NormalizationProfile::SearchOptimized, "search_optimized");
    assert_round_trip(NormalizationProfile::FilenameSafe, "filename_safe");
    assert_round_trip(NormalizationProfile::TextSafe, "text_safe");
    assert_round_trip(NormalizationProfile::LegacyCompatible, "legacy_compatible");
}

#[test]
fn confidence_level_tags() {
    assert_round_trip(ConfidenceLevel::High, "high");
    assert_round_trip(ConfidenceLevel::Medium, "medium");
    assert_round_trip(ConfidenceLevel::Low, "low");
}

#[test]
fn algorithm_tags() {
    assert_round_trip(Algorithm::Xxh3128, "xxh3-128");
    assert_round_trip(Algorithm::Sha256, "sha256");
    assert_round_trip(Algorithm::Crc32, "crc32");
    assert_round_trip(Algorithm::Crc32c, "crc32c");
}

#[test]
fn archive_format_tags() {
    assert_round_trip(ArchiveFormat::Tar, "tar");
    assert_round_trip(ArchiveFormat::TarGz, "tar.gz");
    assert_round_trip(ArchiveFormat::Zip, "zip");
    assert_round_trip(ArchiveFormat::Gzip, "gzip");
}

#[test]
fn entry_type_tags() {
    assert_round_trip(EntryType::File, "file");
    assert_round_trip(EntryType::Directory, "directory");
    assert_round_trip(EntryType::Symlink, "symlink");
}

#[test]
fn operation_tags() {
    assert_round_trip(Operation::Create, "create");
    assert_round_trip(Operation::Extract, "extract");
    assert_round_trip(Operation::Scan, "scan");
    assert_round_trip(Operation::Verify, "verify");
    assert_round_trip(Operation::Info, "info");
}

#[test]
fn unknown_tags_are_rejected_not_defaulted() {
    match EncodingFormat::decode_tag("base65") {
        Err(DecodeError::UnrecognizedVariant(tag)) => assert_eq!(tag, "base65"),
        other => panic!("expected UnrecognizedVariant, got {other:?}"),
    }
    // Matching is case-sensitive and exact: no normalization of case,
    // whitespace or punctuation.
    assert!(matches!(
        EncodingFormat::decode_tag("Base64"),
        Err(DecodeError::UnrecognizedVariant(_))
    ));
    assert!(matches!(
        EncodingFormat::decode_tag(" base64"),
        Err(DecodeError::UnrecognizedVariant(_))
    ));
    assert!(matches!(
        Algorithm::decode_tag("SHA256"),
        Err(DecodeError::UnrecognizedVariant(_))
    ));
    assert!(matches!(
        ArchiveFormat::decode_tag("tar_gz"),
        Err(DecodeError::UnrecognizedVariant(_))
    ));
    assert!(matches!(
        Operation::decode_tag(""),
        Err(DecodeError::UnrecognizedVariant(_))
    ));
}

#[test]
fn non_string_json_is_a_shape_mismatch() {
    match decode_json::<EncodingFormat>("base64url") {
        Err(DecodeError::ShapeMismatch(raw)) => assert_eq!(raw, "base64url"),
        other => panic!("expected ShapeMismatch, got {other:?}"),
    }
    assert!(matches!(
        decode_json::<Algorithm>("42"),
        Err(DecodeError::ShapeMismatch(_))
    ));
    assert!(matches!(
        decode_json::<Operation>(""),
        Err(DecodeError::ShapeMismatch(_))
    ));
    assert!(matches!(
        decode_json::<Operation>("\""),
        Err(DecodeError::ShapeMismatch(_))
    ));
}

#[test]
fn catalog_versions() {
    assert_eq!(FULENCODE_VERSION, "v1.0.0");
    assert_eq!(FULHASH_VERSION, "v1.0.0");
    assert_eq!(FULPACK_VERSION, "v1.0.0");
}
