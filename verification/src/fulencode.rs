//! Text-encoding catalogs: encoding formats, normalization
//! profiles and detection confidence levels.

use crate::codec::Catalog;
use crate::codec::DecodeError;
use crate::codec::str_eq;
use crate::json::json_safe;
use vstd::prelude::*;
use vstd::string::StringExecFns;

verus! {

/// Catalog version accompanying persisted or transmitted payloads.
pub const FULENCODE_VERSION: &'static str = "v1.0.0";

/// A supported text or binary encoding, named by its wire tag.
#[derive(Debug, Clone, Copy, PartialEq, Eq, Hash, Structural)]
pub enum EncodingFormat {
    /// General purpose binary encoding, email attachments
    Base64,
    /// URL-safe tokens, JWT, query parameters
    Base64url,
    /// Base64 without padding
    Base64Raw,
    /// Human-readable identifiers, case-insensitive encodings
    Base32,
    /// Hexadecimal-ordered Base32
    Base32hex,
    /// Checksums, debug output, color codes
    Hex,
    /// Universal text encoding, web, APIs
    Utf8,
    /// Windows internals, Java string storage
    Utf16le,
    /// Network protocols, some Unix systems
    Utf16be,
    /// Western European text, HTTP headers
    Iso88591,
    /// Windows Western European (superset of ISO-8859-1)
    Cp1252,
    /// 7-bit printable subset of UTF-8
    Ascii,
}

impl Catalog for EncodingFormat {
    open spec fn tag_spec(self) -> Seq<char> {
        match self {
            EncodingFormat::Base64 => "base64"@,
            EncodingFormat::Base64url => "base64url"@,
            EncodingFormat::Base64Raw => "base64_raw"@,
            EncodingFormat::Base32 => "base32"@,
            EncodingFormat::Base32hex => "base32hex"@,
            EncodingFormat::Hex => "hex"@,
            EncodingFormat::Utf8 => "utf-8"@,
            EncodingFormat::Utf16le => "utf-16le"@,
            EncodingFormat::Utf16be => "utf-16be"@,
            EncodingFormat::Iso88591 => "iso-8859-1"@,
            EncodingFormat::Cp1252 => "cp1252"@,
            EncodingFormat::Ascii => "ascii"@,
        }
    }

    open spec fn from_tag_spec(s: Seq<char>) -> Option<EncodingFormat> {
        if s == EncodingFormat::Base64.tag_spec() {
            Some(EncodingFormat::Base64)
        } else if s == EncodingFormat::Base64url.tag_spec() {
            Some(EncodingFormat::Base64url)
        } else if s == EncodingFormat::Base64Raw.tag_spec() {
            Some(EncodingFormat::Base64Raw)
        } else if s == EncodingFormat::Base32.tag_spec() {
            Some(EncodingFormat::Base32)
        } else if s == EncodingFormat::Base32hex.tag_spec() {
            Some(EncodingFormat::Base32hex)
        } else if s == EncodingFormat::Hex.tag_spec() {
            Some(EncodingFormat::Hex)
        } else if s == EncodingFormat::Utf8.tag_spec() {
            Some(EncodingFormat::Utf8)
        } else if s == EncodingFormat::Utf16le.tag_spec() {
            Some(EncodingFormat::Utf16le)
        } else if s == EncodingFormat::Utf16be.tag_spec() {
            Some(EncodingFormat::Utf16be)
        } else if s == EncodingFormat::Iso88591.tag_spec() {
            Some(EncodingFormat::Iso88591)
        } else if s == EncodingFormat::Cp1252.tag_spec() {
            Some(EncodingFormat::Cp1252)
        } else if s == EncodingFormat::Ascii.tag_spec() {
            Some(EncodingFormat::Ascii)
        } else {
            None
        }
    }

    proof fn lemma_tag_round_trip(self) {
        reveal_strlit("base64");
        assert("base64"@.len() == 6);
        reveal_strlit("base64url");
        assert("base64url"@.len() == 9);
        reveal_strlit("base64_raw");
        assert("base64_raw"@.len() == 10);
        reveal_strlit("base32");
        assert("base32"@.len() == 6);
        reveal_strlit("base32hex");
        assert("base32hex"@.len() == 9);
        reveal_strlit("hex");
        assert("hex"@.len() == 3);
        reveal_strlit("utf-8");
        assert("utf-8"@.len() == 5);
        reveal_strlit("utf-16le");
        assert("utf-16le"@.len() == 8);
        reveal_strlit("utf-16be");
        assert("utf-16be"@.len() == 8);
        reveal_strlit("iso-8859-1");
        assert("iso-8859-1"@.len() == 10);
        reveal_strlit("cp1252");
        assert("cp1252"@.len() == 6);
        reveal_strlit("ascii");
        assert("ascii"@.len() == 5);
        assert("base32"@[4] == '3');
        assert("base64"@[4] == '6');
        assert("base32hex"@[4] == '3');
        assert("base64url"@[4] == '6');
        assert("utf-16be"@[6] == 'b');
        assert("utf-16le"@[6] == 'l');
        assert("iso-8859-1"@[0] == 'i');
        assert("base64_raw"@[0] == 'b');
        assert("cp1252"@[0] == 'c');
        assert("base64"@[0] == 'b');
        assert("base32"@[0] == 'b');
        assert("ascii"@[0] == 'a');
        assert("utf-8"@[0] == 'u');
        match self {
            EncodingFormat::Base64 => {
                assert(Self::from_tag_spec(EncodingFormat::Base64.tag_spec()) == Some(EncodingFormat::Base64));
            },
            EncodingFormat::Base64url => {
                assert("base64url"@ != "base64"@);
                assert(Self::from_tag_spec(EncodingFormat::Base64url.tag_spec()) == Some(EncodingFormat::Base64url));
            },
            EncodingFormat::Base64Raw => {
                assert("base64_raw"@ != "base64"@);
                assert("base64_raw"@ != "base64url"@);
                assert(Self::from_tag_spec(EncodingFormat::Base64Raw.tag_spec()) == Some(EncodingFormat::Base64Raw));
            },
            EncodingFormat::Base32 => {
                assert("base32"@ != "base64"@);
                assert("base32"@ != "base64url"@);
                assert("base32"@ != "base64_raw"@);
                assert(Self::from_tag_spec(EncodingFormat::Base32.tag_spec()) == Some(EncodingFormat::Base32));
            },
            EncodingFormat::Base32hex => {
                assert("base32hex"@ != "base64"@);
                assert("base32hex"@ != "base64url"@);
                assert("base32hex"@ != "base64_raw"@);
                assert("base32hex"@ != "base32"@);
                assert(Self::from_tag_spec(EncodingFormat::Base32hex.tag_spec()) == Some(EncodingFormat::Base32hex));
            },
            EncodingFormat::Hex => {
                assert("hex"@ != "base64"@);
                assert("hex"@ != "base64url"@);
                assert("hex"@ != "base64_raw"@);
                assert("hex"@ != "base32"@);
                assert("hex"@ != "base32hex"@);
                assert(Self::from_tag_spec(EncodingFormat::Hex.tag_spec()) == Some(EncodingFormat::Hex));
            },
            EncodingFormat::Utf8 => {
                assert("utf-8"@ != "base64"@);
                assert("utf-8"@ != "base64url"@);
                assert("utf-8"@ != "base64_raw"@);
                assert("utf-8"@ != "base32"@);
                assert("utf-8"@ != "base32hex"@);
                assert("utf-8"@ != "hex"@);
                assert(Self::from_tag_spec(EncodingFormat::Utf8.tag_spec()) == Some(EncodingFormat::Utf8));
            },
            EncodingFormat::Utf16le => {
                assert("utf-16le"@ != "base64"@);
                assert("utf-16le"@ != "base64url"@);
                assert("utf-16le"@ != "base64_raw"@);
                assert("utf-16le"@ != "base32"@);
                assert("utf-16le"@ != "base32hex"@);
                assert("utf-16le"@ != "hex"@);
                assert("utf-16le"@ != "utf-8"@);
                assert(Self::from_tag_spec(EncodingFormat::Utf16le.tag_spec()) == Some(EncodingFormat::Utf16le));
            },
            EncodingFormat::Utf16be => {
                assert("utf-16be"@ != "base64"@);
                assert("utf-16be"@ != "base64url"@);
                assert("utf-16be"@ != "base64_raw"@);
                assert("utf-16be"@ != "base32"@);
                assert("utf-16be"@ != "base32hex"@);
                assert("utf-16be"@ != "hex"@);
                assert("utf-16be"@ != "utf-8"@);
                assert("utf-16be"@ != "utf-16le"@);
                assert(Self::from_tag_spec(EncodingFormat::Utf16be.tag_spec()) == Some(EncodingFormat::Utf16be));
            },
            EncodingFormat::Iso88591 => {
                assert("iso-8859-1"@ != "base64"@);
                assert("iso-8859-1"@ != "base64url"@);
                assert("iso-8859-1"@ != "base64_raw"@);
                assert("iso-8859-1"@ != "base32"@);
                assert("iso-8859-1"@ != "base32hex"@);
                assert("iso-8859-1"@ != "hex"@);
                assert("iso-8859-1"@ != "utf-8"@);
                assert("iso-8859-1"@ != "utf-16le"@);
                assert("iso-8859-1"@ != "utf-16be"@);
                assert(Self::from_tag_spec(EncodingFormat::Iso88591.tag_spec()) == Some(EncodingFormat::Iso88591));
            },
            EncodingFormat::Cp1252 => {
                assert("cp1252"@ != "base64"@);
                assert("cp1252"@ != "base64url"@);
                assert("cp1252"@ != "base64_raw"@);
                assert("cp1252"@ != "base32"@);
                assert("cp1252"@ != "base32hex"@);
                assert("cp1252"@ != "hex"@);
                assert("cp1252"@ != "utf-8"@);
                assert("cp1252"@ != "utf-16le"@);
                assert("cp1252"@ != "utf-16be"@);
                assert("cp1252"@ != "iso-8859-1"@);
                assert(Self::from_tag_spec(EncodingFormat::Cp1252.tag_spec()) == Some(EncodingFormat::Cp1252));
            },
            EncodingFormat::Ascii => {
                assert("ascii"@ != "base64"@);
                assert("ascii"@ != "base64url"@);
                assert("ascii"@ != "base64_raw"@);
                assert("ascii"@ != "base32"@);
                assert("ascii"@ != "base32hex"@);
                assert("ascii"@ != "hex"@);
                assert("ascii"@ != "utf-8"@);
                assert("ascii"@ != "utf-16le"@);
                assert("ascii"@ != "utf-16be"@);
                assert("ascii"@ != "iso-8859-1"@);
                assert("ascii"@ != "cp1252"@);
                assert(Self::from_tag_spec(EncodingFormat::Ascii.tag_spec()) == Some(EncodingFormat::Ascii));
            },
        }
    }

    proof fn lemma_tag_well_formed(self) {
        reveal_strlit("base64");
        assert("base64"@.len() == 6);
        reveal_strlit("base64url");
        assert("base64url"@.len() == 9);
        reveal_strlit("base64_raw");
        assert("base64_raw"@.len() == 10);
        reveal_strlit("base32");
        assert("base32"@.len() == 6);
        reveal_strlit("base32hex");
        assert("base32hex"@.len() == 9);
        reveal_strlit("hex");
        assert("hex"@.len() == 3);
        reveal_strlit("utf-8");
        assert("utf-8"@.len() == 5);
        reveal_strlit("utf-16le");
        assert("utf-16le"@.len() == 8);
        reveal_strlit("utf-16be");
        assert("utf-16be"@.len() == 8);
        reveal_strlit("iso-8859-1");
        assert("iso-8859-1"@.len() == 10);
        reveal_strlit("cp1252");
        assert("cp1252"@.len() == 6);
        reveal_strlit("ascii");
        assert("ascii"@.len() == 5);
        match self {
            EncodingFormat::Base64 => {
                assert(json_safe("base64"@));
            },
            EncodingFormat::Base64url => {
                assert(json_safe("base64url"@));
            },
            EncodingFormat::Base64Raw => {
                assert(json_safe("base64_raw"@));
            },
            EncodingFormat::Base32 => {
                assert(json_safe("base32"@));
            },
            EncodingFormat::Base32hex => {
                assert(json_safe("base32hex"@));
            },
            EncodingFormat::Hex => {
                assert(json_safe("hex"@));
            },
            EncodingFormat::Utf8 => {
                assert(json_safe("utf-8"@));
            },
            EncodingFormat::Utf16le => {
                assert(json_safe("utf-16le"@));
            },
            EncodingFormat::Utf16be => {
                assert(json_safe("utf-16be"@));
            },
            EncodingFormat::Iso88591 => {
                assert(json_safe("iso-8859-1"@));
            },
            EncodingFormat::Cp1252 => {
                assert(json_safe("cp1252"@));
            },
            EncodingFormat::Ascii => {
                assert(json_safe("ascii"@));
            },
        }
    }

    fn canonical_tag(self) -> (r: &'static str) {
        match self {
            EncodingFormat::Base64 => "base64",
            EncodingFormat::Base64url => "base64url",
            EncodingFormat::Base64Raw => "base64_raw",
            EncodingFormat::Base32 => "base32",
            EncodingFormat::Base32hex => "base32hex",
            EncodingFormat::Hex => "hex",
            EncodingFormat::Utf8 => "utf-8",
            EncodingFormat::Utf16le => "utf-16le",
            EncodingFormat::Utf16be => "utf-16be",
            EncodingFormat::Iso88591 => "iso-8859-1",
            EncodingFormat::Cp1252 => "cp1252",
            EncodingFormat::Ascii => "ascii",
        }
    }

    fn decode_tag(s: &str) -> (r: Result<EncodingFormat, DecodeError>) {
        if str_eq(s, "base64") {
            Ok(EncodingFormat::Base64)
        } else if str_eq(s, "base64url") {
            Ok(EncodingFormat::Base64url)
        } else if str_eq(s, "base64_raw") {
            Ok(EncodingFormat::Base64Raw)
        } else if str_eq(s, "base32") {
            Ok(EncodingFormat::Base32)
        } else if str_eq(s, "base32hex") {
            Ok(EncodingFormat::Base32hex)
        } else if str_eq(s, "hex") {
            Ok(EncodingFormat::Hex)
        } else if str_eq(s, "utf-8") {
            Ok(EncodingFormat::Utf8)
        } else if str_eq(s, "utf-16le") {
            Ok(EncodingFormat::Utf16le)
        } else if str_eq(s, "utf-16be") {
            Ok(EncodingFormat::Utf16be)
        } else if str_eq(s, "iso-8859-1") {
            Ok(EncodingFormat::Iso88591)
        } else if str_eq(s, "cp1252") {
            Ok(EncodingFormat::Cp1252)
        } else if str_eq(s, "ascii") {
            Ok(EncodingFormat::Ascii)
        } else {
            Err(DecodeError::UnrecognizedVariant(String::from_str(s)))
        }
    }
}

/// A Unicode normalization or cleanup profile.
#[derive(Debug, Clone, Copy, PartialEq, Eq, Hash, Structural)]
pub enum NormalizationProfile {
    /// Compose combining marks with base characters
    Nfc,
    /// Decompose composed characters into base + combining marks
    Nfd,
    /// Decompose compatibility equivalents then compose
    Nfkc,
    /// Full decomposition including compatibility
    Nfkd,
    /// User names, API keys, identifiers requiring strict validation
    SafeIdentifiers,
    /// Full-text search, fuzzy matching
    SearchOptimized,
    /// Cross-platform file names
    FilenameSafe,
    /// Log-safe and UI-safe text display
    TextSafe,
    /// Legacy system integration (limited Unicode support)
    LegacyCompatible,
}

impl Catalog for NormalizationProfile {
    open spec fn tag_spec(self) -> Seq<char> {
        match self {
            NormalizationProfile::Nfc => "nfc"@,
            NormalizationProfile::Nfd => "nfd"@,
            NormalizationProfile::Nfkc => "nfkc"@,
            NormalizationProfile::Nfkd => "nfkd"@,
            NormalizationProfile::SafeIdentifiers => "safe_identifiers"@,
            NormalizationProfile::SearchOptimized => "search_optimized"@,
            NormalizationProfile::FilenameSafe => "filename_safe"@,
            NormalizationProfile::TextSafe => "text_safe"@,
            NormalizationProfile::LegacyCompatible => "legacy_compatible"@,
        }
    }

    open spec fn from_tag_spec(s: Seq<char>) -> Option<NormalizationProfile> {
        if s == NormalizationProfile::Nfc.tag_spec() {
            Some(NormalizationProfile::Nfc)
        } else if s == NormalizationProfile::Nfd.tag_spec() {
            Some(NormalizationProfile::Nfd)
        } else if s == NormalizationProfile::Nfkc.tag_spec() {
            Some(NormalizationProfile::Nfkc)
        } else if s == NormalizationProfile::Nfkd.tag_spec() {
            Some(NormalizationProfile::Nfkd)
        } else if s == NormalizationProfile::SafeIdentifiers.tag_spec() {
            Some(NormalizationProfile::SafeIdentifiers)
        } else if s == NormalizationProfile::SearchOptimized.tag_spec() {
            Some(NormalizationProfile::SearchOptimized)
        } else if s == NormalizationProfile::FilenameSafe.tag_spec() {
            Some(NormalizationProfile::FilenameSafe)
        } else if s == NormalizationProfile::TextSafe.tag_spec() {
            Some(NormalizationProfile::TextSafe)
        } else if s == NormalizationProfile::LegacyCompatible.tag_spec() {
            Some(NormalizationProfile::LegacyCompatible)
        } else {
            None
        }
    }

    proof fn lemma_tag_round_trip(self) {
        reveal_strlit("nfc");
        assert("nfc"@.len() == 3);
        reveal_strlit("nfd");
        assert("nfd"@.len() == 3);
        reveal_strlit("nfkc");
        assert("nfkc"@.len() == 4);
        reveal_strlit("nfkd");
        assert("nfkd"@.len() == 4);
        reveal_strlit("safe_identifiers");
        assert("safe_identifiers"@.len() == 16);
        reveal_strlit("search_optimized");
        assert("search_optimized"@.len() == 16);
        reveal_strlit("filename_safe");
        assert("filename_safe"@.len() == 13);
        reveal_strlit("text_safe");
        assert("text_safe"@.len() == 9);
        reveal_strlit("legacy_compatible");
        assert("legacy_compatible"@.len() == 17);
        assert("nfd"@[2] == 'd');
        assert("nfc"@[2] == 'c');
        assert("nfkd"@[3] == 'd');
        assert("nfkc"@[3] == 'c');
        assert("search_optimized"@[1] == 'e');
        assert("safe_identifiers"@[1] == 'a');
        match self {
            NormalizationProfile::Nfc => {
                assert(Self::from_tag_spec(NormalizationProfile::Nfc.tag_spec()) == Some(NormalizationProfile::Nfc));
            },
            NormalizationProfile::Nfd => {
                assert("nfd"@ != "nfc"@);
                assert(Self::from_tag_spec(NormalizationProfile::Nfd.tag_spec()) == Some(NormalizationProfile::Nfd));
            },
            NormalizationProfile::Nfkc => {
                assert("nfkc"@ != "nfc"@);
                assert("nfkc"@ != "nfd"@);
                assert(Self::from_tag_spec(NormalizationProfile::Nfkc.tag_spec()) == Some(NormalizationProfile::Nfkc));
            },
            NormalizationProfile::Nfkd => {
                assert("nfkd"@ != "nfc"@);
                assert("nfkd"@ != "nfd"@);
                assert("nfkd"@ != "nfkc"@);
                assert(Self::from_tag_spec(NormalizationProfile::Nfkd.tag_spec()) == Some(NormalizationProfile::Nfkd));
            },
            NormalizationProfile::SafeIdentifiers => {
                assert("safe_identifiers"@ != "nfc"@);
                assert("safe_identifiers"@ != "nfd"@);
                assert("safe_identifiers"@ != "nfkc"@);
                assert("safe_identifiers"@ != "nfkd"@);
                assert(Self::from_tag_spec(NormalizationProfile::SafeIdentifiers.tag_spec()) == Some(NormalizationProfile::SafeIdentifiers));
            },
            NormalizationProfile::SearchOptimized => {
                assert("search_optimized"@ != "nfc"@);
                assert("search_optimized"@ != "nfd"@);
                assert("search_optimized"@ != "nfkc"@);
                assert("search_optimized"@ != "nfkd"@);
                assert("search_optimized"@ != "safe_identifiers"@);
                assert(Self::from_tag_spec(NormalizationProfile::SearchOptimized.tag_spec()) == Some(NormalizationProfile::SearchOptimized));
            },
            NormalizationProfile::FilenameSafe => {
                assert("filename_safe"@ != "nfc"@);
                assert("filename_safe"@ != "nfd"@);
                assert("filename_safe"@ != "nfkc"@);
                assert("filename_safe"@ != "nfkd"@);
                assert("filename_safe"@ != "safe_identifiers"@);
                assert("filename_safe"@ != "search_optimized"@);
                assert(Self::from_tag_spec(NormalizationProfile::FilenameSafe.tag_spec()) == Some(NormalizationProfile::FilenameSafe));
            },
            NormalizationProfile::TextSafe => {
                assert("text_safe"@ != "nfc"@);
                assert("text_safe"@ != "nfd"@);
                assert("text_safe"@ != "nfkc"@);
                assert("text_safe"@ != "nfkd"@);
                assert("text_safe"@ != "safe_identifiers"@);
                assert("text_safe"@ != "search_optimized"@);
                assert("text_safe"@ != "filename_safe"@);
                assert(Self::from_tag_spec(NormalizationProfile::TextSafe.tag_spec()) == Some(NormalizationProfile::TextSafe));
            },
            NormalizationProfile::LegacyCompatible => {
                assert("legacy_compatible"@ != "nfc"@);
                assert("legacy_compatible"@ != "nfd"@);
                assert("legacy_compatible"@ != "nfkc"@);
                assert("legacy_compatible"@ != "nfkd"@);
                assert("legacy_compatible"@ != "safe_identifiers"@);
                assert("legacy_compatible"@ != "search_optimized"@);
                assert("legacy_compatible"@ != "filename_safe"@);
                assert("legacy_compatible"@ != "text_safe"@);
                assert(Self::from_tag_spec(NormalizationProfile::LegacyCompatible.tag_spec()) == Some(NormalizationProfile::LegacyCompatible));
            },
        }
    }

    proof fn lemma_tag_well_formed(self) {
        reveal_strlit("nfc");
        assert("nfc"@.len() == 3);
        reveal_strlit("nfd");
        assert("nfd"@.len() == 3);
        reveal_strlit("nfkc");
        assert("nfkc"@.len() == 4);
        reveal_strlit("nfkd");
        assert("nfkd"@.len() == 4);
        reveal_strlit("safe_identifiers");
        assert("safe_identifiers"@.len() == 16);
        reveal_strlit("search_optimized");
        assert("search_optimized"@.len() == 16);
        reveal_strlit("filename_safe");
        assert("filename_safe"@.len() == 13);
        reveal_strlit("text_safe");
        assert("text_safe"@.len() == 9);
        reveal_strlit("legacy_compatible");
        assert("legacy_compatible"@.len() == 17);
        match self {
            NormalizationProfile::Nfc => {
                assert(json_safe("nfc"@));
            },
            NormalizationProfile::Nfd => {
                assert(json_safe("nfd"@));
            },
            NormalizationProfile::Nfkc => {
                assert(json_safe("nfkc"@));
            },
            NormalizationProfile::Nfkd => {
                assert(json_safe("nfkd"@));
            },
            NormalizationProfile::SafeIdentifiers => {
                assert(json_safe("safe_identifiers"@));
            },
            NormalizationProfile::SearchOptimized => {
                assert(json_safe("search_optimized"@));
            },
            NormalizationProfile::FilenameSafe => {
                assert(json_safe("filename_safe"@));
            },
            NormalizationProfile::TextSafe => {
                assert(json_safe("text_safe"@));
            },
            NormalizationProfile::LegacyCompatible => {
                assert(json_safe("legacy_compatible"@));
            },
        }
    }

    fn canonical_tag(self) -> (r: &'static str) {
        match self {
            NormalizationProfile::Nfc => "nfc",
            NormalizationProfile::Nfd => "nfd",
            NormalizationProfile::Nfkc => "nfkc",
            NormalizationProfile::Nfkd => "nfkd",
            NormalizationProfile::SafeIdentifiers => "safe_identifiers",
            NormalizationProfile::SearchOptimized => "search_optimized",
            NormalizationProfile::FilenameSafe => "filename_safe",
            NormalizationProfile::TextSafe => "text_safe",
            NormalizationProfile::LegacyCompatible => "legacy_compatible",
        }
    }

    fn decode_tag(s: &str) -> (r: Result<NormalizationProfile, DecodeError>) {
        if str_eq(s, "nfc") {
            Ok(NormalizationProfile::Nfc)
        } else if str_eq(s, "nfd") {
            Ok(NormalizationProfile::Nfd)
        } else if str_eq(s, "nfkc") {
            Ok(NormalizationProfile::Nfkc)
        } else if str_eq(s, "nfkd") {
            Ok(NormalizationProfile::Nfkd)
        } else if str_eq(s, "safe_identifiers") {
            Ok(NormalizationProfile::SafeIdentifiers)
        } else if str_eq(s, "search_optimized") {
            Ok(NormalizationProfile::SearchOptimized)
        } else if str_eq(s, "filename_safe") {
            Ok(NormalizationProfile::FilenameSafe)
        } else if str_eq(s, "text_safe") {
            Ok(NormalizationProfile::TextSafe)
        } else if str_eq(s, "legacy_compatible") {
            Ok(NormalizationProfile::LegacyCompatible)
        } else {
            Err(DecodeError::UnrecognizedVariant(String::from_str(s)))
        }
    }
}

/// How certain an encoding detection result is.
#[derive(Debug, Clone, Copy, PartialEq, Eq, Hash, Structural)]
pub enum ConfidenceLevel {
    /// Very likely correct encoding
    High,
    /// Probable encoding, may need fallback
    Medium,
    /// Ambiguous or uncertain
    Low,
}

impl Catalog for ConfidenceLevel {
    open spec fn tag_spec(self) -> Seq<char> {
        match self {
            ConfidenceLevel::High => "high"@,
            ConfidenceLevel::Medium => "medium"@,
            ConfidenceLevel::Low => "low"@,
        }
    }

    open spec fn from_tag_spec(s: Seq<char>) -> Option<ConfidenceLevel> {
        if s == ConfidenceLevel::High.tag_spec() {
            Some(ConfidenceLevel::High)
        } else if s == ConfidenceLevel::Medium.tag_spec() {
            Some(ConfidenceLevel::Medium)
        } else if s == ConfidenceLevel::Low.tag_spec() {
            Some(ConfidenceLevel::Low)
        } else {
            None
        }
    }

    proof fn lemma_tag_round_trip(self) {
        reveal_strlit("high");
        assert("high"@.len() == 4);
        reveal_strlit("medium");
        assert("medium"@.len() == 6);
        reveal_strlit("low");
        assert("low"@.len() == 3);
        match self {
            ConfidenceLevel::High => {
                assert(Self::from_tag_spec(ConfidenceLevel::High.tag_spec()) == Some(ConfidenceLevel::High));
            },
            ConfidenceLevel::Medium => {
                assert("medium"@ != "high"@);
                assert(Self::from_tag_spec(ConfidenceLevel::Medium.tag_spec()) == Some(ConfidenceLevel::Medium));
            },
            ConfidenceLevel::Low => {
                assert("low"@ != "high"@);
                assert("low"@ != "medium"@);
                assert(Self::from_tag_spec(ConfidenceLevel::Low.tag_spec()) == Some(ConfidenceLevel::Low));
            },
        }
    }

    proof fn lemma_tag_well_formed(self) {
        reveal_strlit("high");
        assert("high"@.len() == 4);
        reveal_strlit("medium");
        assert("medium"@.len() == 6);
        reveal_strlit("low");
        assert("low"@.len() == 3);
        match self {
            ConfidenceLevel::High => {
                assert(json_safe("high"@));
            },
            ConfidenceLevel::Medium => {
                assert(json_safe("medium"@));
            },
            ConfidenceLevel::Low => {
                assert(json_safe("low"@));
            },
        }
    }

    fn canonical_tag(self) -> (r: &'static str) {
        match self {
            ConfidenceLevel::High => "high",
            ConfidenceLevel::Medium => "medium",
            ConfidenceLevel::Low => "low",
        }
    }

    fn decode_tag(s: &str) -> (r: Result<ConfidenceLevel, DecodeError>) {
        if str_eq(s, "high") {
            Ok(ConfidenceLevel::High)
        } else if str_eq(s, "medium") {
            Ok(ConfidenceLevel::Medium)
        } else if str_eq(s, "low") {
            Ok(ConfidenceLevel::Low)
        } else {
            Err(DecodeError::UnrecognizedVariant(String::from_str(s)))
        }
    }
}

} // verus!
