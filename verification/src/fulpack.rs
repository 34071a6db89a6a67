//! The archiving catalogs and payloads: archive formats, entry kinds,
//! operations, and the structured records an archiving tool produces and
//! consumes.
//!
//! This layer defines shapes and documents their cross-field invariants;
//! it does not enforce those invariants on decode.  The constructors here
//! establish them, and the spec functions state them so producers can be
//! held to them.

use crate::codec::Catalog;
use crate::codec::DecodeError;
use crate::codec::str_eq;
use crate::json::all_json_safe;
use crate::json::build_object;
use crate::json::json_object;
use crate::json::json_safe;
use crate::json::opt_bool_field;
use crate::json::opt_i64_field;
use crate::json::opt_str_field;
use crate::json::opt_str_list_field;
use crate::json::pairs_view;
use crate::json::push_opt_bool;
use crate::json::push_opt_i64;
use crate::json::push_opt_str;
use crate::json::push_opt_str_list;
use crate::json::push_req_bool;
use crate::json::push_req_i64;
use crate::json::push_req_str;
use crate::json::push_req_str_list;
use crate::json::req_bool_field;
use crate::json::req_i64_field;
use crate::json::req_str_field;
use crate::json::req_str_list_field;
use crate::json::strs_view;
use vstd::arithmetic::div_mod::lemma_remainder;
use vstd::prelude::*;
use vstd::string::StringExecFns;

verus! {

/// Catalog version accompanying persisted or transmitted payloads.
pub const FULPACK_VERSION: &'static str = "v1.0.0";

/// A loosely structured JSON value from the `serde_json` crate, carried
/// opaquely inside a manifest's optional lookup index.
#[verifier::external_type_specification]
#[verifier::external_body]
pub struct ExValue(serde_json::Value);

/// A supported archive container format.
#[derive(Debug, Clone, Copy, PartialEq, Eq, Hash, Structural)]
pub enum ArchiveFormat {
    /// POSIX tar archive (uncompressed)
    Tar,
    /// POSIX tar archive with gzip compression
    TarGz,
    /// ZIP archive with deflate compression
    Zip,
    /// GZIP compressed single file
    Gzip,
}

impl Catalog for ArchiveFormat {
    open spec fn tag_spec(self) -> Seq<char> {
        match self {
            ArchiveFormat::Tar => "tar"@,
            ArchiveFormat::TarGz => "tar.gz"@,
            ArchiveFormat::Zip => "zip"@,
            ArchiveFormat::Gzip => "gzip"@,
        }
    }

    open spec fn from_tag_spec(s: Seq<char>) -> Option<ArchiveFormat> {
        if s == ArchiveFormat::Tar.tag_spec() {
            Some(ArchiveFormat::Tar)
        } else if s == ArchiveFormat::TarGz.tag_spec() {
            Some(ArchiveFormat::TarGz)
        } else if s == ArchiveFormat::Zip.tag_spec() {
            Some(ArchiveFormat::Zip)
        } else if s == ArchiveFormat::Gzip.tag_spec() {
            Some(ArchiveFormat::Gzip)
        } else {
            None
        }
    }

    proof fn lemma_tag_round_trip(self) {
        reveal_strlit("tar");
        assert("tar"@.len() == 3);
        reveal_strlit("tar.gz");
        assert("tar.gz"@.len() == 6);
        reveal_strlit("zip");
        assert("zip"@.len() == 3);
        reveal_strlit("gzip");
        assert("gzip"@.len() == 4);
        assert("zip"@[0] == 'z');
        assert("tar"@[0] == 't');
        match self {
            ArchiveFormat::Tar => {
                assert(Self::from_tag_spec(ArchiveFormat::Tar.tag_spec()) == Some(ArchiveFormat::Tar));
            },
            ArchiveFormat::TarGz => {
                assert("tar.gz"@ != "tar"@);
                assert(Self::from_tag_spec(ArchiveFormat::TarGz.tag_spec()) == Some(ArchiveFormat::TarGz));
            },
            ArchiveFormat::Zip => {
                assert("zip"@ != "tar"@);
                assert("zip"@ != "tar.gz"@);
                assert(Self::from_tag_spec(ArchiveFormat::Zip.tag_spec()) == Some(ArchiveFormat::Zip));
            },
            ArchiveFormat::Gzip => {
                assert("gzip"@ != "tar"@);
                assert("gzip"@ != "tar.gz"@);
                assert("gzip"@ != "zip"@);
                assert(Self::from_tag_spec(ArchiveFormat::Gzip.tag_spec()) == Some(ArchiveFormat::Gzip));
            },
        }
    }

    proof fn lemma_tag_well_formed(self) {
        reveal_strlit("tar");
        assert("tar"@.len() == 3);
        reveal_strlit("tar.gz");
        assert("tar.gz"@.len() == 6);
        reveal_strlit("zip");
        assert("zip"@.len() == 3);
        reveal_strlit("gzip");
        assert("gzip"@.len() == 4);
        match self {
            ArchiveFormat::Tar => {
                assert(json_safe("tar"@));
            },
            ArchiveFormat::TarGz => {
                assert(json_safe("tar.gz"@));
            },
            ArchiveFormat::Zip => {
                assert(json_safe("zip"@));
            },
            ArchiveFormat::Gzip => {
                assert(json_safe("gzip"@));
            },
        }
    }

    fn canonical_tag(self) -> (r: &'static str) {
        match self {
            ArchiveFormat::Tar => "tar",
            ArchiveFormat::TarGz => "tar.gz",
            ArchiveFormat::Zip => "zip",
            ArchiveFormat::Gzip => "gzip",
        }
    }

    fn decode_tag(s: &str) -> (r: Result<ArchiveFormat, DecodeError>) {
        if str_eq(s, "tar") {
            Ok(ArchiveFormat::Tar)
        } else if str_eq(s, "tar.gz") {
            Ok(ArchiveFormat::TarGz)
        } else if str_eq(s, "zip") {
            Ok(ArchiveFormat::Zip)
        } else if str_eq(s, "gzip") {
            Ok(ArchiveFormat::Gzip)
        } else {
            Err(DecodeError::UnrecognizedVariant(String::from_str(s)))
        }
    }
}

/// The kind of a single archive entry.
#[derive(Debug, Clone, Copy, PartialEq, Eq, Hash, Structural)]
pub enum EntryType {
    /// Normal file with data
    File,
    /// Directory/folder entry
    Directory,
    /// Symbolic link to another entry
    Symlink,
}

impl Catalog for EntryType {
    open spec fn tag_spec(self) -> Seq<char> {
        match self {
            EntryType::File => "file"@,
            EntryType::Directory => "directory"@,
            EntryType::Symlink => "symlink"@,
        }
    }

    open spec fn from_tag_spec(s: Seq<char>) -> Option<EntryType> {
        if s == EntryType::File.tag_spec() {
            Some(EntryType::File)
        } else if s == EntryType::Directory.tag_spec() {
            Some(EntryType::Directory)
        } else if s == EntryType::Symlink.tag_spec() {
            Some(EntryType::Symlink)
        } else {
            None
        }
    }

    proof fn lemma_tag_round_trip(self) {
        reveal_strlit("file");
        assert("file"@.len() == 4);
        reveal_strlit("directory");
        assert("directory"@.len() == 9);
        reveal_strlit("symlink");
        assert("symlink"@.len() == 7);
        match self {
            EntryType::File => {
                assert(Self::from_tag_spec(EntryType::File.tag_spec()) == Some(EntryType::File));
            },
            EntryType::Directory => {
                assert("directory"@ != "file"@);
                assert(Self::from_tag_spec(EntryType::Directory.tag_spec()) == Some(EntryType::Directory));
            },
            EntryType::Symlink => {
                assert("symlink"@ != "file"@);
                assert("symlink"@ != "directory"@);
                assert(Self::from_tag_spec(EntryType::Symlink.tag_spec()) == Some(EntryType::Symlink));
            },
        }
    }

    proof fn lemma_tag_well_formed(self) {
        reveal_strlit("file");
        assert("file"@.len() == 4);
        reveal_strlit("directory");
        assert("directory"@.len() == 9);
        reveal_strlit("symlink");
        assert("symlink"@.len() == 7);
        match self {
            EntryType::File => {
                assert(json_safe("file"@));
            },
            EntryType::Directory => {
                assert(json_safe("directory"@));
            },
            EntryType::Symlink => {
                assert(json_safe("symlink"@));
            },
        }
    }

    fn canonical_tag(self) -> (r: &'static str) {
        match self {
            EntryType::File => "file",
            EntryType::Directory => "directory",
            EntryType::Symlink => "symlink",
        }
    }

    fn decode_tag(s: &str) -> (r: Result<EntryType, DecodeError>) {
        if str_eq(s, "file") {
            Ok(EntryType::File)
        } else if str_eq(s, "directory") {
            Ok(EntryType::Directory)
        } else if str_eq(s, "symlink") {
            Ok(EntryType::Symlink)
        } else {
            Err(DecodeError::UnrecognizedVariant(String::from_str(s)))
        }
    }
}

/// An archive operation.
#[derive(Debug, Clone, Copy, PartialEq, Eq, Hash, Structural)]
pub enum Operation {
    /// Create new archive from source files/directories
    Create,
    /// Extract archive contents to destination
    Extract,
    /// List archive entries
    Scan,
    /// Validate archive integrity and checksums
    Verify,
    /// Get archive metadata without extraction
    Info,
}

impl Catalog for Operation {
    open spec fn tag_spec(self) -> Seq<char> {
        match self {
            Operation::Create => "create"@,
            Operation::Extract => "extract"@,
            Operation::Scan => "scan"@,
            Operation::Verify => "verify"@,
            Operation::Info => "info"@,
        }
    }

    open spec fn from_tag_spec(s: Seq<char>) -> Option<Operation> {
        if s == Operation::Create.tag_spec() {
            Some(Operation::Create)
        } else if s == Operation::Extract.tag_spec() {
            Some(Operation::Extract)
        } else if s == Operation::Scan.tag_spec() {
            Some(Operation::Scan)
        } else if s == Operation::Verify.tag_spec() {
            Some(Operation::Verify)
        } else if s == Operation::Info.tag_spec() {
            Some(Operation::Info)
        } else {
            None
        }
    }

    proof fn lemma_tag_round_trip(self) {
        reveal_strlit("create");
        assert("create"@.len() == 6);
        reveal_strlit("extract");
        assert("extract"@.len() == 7);
        reveal_strlit("scan");
        assert("scan"@.len() == 4);
        reveal_strlit("verify");
        assert("verify"@.len() == 6);
        reveal_strlit("info");
        assert("info"@.len() == 4);
        assert("verify"@[0] == 'v');
        assert("create"@[0] == 'c');
        assert("info"@[0] == 'i');
        assert("scan"@[0] == 's');
        match self {
            Operation::Create => {
                assert(Self::from_tag_spec(Operation::Create.tag_spec()) == Some(Operation::Create));
            },
            Operation::Extract => {
                assert("extract"@ != "create"@);
                assert(Self::from_tag_spec(Operation::Extract.tag_spec()) == Some(Operation::Extract));
            },
            Operation::Scan => {
                assert("scan"@ != "create"@);
                assert("scan"@ != "extract"@);
                assert(Self::from_tag_spec(Operation::Scan.tag_spec()) == Some(Operation::Scan));
            },
            Operation::Verify => {
                assert("verify"@ != "create"@);
                assert("verify"@ != "extract"@);
                assert("verify"@ != "scan"@);
                assert(Self::from_tag_spec(Operation::Verify.tag_spec()) == Some(Operation::Verify));
            },
            Operation::Info => {
                assert("info"@ != "create"@);
                assert("info"@ != "extract"@);
                assert("info"@ != "scan"@);
                assert("info"@ != "verify"@);
                assert(Self::from_tag_spec(Operation::Info.tag_spec()) == Some(Operation::Info));
            },
        }
    }

    proof fn lemma_tag_well_formed(self) {
        reveal_strlit("create");
        assert("create"@.len() == 6);
        reveal_strlit("extract");
        assert("extract"@.len() == 7);
        reveal_strlit("scan");
        assert("scan"@.len() == 4);
        reveal_strlit("verify");
        assert("verify"@.len() == 6);
        reveal_strlit("info");
        assert("info"@.len() == 4);
        match self {
            Operation::Create => {
                assert(json_safe("create"@));
            },
            Operation::Extract => {
                assert(json_safe("extract"@));
            },
            Operation::Scan => {
                assert(json_safe("scan"@));
            },
            Operation::Verify => {
                assert(json_safe("verify"@));
            },
            Operation::Info => {
                assert(json_safe("info"@));
            },
        }
    }

    fn canonical_tag(self) -> (r: &'static str) {
        match self {
            Operation::Create => "create",
            Operation::Extract => "extract",
            Operation::Scan => "scan",
            Operation::Verify => "verify",
            Operation::Info => "info",
        }
    }

    fn decode_tag(s: &str) -> (r: Result<Operation, DecodeError>) {
        if str_eq(s, "create") {
            Ok(Operation::Create)
        } else if str_eq(s, "extract") {
            Ok(Operation::Extract)
        } else if str_eq(s, "scan") {
            Ok(Operation::Scan)
        } else if str_eq(s, "verify") {
            Ok(Operation::Verify)
        } else if str_eq(s, "info") {
            Ok(Operation::Info)
        } else {
            Err(DecodeError::UnrecognizedVariant(String::from_str(s)))
        }
    }
}

// ===========================================================================
// Data structures
// ===========================================================================

/// Metadata about an archive file.
///
/// The compression ratio is `total_size / compressed_size` held in
/// thousandths as a fixed-point integer, so the relationship between the
/// sizes and the ratio can be stated and checked exactly.
#[derive(Debug, Clone, PartialEq)]
pub struct ArchiveInfo {
    /// Archive format from the archive-formats taxonomy.
    pub format: String,
    /// Total number of entries in the archive.
    pub entry_count: i64,
    /// Total uncompressed size in bytes.
    pub total_size: i64,
    /// Compressed archive file size in bytes.
    pub compressed_size: i64,
    /// Compression algorithm used.
    pub compression: Option<String>,
    /// Compression ratio in thousandths: `total_size / compressed_size`,
    /// rounded down.
    pub compression_ratio_millis: Option<i64>,
    /// Whether the archive contains checksums.
    pub has_checksums: Option<bool>,
    /// Checksum algorithm used from the hashing catalog.
    pub checksum_algorithm: Option<String>,
    /// Archive creation timestamp (ISO 8601 format).
    pub created: Option<String>,
}

impl ArchiveInfo {
    /// Documented invariant: when a ratio is recorded and the compressed
    /// size is positive, it is the sizes' quotient in thousandths, rounded
    /// down.  This layer accepts values that break it; `ratio_millis`
    /// computes a value that satisfies it.
    pub open spec fn ratio_consistent(self) -> bool {
        match self.compression_ratio_millis {
            Some(r) => self.compressed_size > 0 ==> (self.compressed_size as int) * r <= (
            self.total_size as int) * 1000 < (self.compressed_size as int) * (r + 1),
            None => true,
        }
    }
}

/// The compression ratio `total_size / compressed_size` in thousandths,
/// rounded down.
pub fn ratio_millis(total_size: i64, compressed_size: i64) -> (r: i64)
    requires
        0 <= total_size <= 9_000_000_000_000_000,
        0 < compressed_size,
    ensures
        r == (total_size as int) * 1000 / (compressed_size as int),
        (compressed_size as int) * r <= (total_size as int) * 1000 < (compressed_size as int) * (r
            + 1),
{
    let num: i64 = total_size * 1000;
    let r = num / compressed_size;
    proof {
        let n = total_size as int * 1000;
        let c = compressed_size as int;
        lemma_remainder(n, c);
        assert(n / c * c <= n < n / c * c + c);
        assert(c * (n / c) == n / c * c) by (nonlinear_arith);
        assert(c * (n / c + 1) == n / c * c + c) by (nonlinear_arith);
    }
    r
}

/// Metadata for a single archive entry (returned by the scan operation).
#[derive(Debug, Clone, PartialEq)]
pub struct ArchiveEntry {
    /// Normalized entry path within the archive.
    pub path: String,
    /// Entry type from the entry-types taxonomy (wire key `type`).
    pub entry_type: String,
    /// Uncompressed size in bytes.
    pub size: i64,
    /// Compressed size in bytes (if available).
    pub compressed_size: Option<i64>,
    /// Modification timestamp (ISO 8601 format).
    pub modified: Option<String>,
    /// SHA-256 checksum (64 hex characters).
    pub checksum: Option<String>,
    /// Unix file permissions (octal string).
    pub mode: Option<String>,
    /// Target path if the entry is a symlink.
    pub symlink_target: Option<String>,
}

/// Complete archive table of contents (for large archives and caching).
#[derive(Debug, Clone, PartialEq)]
pub struct ArchiveManifest {
    /// Archive format from the archive-formats taxonomy.
    pub format: String,
    /// Manifest schema version (semantic versioning).
    pub version: String,
    /// Manifest generation timestamp (ISO 8601 format).
    pub generated: String,
    /// Total number of entries in the manifest.
    pub entry_count: i64,
    /// The archive entries.
    pub entries: Vec<ArchiveEntry>,
    /// Total uncompressed size in bytes.
    pub total_size: Option<i64>,
    /// Compressed archive file size in bytes.
    pub compressed_size: Option<i64>,
    /// Optional searchable index for fast lookups, carried opaquely.
    pub index: Option<Vec<(String, serde_json::Value)>>,
}

impl ArchiveManifest {
    /// Documented invariant: the recorded entry count matches the number of
    /// entries.  A manifest violating this is a producer bug; this layer
    /// accepts it as shaped data and does not reject it.
    pub open spec fn consistent(self) -> bool {
        self.entry_count as int == self.entries@.len()
    }

    /// Builds a manifest whose entry count is the number of entries given.
    pub fn from_entries(
        format: String,
        version: String,
        generated: String,
        entries: Vec<ArchiveEntry>,
    ) -> (r: ArchiveManifest)
        requires
            entries@.len() <= i64::MAX,
        ensures
            r.consistent(),
            r.format@ == format@,
            r.version@ == version@,
            r.generated@ == generated@,
            r.entries == entries,
            r.total_size is None,
            r.compressed_size is None,
            r.index is None,
    {
        let entry_count: i64 = entries.len() as i64;
        ArchiveManifest {
            format,
            version,
            generated,
            entry_count,
            entries,
            total_size: None,
            compressed_size: None,
            index: None,
        }
    }
}

/// Result of archive integrity verification (from the verify operation).
#[derive(Debug, Clone, PartialEq)]
pub struct ValidationResult {
    /// Whether the archive is valid and intact.
    pub valid: bool,
    /// Validation errors (empty if valid).
    pub errors: Vec<String>,
    /// Non-critical warnings (e.g., missing checksums).
    pub warnings: Vec<String>,
    /// Number of entries validated.
    pub entry_count: i64,
    /// Number of checksums successfully verified.
    pub checksums_verified: Option<i64>,
    /// Security and integrity checks performed.
    pub checks_performed: Option<Vec<String>>,
}

impl ValidationResult {
    /// Documented invariant: the result is valid exactly when there are no
    /// errors.  The constructor establishes it; this layer does not reject
    /// shaped data that breaks it.
    pub open spec fn consistent(self) -> bool {
        self.valid <==> self.errors@.len() == 0
    }

    /// Builds a result whose validity is exactly the absence of errors.
    pub fn new(errors: Vec<String>, warnings: Vec<String>, entry_count: i64) -> (r:
        ValidationResult)
        ensures
            r.consistent(),
            r.valid <==> errors@.len() == 0,
            r.errors == errors,
            r.warnings == warnings,
            r.entry_count == entry_count,
            r.checksums_verified is None,
            r.checks_performed is None,
    {
        let valid = errors.len() == 0;
        ValidationResult {
            valid,
            errors,
            warnings,
            entry_count,
            checksums_verified: None,
            checks_performed: None,
        }
    }
}

/// Result of an archive extraction operation.
#[derive(Debug, Clone, PartialEq)]
pub struct ExtractResult {
    /// Number of entries successfully extracted.
    pub extracted_count: i64,
    /// Number of entries skipped (e.g., already exists).
    pub skipped_count: i64,
    /// Number of entries that failed to extract.
    pub error_count: i64,
    /// Error messages for failed extractions.
    pub errors: Option<Vec<String>>,
    /// Warning messages (e.g., skipped files).
    pub warnings: Option<Vec<String>>,
    /// Number of checksums successfully verified during extraction.
    pub checksums_verified: Option<i64>,
    /// Total bytes extracted.
    pub total_bytes: Option<i64>,
}

// ===========================================================================
// Option bundles: all-optional configuration records.  An absent field
// means "use the caller's default", never an implicit false or zero, and
// is omitted from the encoded form entirely.
// ===========================================================================

/// Options for the archive creation operation.
#[derive(Debug, Clone, PartialEq)]
pub struct CreateOptions {
    /// Compression level (1 = fastest, 9 = best compression).
    pub compression_level: Option<i64>,
    /// Glob patterns for files to include.
    pub include_patterns: Option<Vec<String>>,
    /// Glob patterns for files to exclude.
    pub exclude_patterns: Option<Vec<String>>,
    /// Checksum algorithm for entry verification.
    pub checksum_algorithm: Option<String>,
    /// Preserve Unix file permissions in the archive.
    pub preserve_permissions: Option<bool>,
    /// Follow symbolic links and archive their targets.
    pub follow_symlinks: Option<bool>,
}

impl Default for CreateOptions {
    /// The bundle with no field set: every choice is left to the caller.
    fn default() -> (r: CreateOptions)
        ensures
            r.compression_level is None,
            r.include_patterns is None,
            r.exclude_patterns is None,
            r.checksum_algorithm is None,
            r.preserve_permissions is None,
            r.follow_symlinks is None,
    {
        CreateOptions {
            compression_level: None,
            include_patterns: None,
            exclude_patterns: None,
            checksum_algorithm: None,
            preserve_permissions: None,
            follow_symlinks: None,
        }
    }
}

/// Options for the archive extraction operation.
#[derive(Debug, Clone, PartialEq)]
pub struct ExtractOptions {
    /// How to handle existing files (`error`, `skip` or `overwrite`).
    pub overwrite: Option<String>,
    /// Verify checksums during extraction if available.
    pub verify_checksums: Option<bool>,
    /// Preserve Unix file permissions from the archive.
    pub preserve_permissions: Option<bool>,
    /// Glob patterns for entries to extract.
    pub include_patterns: Option<Vec<String>>,
    /// Maximum total decompressed size in bytes.
    pub max_size: Option<i64>,
    /// Maximum number of entries to extract.
    pub max_entries: Option<i64>,
}

impl Default for ExtractOptions {
    /// The bundle with no field set: every choice is left to the caller.
    fn default() -> (r: ExtractOptions)
        ensures
            r.overwrite is None,
            r.verify_checksums is None,
            r.preserve_permissions is None,
            r.include_patterns is None,
            r.max_size is None,
            r.max_entries is None,
    {
        ExtractOptions {
            overwrite: None,
            verify_checksums: None,
            preserve_permissions: None,
            include_patterns: None,
            max_size: None,
            max_entries: None,
        }
    }
}

/// Options for the archive scanning operation.
#[derive(Debug, Clone, PartialEq)]
pub struct ScanOptions {
    /// Include metadata (size, checksum, modified timestamp) in results.
    pub include_metadata: Option<bool>,
    /// Filter entries by type (from the entry-types taxonomy).
    pub entry_types: Option<Vec<String>>,
    /// Maximum depth for directory traversal.
    pub max_depth: Option<i64>,
    /// Safety limit for maximum entries to return.
    pub max_entries: Option<i64>,
}

impl Default for ScanOptions {
    /// The bundle with no field set: every choice is left to the caller.
    fn default() -> (r: ScanOptions)
        ensures
            r.include_metadata is None,
            r.entry_types is None,
            r.max_depth is None,
            r.max_entries is None,
    {
        ScanOptions { include_metadata: None, entry_types: None, max_depth: None, max_entries: None }
    }
}

impl ArchiveEntry {
    /// The members of this value's JSON encoding, in declaration order,
    /// absent optional fields omitted.
    pub open spec fn fields_spec(self) -> Seq<(Seq<char>, Seq<char>)> {
        req_str_field("path"@, self.path@)
            + req_str_field("type"@, self.entry_type@)
            + req_i64_field("size"@, self.size as int)
            + opt_i64_field("compressed_size"@, self.compressed_size)
            + opt_str_field("modified"@, self.modified)
            + opt_str_field("checksum"@, self.checksum)
            + opt_str_field("mode"@, self.mode)
            + opt_str_field("symlink_target"@, self.symlink_target)
    }

    /// The exact JSON object this value encodes to.
    pub open spec fn json_spec(self) -> Seq<char> {
        json_object(self.fields_spec())
    }

    pub open spec fn json_safe_fields(self) -> bool {
        json_safe(self.path@) && json_safe(self.entry_type@) && (match self.modified {
            Some(s) => json_safe(s@),
            None => true,
        }) && (match self.checksum {
            Some(s) => json_safe(s@),
            None => true,
        }) && (match self.mode {
            Some(s) => json_safe(s@),
            None => true,
        }) && (match self.symlink_target {
            Some(s) => json_safe(s@),
            None => true,
        })
    }

    /// Encodes this value as a JSON object, omitting absent optional
    /// fields entirely rather than writing null.
    pub fn to_json(&self) -> (r: Option<String>)
        ensures
            r is Some <==> self.json_safe_fields(),
            r matches Some(s) ==> s@ == self.json_spec(),
    {
        let mut fields: Vec<(String, String)> = Vec::new();
        proof {
            assert(pairs_view(fields@) =~= Seq::<(Seq<char>, Seq<char>)>::empty());
        }
        if !push_req_str(&mut fields, "path", self.path.as_str()) {
            return None;
        }
        proof {
            assert(pairs_view(fields@) =~= req_str_field("path"@, self.path@));
        }
        if !push_req_str(&mut fields, "type", self.entry_type.as_str()) {
            return None;
        }
        push_req_i64(&mut fields, "size", self.size);
        push_opt_i64(&mut fields, "compressed_size", &self.compressed_size);
        if !push_opt_str(&mut fields, "modified", &self.modified) {
            return None;
        }
        if !push_opt_str(&mut fields, "checksum", &self.checksum) {
            return None;
        }
        if !push_opt_str(&mut fields, "mode", &self.mode) {
            return None;
        }
        if !push_opt_str(&mut fields, "symlink_target", &self.symlink_target) {
            return None;
        }
        proof {
            assert(pairs_view(fields@) =~= self.fields_spec());
        }
        Some(build_object(&fields))
    }
}

impl ValidationResult {
    /// The members of this value's JSON encoding, in declaration order,
    /// absent optional fields omitted.
    pub open spec fn fields_spec(self) -> Seq<(Seq<char>, Seq<char>)> {
        req_bool_field("valid"@, self.valid)
            + req_str_list_field("errors"@, strs_view(self.errors@))
            + req_str_list_field("warnings"@, strs_view(self.warnings@))
            + req_i64_field("entry_count"@, self.entry_count as int)
            + opt_i64_field("checksums_verified"@, self.checksums_verified)
            + opt_str_list_field("checks_performed"@, self.checks_performed)
    }

    /// The exact JSON object this value encodes to.
    pub open spec fn json_spec(self) -> Seq<char> {
        json_object(self.fields_spec())
    }

    pub open spec fn json_safe_fields(self) -> bool {
        all_json_safe(strs_view(self.errors@)) && all_json_safe(strs_view(self.warnings@)) && (match self.checks_performed {
            Some(items) => all_json_safe(strs_view(items@)),
            None => true,
        })
    }

    /// Encodes this value as a JSON object, omitting absent optional
    /// fields entirely rather than writing null.
    pub fn to_json(&self) -> (r: Option<String>)
        ensures
            r is Some <==> self.json_safe_fields(),
            r matches Some(s) ==> s@ == self.json_spec(),
    {
        let mut fields: Vec<(String, String)> = Vec::new();
        proof {
            assert(pairs_view(fields@) =~= Seq::<(Seq<char>, Seq<char>)>::empty());
        }
        push_req_bool(&mut fields, "valid", self.valid);
        proof {
            assert(pairs_view(fields@) =~= req_bool_field("valid"@, self.valid));
        }
        if !push_req_str_list(&mut fields, "errors", &self.errors) {
            return None;
        }
        if !push_req_str_list(&mut fields, "warnings", &self.warnings) {
            return None;
        }
        push_req_i64(&mut fields, "entry_count", self.entry_count);
        push_opt_i64(&mut fields, "checksums_verified", &self.checksums_verified);
        if !push_opt_str_list(&mut fields, "checks_performed", &self.checks_performed) {
            return None;
        }
        proof {
            assert(pairs_view(fields@) =~= self.fields_spec());
        }
        Some(build_object(&fields))
    }
}

impl ExtractResult {
    /// The members of this value's JSON encoding, in declaration order,
    /// absent optional fields omitted.
    pub open spec fn fields_spec(self) -> Seq<(Seq<char>, Seq<char>)> {
        req_i64_field("extracted_count"@, self.extracted_count as int)
            + req_i64_field("skipped_count"@, self.skipped_count as int)
            + req_i64_field("error_count"@, self.error_count as int)
            + opt_str_list_field("errors"@, self.errors)
            + opt_str_list_field("warnings"@, self.warnings)
            + opt_i64_field("checksums_verified"@, self.checksums_verified)
            + opt_i64_field("total_bytes"@, self.total_bytes)
    }

    /// The exact JSON object this value encodes to.
    pub open spec fn json_spec(self) -> Seq<char> {
        json_object(self.fields_spec())
    }

    pub open spec fn json_safe_fields(self) -> bool {
        (match self.errors {
            Some(items) => all_json_safe(strs_view(items@)),
            None => true,
        }) && (match self.warnings {
            Some(items) => all_json_safe(strs_view(items@)),
            None => true,
        })
    }

    /// Encodes this value as a JSON object, omitting absent optional
    /// fields entirely rather than writing null.
    pub fn to_json(&self) -> (r: Option<String>)
        ensures
            r is Some <==> self.json_safe_fields(),
            r matches Some(s) ==> s@ == self.json_spec(),
    {
        let mut fields: Vec<(String, String)> = Vec::new();
        proof {
            assert(pairs_view(fields@) =~= Seq::<(Seq<char>, Seq<char>)>::empty());
        }
        push_req_i64(&mut fields, "extracted_count", self.extracted_count);
        proof {
            assert(pairs_view(fields@) =~= req_i64_field("extracted_count"@, self.extracted_count as int));
        }
        push_req_i64(&mut fields, "skipped_count", self.skipped_count);
        push_req_i64(&mut fields, "error_count", self.error_count);
        if !push_opt_str_list(&mut fields, "errors", &self.errors) {
            return None;
        }
        if !push_opt_str_list(&mut fields, "warnings", &self.warnings) {
            return None;
        }
        push_opt_i64(&mut fields, "checksums_verified", &self.checksums_verified);
        push_opt_i64(&mut fields, "total_bytes", &self.total_bytes);
        proof {
            assert(pairs_view(fields@) =~= self.fields_spec());
        }
        Some(build_object(&fields))
    }
}

impl CreateOptions {
    /// The members of this value's JSON encoding, in declaration order,
    /// absent optional fields omitted.
    pub open spec fn fields_spec(self) -> Seq<(Seq<char>, Seq<char>)> {
        opt_i64_field("compression_level"@, self.compression_level)
            + opt_str_list_field("include_patterns"@, self.include_patterns)
            + opt_str_list_field("exclude_patterns"@, self.exclude_patterns)
            + opt_str_field("checksum_algorithm"@, self.checksum_algorithm)
            + opt_bool_field("preserve_permissions"@, self.preserve_permissions)
            + opt_bool_field("follow_symlinks"@, self.follow_symlinks)
    }

    /// The exact JSON object this value encodes to.
    pub open spec fn json_spec(self) -> Seq<char> {
        json_object(self.fields_spec())
    }

    pub open spec fn json_safe_fields(self) -> bool {
        (match self.include_patterns {
            Some(items) => all_json_safe(strs_view(items@)),
            None => true,
        }) && (match self.exclude_patterns {
            Some(items) => all_json_safe(strs_view(items@)),
            None => true,
        }) && (match self.checksum_algorithm {
            Some(s) => json_safe(s@),
            None => true,
        })
    }

    /// Encodes this value as a JSON object, omitting absent optional
    /// fields entirely rather than writing null.
    pub fn to_json(&self) -> (r: Option<String>)
        ensures
            r is Some <==> self.json_safe_fields(),
            r matches Some(s) ==> s@ == self.json_spec(),
    {
        let mut fields: Vec<(String, String)> = Vec::new();
        proof {
            assert(pairs_view(fields@) =~= Seq::<(Seq<char>, Seq<char>)>::empty());
        }
        push_opt_i64(&mut fields, "compression_level", &self.compression_level);
        proof {
            assert(pairs_view(fields@) =~= opt_i64_field("compression_level"@, self.compression_level));
        }
        if !push_opt_str_list(&mut fields, "include_patterns", &self.include_patterns) {
            return None;
        }
        if !push_opt_str_list(&mut fields, "exclude_patterns", &self.exclude_patterns) {
            return None;
        }
        if !push_opt_str(&mut fields, "checksum_algorithm", &self.checksum_algorithm) {
            return None;
        }
        push_opt_bool(&mut fields, "preserve_permissions", &self.preserve_permissions);
        push_opt_bool(&mut fields, "follow_symlinks", &self.follow_symlinks);
        proof {
            assert(pairs_view(fields@) =~= self.fields_spec());
        }
        Some(build_object(&fields))
    }
}

impl ExtractOptions {
    /// The members of this value's JSON encoding, in declaration order,
    /// absent optional fields omitted.
    pub open spec fn fields_spec(self) -> Seq<(Seq<char>, Seq<char>)> {
        opt_str_field("overwrite"@, self.overwrite)
            + opt_bool_field("verify_checksums"@, self.verify_checksums)
            + opt_bool_field("preserve_permissions"@, self.preserve_permissions)
            + opt_str_list_field("include_patterns"@, self.include_patterns)
            + opt_i64_field("max_size"@, self.max_size)
            + opt_i64_field("max_entries"@, self.max_entries)
    }

    /// The exact JSON object this value encodes to.
    pub open spec fn json_spec(self) -> Seq<char> {
        json_object(self.fields_spec())
    }

    pub open spec fn json_safe_fields(self) -> bool {
        (match self.overwrite {
            Some(s) => json_safe(s@),
            None => true,
        }) && (match self.include_patterns {
            Some(items) => all_json_safe(strs_view(items@)),
            None => true,
        })
    }

    /// Encodes this value as a JSON object, omitting absent optional
    /// fields entirely rather than writing null.
    pub fn to_json(&self) -> (r: Option<String>)
        ensures
            r is Some <==> self.json_safe_fields(),
            r matches Some(s) ==> s@ == self.json_spec(),
    {
        let mut fields: Vec<(String, String)> = Vec::new();
        proof {
            assert(pairs_view(fields@) =~= Seq::<(Seq<char>, Seq<char>)>::empty());
        }
        if !push_opt_str(&mut fields, "overwrite", &self.overwrite) {
            return None;
        }
        proof {
            assert(pairs_view(fields@) =~= opt_str_field("overwrite"@, self.overwrite));
        }
        push_opt_bool(&mut fields, "verify_checksums", &self.verify_checksums);
        push_opt_bool(&mut fields, "preserve_permissions", &self.preserve_permissions);
        if !push_opt_str_list(&mut fields, "include_patterns", &self.include_patterns) {
            return None;
        }
        push_opt_i64(&mut fields, "max_size", &self.max_size);
        push_opt_i64(&mut fields, "max_entries", &self.max_entries);
        proof {
            assert(pairs_view(fields@) =~= self.fields_spec());
        }
        Some(build_object(&fields))
    }
}

impl ScanOptions {
    /// The members of this value's JSON encoding, in declaration order,
    /// absent optional fields omitted.
    pub open spec fn fields_spec(self) -> Seq<(Seq<char>, Seq<char>)> {
        opt_bool_field("include_metadata"@, self.include_metadata)
            + opt_str_list_field("entry_types"@, self.entry_types)
            + opt_i64_field("max_depth"@, self.max_depth)
            + opt_i64_field("max_entries"@, self.max_entries)
    }

    /// The exact JSON object this value encodes to.
    pub open spec fn json_spec(self) -> Seq<char> {
        json_object(self.fields_spec())
    }

    pub open spec fn json_safe_fields(self) -> bool {
        (match self.entry_types {
            Some(items) => all_json_safe(strs_view(items@)),
            None => true,
        })
    }

    /// Encodes this value as a JSON object, omitting absent optional
    /// fields entirely rather than writing null.
    pub fn to_json(&self) -> (r: Option<String>)
        ensures
            r is Some <==> self.json_safe_fields(),
            r matches Some(s) ==> s@ == self.json_spec(),
    {
        let mut fields: Vec<(String, String)> = Vec::new();
        proof {
            assert(pairs_view(fields@) =~= Seq::<(Seq<char>, Seq<char>)>::empty());
        }
        push_opt_bool(&mut fields, "include_metadata", &self.include_metadata);
        proof {
            assert(pairs_view(fields@) =~= opt_bool_field("include_metadata"@, self.include_metadata));
        }
        if !push_opt_str_list(&mut fields, "entry_types", &self.entry_types) {
            return None;
        }
        push_opt_i64(&mut fields, "max_depth", &self.max_depth);
        push_opt_i64(&mut fields, "max_entries", &self.max_entries);
        proof {
            assert(pairs_view(fields@) =~= self.fields_spec());
        }
        Some(build_object(&fields))
    }
}

} // verus!
