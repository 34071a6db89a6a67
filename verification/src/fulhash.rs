//! The hashing catalog: supported digest algorithms and the standard
//! digest payload.
//!
//! A digest carries its algorithm tag, the lowercase hexadecimal form of
//! the digest bytes, and a canonical `"<algorithm>:<hex>"` string; the
//! constructors here establish that shape and the hex/byte correspondence.

use crate::codec::Catalog;
use crate::codec::DecodeError;
use crate::codec::str_eq;
use crate::json::build_object;
use crate::json::json_object;
use crate::json::json_safe;
use crate::json::opt_bytes_field;
use crate::json::pairs_view;
use crate::json::push_opt_bytes;
use crate::json::push_req_str;
use crate::json::req_str_field;
use vstd::prelude::*;
use vstd::string::StrSliceExecFns;
use vstd::string::StringExecFns;

verus! {

/// Catalog version accompanying persisted or transmitted payloads.
pub const FULHASH_VERSION: &'static str = "v1.0.0";

/// A supported hashing algorithm, named by its wire tag.
#[derive(Debug, Clone, Copy, PartialEq, Eq, Hash, Structural)]
pub enum Algorithm {
    /// Fast non-cryptographic hash (default)
    Xxh3128,
    /// Cryptographic security standard
    Sha256,
    /// 32-bit Cyclic Redundancy Check for legacy format interoperability
    Crc32,
    /// 32-bit CRC (Castagnoli), hardware accelerated
    Crc32c,
}

impl Catalog for Algorithm {
    open spec fn tag_spec(self) -> Seq<char> {
        match self {
            Algorithm::Xxh3128 => "xxh3-128"@,
            Algorithm::Sha256 => "sha256"@,
            Algorithm::Crc32 => "crc32"@,
            Algorithm::Crc32c => "crc32c"@,
        }
    }

    open spec fn from_tag_spec(s: Seq<char>) -> Option<Algorithm> {
        if s == Algorithm::Xxh3128.tag_spec() {
            Some(Algorithm::Xxh3128)
        } else if s == Algorithm::Sha256.tag_spec() {
            Some(Algorithm::Sha256)
        } else if s == Algorithm::Crc32.tag_spec() {
            Some(Algorithm::Crc32)
        } else if s == Algorithm::Crc32c.tag_spec() {
            Some(Algorithm::Crc32c)
        } else {
            None
        }
    }

    proof fn lemma_tag_round_trip(self) {
        reveal_strlit("xxh3-128");
        assert("xxh3-128"@.len() == 8);
        reveal_strlit("sha256");
        assert("sha256"@.len() == 6);
        reveal_strlit("crc32");
        assert("crc32"@.len() == 5);
        reveal_strlit("crc32c");
        assert("crc32c"@.len() == 6);
        assert("crc32c"@[0] == 'c');
        assert("sha256"@[0] == 's');
        match self {
            Algorithm::Xxh3128 => {
                assert(Self::from_tag_spec(Algorithm::Xxh3128.tag_spec()) == Some(Algorithm::Xxh3128));
            },
            Algorithm::Sha256 => {
                assert("sha256"@ != "xxh3-128"@);
                assert(Self::from_tag_spec(Algorithm::Sha256.tag_spec()) == Some(Algorithm::Sha256));
            },
            Algorithm::Crc32 => {
                assert("crc32"@ != "xxh3-128"@);
                assert("crc32"@ != "sha256"@);
                assert(Self::from_tag_spec(Algorithm::Crc32.tag_spec()) == Some(Algorithm::Crc32));
            },
            Algorithm::Crc32c => {
                assert("crc32c"@ != "xxh3-128"@);
                assert("crc32c"@ != "sha256"@);
                assert("crc32c"@ != "crc32"@);
                assert(Self::from_tag_spec(Algorithm::Crc32c.tag_spec()) == Some(Algorithm::Crc32c));
            },
        }
    }

    proof fn lemma_tag_well_formed(self) {
        reveal_strlit("xxh3-128");
        assert("xxh3-128"@.len() == 8);
        reveal_strlit("sha256");
        assert("sha256"@.len() == 6);
        reveal_strlit("crc32");
        assert("crc32"@.len() == 5);
        reveal_strlit("crc32c");
        assert("crc32c"@.len() == 6);
        match self {
            Algorithm::Xxh3128 => {
                assert(json_safe("xxh3-128"@));
            },
            Algorithm::Sha256 => {
                assert(json_safe("sha256"@));
            },
            Algorithm::Crc32 => {
                assert(json_safe("crc32"@));
            },
            Algorithm::Crc32c => {
                assert(json_safe("crc32c"@));
            },
        }
    }

    fn canonical_tag(self) -> (r: &'static str) {
        match self {
            Algorithm::Xxh3128 => "xxh3-128",
            Algorithm::Sha256 => "sha256",
            Algorithm::Crc32 => "crc32",
            Algorithm::Crc32c => "crc32c",
        }
    }

    fn decode_tag(s: &str) -> (r: Result<Algorithm, DecodeError>) {
        if str_eq(s, "xxh3-128") {
            Ok(Algorithm::Xxh3128)
        } else if str_eq(s, "sha256") {
            Ok(Algorithm::Sha256)
        } else if str_eq(s, "crc32") {
            Ok(Algorithm::Crc32)
        } else if str_eq(s, "crc32c") {
            Ok(Algorithm::Crc32c)
        } else {
            Err(DecodeError::UnrecognizedVariant(String::from_str(s)))
        }
    }
}

/// The lowercase hexadecimal digit for a value below sixteen.
pub open spec fn hex_digit_char(d: int) -> char {
    if d == 0 {
        '0'
    } else if d == 1 {
        '1'
    } else if d == 2 {
        '2'
    } else if d == 3 {
        '3'
    } else if d == 4 {
        '4'
    } else if d == 5 {
        '5'
    } else if d == 6 {
        '6'
    } else if d == 7 {
        '7'
    } else if d == 8 {
        '8'
    } else if d == 9 {
        '9'
    } else if d == 10 {
        'a'
    } else if d == 11 {
        'b'
    } else if d == 12 {
        'c'
    } else if d == 13 {
        'd'
    } else if d == 14 {
        'e'
    } else {
        'f'
    }
}

pub open spec fn is_lower_hex_char(c: char) -> bool {
    (48 <= c as u32 <= 57) || (97 <= c as u32 <= 102)
}

/// A non-empty all-lowercase-hex character sequence.
pub open spec fn is_lower_hex(s: Seq<char>) -> bool {
    forall|i: int| 0 <= i < s.len() ==> is_lower_hex_char(#[trigger] s[i])
}

/// The lowercase hexadecimal rendering of a byte sequence, two digits per
/// byte, most significant nibble first.
pub open spec fn hex_of(b: Seq<u8>) -> Seq<char>
    decreases b.len(),
{
    if b.len() == 0 {
        Seq::empty()
    } else {
        hex_of(b.drop_last()) + seq![
            hex_digit_char(b.last() as int / 16),
            hex_digit_char(b.last() as int % 16),
        ]
    }
}

pub proof fn lemma_hex_of_props(b: Seq<u8>)
    ensures
        hex_of(b).len() == 2 * b.len(),
        is_lower_hex(hex_of(b)),
    decreases b.len(),
{
    if b.len() > 0 {
        lemma_hex_of_props(b.drop_last());
        assert forall|d: int| 0 <= d < 16 implies is_lower_hex_char(#[trigger] hex_digit_char(d)) by {}
    }
}

fn hex_digit_str(d: u8) -> (r: &'static str)
    requires
        d < 16,
    ensures
        r@ == seq![hex_digit_char(d as int)],
{
    if d < 10 {
        digit_decimal_str(d)
    } else if d == 10 {
        proof {
            reveal_strlit("a");
            assert("a"@ =~= seq![hex_digit_char(10int)]);
        }
        "a"
    } else if d == 11 {
        proof {
            reveal_strlit("b");
            assert("b"@ =~= seq![hex_digit_char(11int)]);
        }
        "b"
    } else if d == 12 {
        proof {
            reveal_strlit("c");
            assert("c"@ =~= seq![hex_digit_char(12int)]);
        }
        "c"
    } else if d == 13 {
        proof {
            reveal_strlit("d");
            assert("d"@ =~= seq![hex_digit_char(13int)]);
        }
        "d"
    } else if d == 14 {
        proof {
            reveal_strlit("e");
            assert("e"@ =~= seq![hex_digit_char(14int)]);
        }
        "e"
    } else {
        proof {
            reveal_strlit("f");
            assert("f"@ =~= seq![hex_digit_char(15int)]);
        }
        "f"
    }
}

fn digit_decimal_str(d: u8) -> (r: &'static str)
    requires
        d < 10,
    ensures
        r@ == seq![hex_digit_char(d as int)],
{
    if d == 0 {
        proof {
            reveal_strlit("0");
            assert("0"@ =~= seq![hex_digit_char(0int)]);
        }
        "0"
    } else if d == 1 {
        proof {
            reveal_strlit("1");
            assert("1"@ =~= seq![hex_digit_char(1int)]);
        }
        "1"
    } else if d == 2 {
        proof {
            reveal_strlit("2");
            assert("2"@ =~= seq![hex_digit_char(2int)]);
        }
        "2"
    } else if d == 3 {
        proof {
            reveal_strlit("3");
            assert("3"@ =~= seq![hex_digit_char(3int)]);
        }
        "3"
    } else if d == 4 {
        proof {
            reveal_strlit("4");
            assert("4"@ =~= seq![hex_digit_char(4int)]);
        }
        "4"
    } else if d == 5 {
        proof {
            reveal_strlit("5");
            assert("5"@ =~= seq![hex_digit_char(5int)]);
        }
        "5"
    } else if d == 6 {
        proof {
            reveal_strlit("6");
            assert("6"@ =~= seq![hex_digit_char(6int)]);
        }
        "6"
    } else if d == 7 {
        proof {
            reveal_strlit("7");
            assert("7"@ =~= seq![hex_digit_char(7int)]);
        }
        "7"
    } else if d == 8 {
        proof {
            reveal_strlit("8");
            assert("8"@ =~= seq![hex_digit_char(8int)]);
        }
        "8"
    } else {
        proof {
            reveal_strlit("9");
            assert("9"@ =~= seq![hex_digit_char(9int)]);
        }
        "9"
    }
}

/// Renders bytes as lowercase hexadecimal, two digits per byte.
pub fn bytes_to_hex(b: &Vec<u8>) -> (r: String)
    ensures
        r@ == hex_of(b@),
{
    let mut out = String::new();
    proof {
        assert(b@.take(0) =~= Seq::<u8>::empty());
        assert(out@ =~= hex_of(b@.take(0)));
    }
    let mut i: usize = 0;
    while i < b.len()
        invariant
            i <= b@.len(),
            out@ == hex_of(b@.take(i as int)),
        decreases b@.len() - i,
    {
        let byte = b[i];
        out.append(hex_digit_str(byte / 16));
        out.append(hex_digit_str(byte % 16));
        proof {
            assert(b@.take(i + 1).drop_last() =~= b@.take(i as int));
            assert(b@.take(i + 1).last() == b@[i as int]);
            assert(out@ =~= hex_of(b@.take(i + 1)));
        }
        i += 1;
    }
    proof {
        assert(b@.take(b@.len() as int) =~= b@);
    }
    out
}

/// Checks that every character is a lowercase hexadecimal digit.
pub fn hex_chars_ok(s: &str) -> (r: bool)
    ensures
        r == is_lower_hex(s@),
{
    let len = s.unicode_len();
    let mut i: usize = 0;
    while i < len
        invariant
            len == s@.len(),
            i <= len,
            forall|j: int| 0 <= j < i ==> is_lower_hex_char(#[trigger] s@[j]),
        decreases len - i,
    {
        let c = s.get_char(i);
        let u = c as u32;
        if !((48 <= u && u <= 57) || (97 <= u && u <= 102)) {
            return false;
        }
        i += 1;
    }
    true
}

/// The standard digest payload returned by hashing helpers.
#[derive(Debug, Clone, PartialEq)]
pub struct Digest {
    /// Hash algorithm identifier.
    pub algorithm: String,
    /// Lowercase hexadecimal representation of the digest.
    pub hex: String,
    /// Canonical string representation `<algorithm>:<hex>`.
    pub formatted: String,
    /// Raw digest bytes (optional).
    pub bytes: Option<Vec<u8>>,
}

impl Digest {
    /// The invariant every constructed digest satisfies: the algorithm is
    /// a declared tag of the hashing catalog; the canonical string is
    /// exactly `algorithm`, a colon, then `hex`; the hex part is non-empty
    /// lowercase hexadecimal; and when the raw bytes are present the hex
    /// part renders exactly those bytes.
    pub open spec fn wf(self) -> bool {
        &&& Algorithm::from_tag_spec(self.algorithm@) is Some
        &&& self.formatted@ == self.algorithm@ + seq![':'] + self.hex@
        &&& self.hex@.len() > 0
        &&& is_lower_hex(self.hex@)
        &&& match self.bytes {
            Some(b) => self.hex@ == hex_of(b@),
            None => true,
        }
    }

    /// Builds a digest from an already-rendered hex string.  The empty hex
    /// string and anything outside lowercase hexadecimal are rejected.
    pub fn new(algorithm: Algorithm, hex: String) -> (r: Option<Digest>)
        ensures
            r is Some <==> (hex@.len() > 0 && is_lower_hex(hex@)),
            r matches Some(d) ==> {
                &&& d.wf()
                &&& d.algorithm@ == algorithm.tag_spec()
                &&& d.hex@ == hex@
                &&& d.formatted@ == algorithm.tag_spec() + seq![':'] + hex@
                &&& d.bytes is None
            },
    {
        if hex.as_str().unicode_len() == 0 {
            return None;
        }
        if !hex_chars_ok(hex.as_str()) {
            return None;
        }
        let tag = algorithm.canonical_tag();
        let algorithm_string = String::from_str(tag);
        let mut formatted = String::from_str(tag);
        formatted.append(":");
        formatted.append(hex.as_str());
        proof {
            reveal_strlit(":");
            assert(":"@ =~= seq![':']);
            assert(formatted@ =~= algorithm.tag_spec() + seq![':'] + hex@);
            algorithm.lemma_tag_round_trip();
        }
        Some(
            Digest {
                algorithm: algorithm_string,
                hex,
                formatted,
                bytes: None,
            },
        )
    }

    /// Builds a digest from raw bytes, rendering the hex part itself.
    /// An empty byte sequence is rejected.
    pub fn from_bytes(algorithm: Algorithm, bytes: Vec<u8>) -> (r: Option<Digest>)
        ensures
            r is Some <==> bytes@.len() > 0,
            r matches Some(d) ==> {
                &&& d.wf()
                &&& d.algorithm@ == algorithm.tag_spec()
                &&& d.hex@ == hex_of(bytes@)
                &&& d.hex@.len() == 2 * bytes@.len()
                &&& d.bytes == Some(bytes)
            },
    {
        if bytes.len() == 0 {
            return None;
        }
        let hex = bytes_to_hex(&bytes);
        proof {
            lemma_hex_of_props(bytes@);
        }
        let tag = algorithm.canonical_tag();
        let algorithm_string = String::from_str(tag);
        let mut formatted = String::from_str(tag);
        formatted.append(":");
        formatted.append(hex.as_str());
        proof {
            reveal_strlit(":");
            assert(":"@ =~= seq![':']);
            assert(formatted@ =~= algorithm.tag_spec() + seq![':'] + hex_of(bytes@));
            algorithm.lemma_tag_round_trip();
        }
        Some(
            Digest {
                algorithm: algorithm_string,
                hex,
                formatted,
                bytes: Some(bytes),
            },
        )
    }

    /// The wire fields of a digest that this layer accepts: a declared
    /// algorithm tag, non-empty lowercase hex, and a canonical string that
    /// is exactly the tag, a colon, then the hex.
    pub open spec fn fields_ok(algorithm: Seq<char>, hex: Seq<char>, formatted: Seq<char>) -> bool {
        &&& Algorithm::from_tag_spec(algorithm) is Some
        &&& hex.len() > 0
        &&& is_lower_hex(hex)
        &&& formatted == algorithm + seq![':'] + hex
    }

    /// Validates and rebuilds a digest from already-split wire fields (the
    /// JSON shape itself is handled outside this layer).  An unknown
    /// algorithm tag, an empty or non-hex `hex`, or a canonical string
    /// that does not match are each rejected with the offending field.
    pub fn from_fields(algorithm: String, hex: String, formatted: String) -> (r: Result<
        Digest,
        DecodeError,
    >)
        ensures
            Digest::fields_ok(algorithm@, hex@, formatted@) ==> (r matches Ok(d) && d.wf()
                && d.algorithm@ == algorithm@ && d.hex@ == hex@ && d.formatted@ == formatted@
                && d.bytes is None),
            Algorithm::from_tag_spec(algorithm@) is None ==> (r matches Err(e) && e matches
                DecodeError::UnrecognizedVariant(t) && t@ == algorithm@),
            Algorithm::from_tag_spec(algorithm@) is Some && !(hex@.len() > 0 && is_lower_hex(hex@))
                ==> (r matches Err(e) && e matches DecodeError::ShapeMismatch(t) && t@ == hex@),
            Algorithm::from_tag_spec(algorithm@) is Some && hex@.len() > 0 && is_lower_hex(hex@)
                && formatted@ != algorithm@ + seq![':'] + hex@ ==> (r matches Err(e) && e matches
                DecodeError::ShapeMismatch(t) && t@ == formatted@),
    {
        if Algorithm::decode_tag(algorithm.as_str()).is_err() {
            return Err(DecodeError::UnrecognizedVariant(algorithm));
        }
        if hex.as_str().unicode_len() == 0 || !hex_chars_ok(hex.as_str()) {
            return Err(DecodeError::ShapeMismatch(hex));
        }
        let mut expected = String::from_str(algorithm.as_str());
        expected.append(":");
        expected.append(hex.as_str());
        proof {
            reveal_strlit(":");
            assert(":"@ =~= seq![':']);
            assert(expected@ =~= algorithm@ + seq![':'] + hex@);
        }
        if !str_eq(formatted.as_str(), expected.as_str()) {
            return Err(DecodeError::ShapeMismatch(formatted));
        }
        Ok(Digest { algorithm, hex, formatted, bytes: None })
    }

    /// The members of this digest's JSON encoding, in declaration order.
    pub open spec fn fields_spec(self) -> Seq<(Seq<char>, Seq<char>)> {
        req_str_field("algorithm"@, self.algorithm@) + req_str_field("hex"@, self.hex@)
            + req_str_field("formatted"@, self.formatted@) + opt_bytes_field("bytes"@, self.bytes)
    }

    /// The exact JSON object this digest encodes to.
    pub open spec fn json_spec(self) -> Seq<char> {
        json_object(self.fields_spec())
    }

    pub open spec fn json_safe_fields(self) -> bool {
        json_safe(self.algorithm@) && json_safe(self.hex@) && json_safe(self.formatted@)
    }

    /// Encodes this digest as a JSON object, omitting absent bytes.
    pub fn to_json(&self) -> (r: Option<String>)
        ensures
            r is Some <==> self.json_safe_fields(),
            r matches Some(s) ==> s@ == self.json_spec(),
    {
        let mut fields: Vec<(String, String)> = Vec::new();
        proof {
            assert(pairs_view(fields@) =~= Seq::<(Seq<char>, Seq<char>)>::empty());
        }
        if !push_req_str(&mut fields, "algorithm", self.algorithm.as_str()) {
            return None;
        }
        proof {
            assert(pairs_view(fields@) =~= req_str_field("algorithm"@, self.algorithm@));
        }
        if !push_req_str(&mut fields, "hex", self.hex.as_str()) {
            return None;
        }
        if !push_req_str(&mut fields, "formatted", self.formatted.as_str()) {
            return None;
        }
        push_opt_bytes(&mut fields, "bytes", &self.bytes);
        proof {
            assert(pairs_view(fields@) =~= self.fields_spec());
        }
        Some(build_object(&fields))
    }
}

/// A well-formed digest's own wire fields are accepted by the field
/// validator: together with the contract of `Digest::from_fields`,
/// splitting a well-formed digest into its fields and validating them
/// again rebuilds it with the same algorithm, hex and canonical string.
pub proof fn lemma_digest_fields_round_trip(d: Digest)
    requires
        d.wf(),
    ensures
        Digest::fields_ok(d.algorithm@, d.hex@, d.formatted@),
{
}

} // verus!
