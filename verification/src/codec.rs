//! The interchange codec for the catalog enumerations.
//!
//! Every closed catalog binds each variant to a fixed wire tag.  Encoding
//! yields exactly that tag; decoding is a case-sensitive exact match that
//! rejects anything outside the declared set with `UnrecognizedVariant`.

use crate::json::is_json_safe;
use crate::json::json_safe;
use crate::json::json_string;
use crate::json::quote;
use vstd::prelude::*;
use vstd::string::StrSliceExecFns;
use vstd::string::StringExecFns;

verus! {

/// Why a decode call failed.  Decoding never substitutes a default: an
/// unknown tag or a value of the wrong JSON kind is surfaced to the caller
/// together with the offending text.
#[derive(Debug, Clone, PartialEq, Eq)]
pub enum DecodeError {
    /// The text is a well-formed tag but not in the declared set.
    UnrecognizedVariant(String),
    /// The text is not a JSON string at all.
    ShapeMismatch(String),
}

/// Character-for-character string equality, decided without trusting any
/// outside comparison routine.
pub fn str_eq(a: &str, b: &str) -> (r: bool)
    ensures
        r == (a@ == b@),
{
    let alen = a.unicode_len();
    let blen = b.unicode_len();
    if alen != blen {
        return false;
    }
    let mut i: usize = 0;
    while i < alen
        invariant
            alen == a@.len(),
            blen == b@.len(),
            alen == blen,
            i <= alen,
            forall|j: int| 0 <= j < i ==> a@[j] == b@[j],
        decreases alen - i,
    {
        if a.get_char(i) != b.get_char(i) {
            return false;
        }
        i += 1;
    }
    proof {
        assert(a@ =~= b@);
    }
    true
}

/// A closed catalog: a fixed set of variants, each with a stable wire tag.
///
/// `from_tag_spec` is the mathematical inverse of `tag_spec`; the round-trip
/// law `from_tag_spec(tag_spec(v)) == Some(v)` is proved by every
/// implementation, so serialize-then-deserialize reproduces the original
/// variant exactly.
pub trait Catalog: Sized + Copy {
    /// The wire tag of this variant.
    spec fn tag_spec(self) -> Seq<char>;

    /// The variant carrying the given tag, if the tag is in the declared set.
    spec fn from_tag_spec(s: Seq<char>) -> Option<Self>;

    /// Round-trip law: decoding a variant's own tag yields that variant.
    proof fn lemma_tag_round_trip(self)
        ensures
            Self::from_tag_spec(self.tag_spec()) == Some(self),
    ;

    /// Every declared tag can stand between JSON quotes without escaping.
    proof fn lemma_tag_well_formed(self)
        ensures
            json_safe(self.tag_spec()),
    ;

    /// The canonical string form of this variant.
    fn canonical_tag(self) -> (r: &'static str)
        ensures
            r@ == self.tag_spec(),
    ;

    /// Strict decode: exact, case-sensitive match against the declared tags.
    fn decode_tag(s: &str) -> (r: Result<Self, DecodeError>)
        ensures
            Self::from_tag_spec(s@) matches Some(v) ==> r == Ok::<Self, DecodeError>(v),
            Self::from_tag_spec(s@) is None ==> (r matches Err(e) && e matches
                DecodeError::UnrecognizedVariant(t) && t@ == s@),
    ;
}

/// A JSON string: surrounded by quotes, with an interior that needs no
/// escaping.  Tags never contain characters that need escaping, so this is
/// the exact shape a catalog value takes on the wire.
pub open spec fn json_framed(s: Seq<char>) -> bool {
    &&& s.len() >= 2
    &&& s[0] == '"'
    &&& s[s.len() - 1] == '"'
    &&& json_safe(s.subrange(1, s.len() - 1))
}

/// Encodes a catalog value as a JSON string: its tag between quotes.
pub fn encode_json<T: Catalog>(v: T) -> (r: String)
    ensures
        r@ == json_string(v.tag_spec()),
{
    quote(v.canonical_tag())
}

/// Decodes a catalog value from a JSON string.  A value that is not a JSON
/// string is a `ShapeMismatch`; a JSON string whose interior is not a
/// declared tag is an `UnrecognizedVariant`.
pub fn decode_json<T: Catalog>(s: &str) -> (r: Result<T, DecodeError>)
    ensures
        !json_framed(s@) ==> (r matches Err(e) && e matches DecodeError::ShapeMismatch(t) && t@
            == s@),
        json_framed(s@) ==> {
            let inner = s@.subrange(1, s@.len() - 1);
            &&& (T::from_tag_spec(inner) matches Some(v) ==> r == Ok::<T, DecodeError>(v))
            &&& (T::from_tag_spec(inner) is None ==> (r matches Err(e) && e matches
                DecodeError::UnrecognizedVariant(t) && t@ == inner))
        },
{
    let len = s.unicode_len();
    if len < 2 {
        return Err(DecodeError::ShapeMismatch(String::from_str(s)));
    }
    if s.get_char(0) != '"' || s.get_char(len - 1) != '"' {
        return Err(DecodeError::ShapeMismatch(String::from_str(s)));
    }
    let inner = s.substring_char(1, len - 1);
    if !is_json_safe(inner) {
        return Err(DecodeError::ShapeMismatch(String::from_str(s)));
    }
    T::decode_tag(inner)
}

/// Wire round-trip law: the JSON encoding of a catalog value is a framed
/// JSON string whose interior is exactly the value's tag, and that tag
/// decodes to exactly that value.  Together with the contracts of
/// `encode_json` and `decode_json`, serialize-then-deserialize reproduces
/// the original variant.
pub proof fn lemma_wire_round_trip<T: Catalog>(v: T)
    ensures
        json_framed(json_string(v.tag_spec())),
        json_string(v.tag_spec()).subrange(
            1,
            json_string(v.tag_spec()).len() - 1,
        ) == v.tag_spec(),
        T::from_tag_spec(v.tag_spec()) == Some(v),
{
    v.lemma_tag_well_formed();
    v.lemma_tag_round_trip();
    let encoded = json_string(v.tag_spec());
    assert(encoded.subrange(1, encoded.len() - 1) =~= v.tag_spec());
}

} // verus!
