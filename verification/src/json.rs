//! A small verified JSON emitter for the payload types of this crate.
//!
//! The wire format of every structured payload is a JSON object whose keys
//! are the declared wire names and whose optional fields are omitted
//! entirely when absent.  The spec functions here define the exact character
//! sequence of that encoding; the exec functions produce it and are proved
//! against those definitions.

use vstd::prelude::*;
use vstd::string::StrSliceExecFns;
use vstd::string::StringExecFns;

verus! {

/// A character sequence that may stand between the quotes of a JSON string
/// without escaping: no quote, no backslash, no control character.
pub open spec fn json_safe(s: Seq<char>) -> bool {
    forall|i: int| 0 <= i < s.len() ==> s[i] != '"' && s[i] != '\\' && s[i] as u32 >= 32
}

/// The JSON string encoding of a `json_safe` character sequence.
pub open spec fn json_string(s: Seq<char>) -> Seq<char> {
    seq!['"'] + s + seq!['"']
}

pub fn is_json_safe(s: &str) -> (r: bool)
    ensures
        r == json_safe(s@),
{
    let len = s.unicode_len();
    let mut i: usize = 0;
    while i < len
        invariant
            len == s@.len(),
            i <= len,
            forall|j: int| 0 <= j < i ==> s@[j] != '"' && s@[j] != '\\' && s@[j] as u32 >= 32,
        decreases len - i,
    {
        let c = s.get_char(i);
        if c == '"' || c == '\\' || (c as u32) < 32 {
            return false;
        }
        i += 1;
    }
    true
}

/// Wraps a string in JSON quotes without escaping anything.
pub fn quote(s: &str) -> (r: String)
    ensures
        r@ == json_string(s@),
{
    let mut r = String::from_str("\"");
    r.append(s);
    r.append("\"");
    proof {
        reveal_strlit("\"");
        assert("\""@ =~= seq!['"']);
        assert(r@ =~= json_string(s@));
    }
    r
}

pub open spec fn digit_char(d: int) -> char {
    if d == 0 {
        '0'
    } else if d == 1 {
        '1'
    } else if d == 2 {
        '2'
    } else if d == 3 {
        '3'
    } else if d == 4 {
        '4'
    } else if d == 5 {
        '5'
    } else if d == 6 {
        '6'
    } else if d == 7 {
        '7'
    } else if d == 8 {
        '8'
    } else {
        '9'
    }
}

/// The decimal digit sequence of a natural number, most significant first.
pub open spec fn dec_seq(n: nat) -> Seq<char>
    decreases n,
{
    if n < 10 {
        seq![digit_char(n as int)]
    } else {
        dec_seq(n / 10) + seq![digit_char((n % 10) as int)]
    }
}

/// The JSON number encoding of a (possibly negative) integer.
pub open spec fn int_seq(i: int) -> Seq<char> {
    if i < 0 {
        seq!['-'] + dec_seq((-i) as nat)
    } else {
        dec_seq(i as nat)
    }
}

fn digit_str(d: u64) -> (r: &'static str)
    requires
        d < 10,
    ensures
        r@ == seq![digit_char(d as int)],
{
    if d == 0 {
        proof {
            reveal_strlit("0");
            assert("0"@ =~= seq![digit_char(0int)]);
        }
        "0"
    } else if d == 1 {
        proof {
            reveal_strlit("1");
            assert("1"@ =~= seq![digit_char(1int)]);
        }
        "1"
    } else if d == 2 {
        proof {
            reveal_strlit("2");
            assert("2"@ =~= seq![digit_char(2int)]);
        }
        "2"
    } else if d == 3 {
        proof {
            reveal_strlit("3");
            assert("3"@ =~= seq![digit_char(3int)]);
        }
        "3"
    } else if d == 4 {
        proof {
            reveal_strlit("4");
            assert("4"@ =~= seq![digit_char(4int)]);
        }
        "4"
    } else if d == 5 {
        proof {
            reveal_strlit("5");
            assert("5"@ =~= seq![digit_char(5int)]);
        }
        "5"
    } else if d == 6 {
        proof {
            reveal_strlit("6");
            assert("6"@ =~= seq![digit_char(6int)]);
        }
        "6"
    } else if d == 7 {
        proof {
            reveal_strlit("7");
            assert("7"@ =~= seq![digit_char(7int)]);
        }
        "7"
    } else if d == 8 {
        proof {
            reveal_strlit("8");
            assert("8"@ =~= seq![digit_char(8int)]);
        }
        "8"
    } else {
        proof {
            reveal_strlit("9");
            assert("9"@ =~= seq![digit_char(9int)]);
        }
        "9"
    }
}

pub fn u64_to_string(n: u64) -> (r: String)
    ensures
        r@ == dec_seq(n as nat),
    decreases n,
{
    if n < 10 {
        String::from_str(digit_str(n))
    } else {
        proof {
            assert(n / 10 < n) by (nonlinear_arith)
                requires
                    n >= 10,
            ;
        }
        let mut r = u64_to_string(n / 10);
        r.append(digit_str(n % 10));
        r
    }
}

pub fn i64_to_string(i: i64) -> (r: String)
    ensures
        r@ == int_seq(i as int),
{
    if i >= 0 {
        u64_to_string(i as u64)
    } else {
        let m: u64 = ((-(i + 1)) as u64) + 1;
        let mut r = String::from_str("-");
        let digits = u64_to_string(m);
        r.append(digits.as_str());
        proof {
            reveal_strlit("-");
            assert("-"@ =~= seq!['-']);
            assert(m as nat == (-(i as int)) as nat);
            assert(r@ =~= int_seq(i as int));
        }
        r
    }
}

pub open spec fn bool_seq(b: bool) -> Seq<char> {
    if b {
        "true"@
    } else {
        "false"@
    }
}

pub fn bool_str(b: bool) -> (r: &'static str)
    ensures
        r@ == bool_seq(b),
{
    if b {
        "true"
    } else {
        "false"
    }
}

/// One `"key":value` member of a JSON object.
pub open spec fn member_seq(p: (Seq<char>, Seq<char>)) -> Seq<char> {
    json_string(p.0) + seq![':'] + p.1
}

/// The comma-separated members of a JSON object, in order.
pub open spec fn json_members(fields: Seq<(Seq<char>, Seq<char>)>) -> Seq<char>
    decreases fields.len(),
{
    if fields.len() == 0 {
        Seq::empty()
    } else if fields.len() == 1 {
        member_seq(fields[0])
    } else {
        member_seq(fields[0]) + seq![','] + json_members(fields.drop_first())
    }
}

/// The JSON object with the given members, in order.
pub open spec fn json_object(fields: Seq<(Seq<char>, Seq<char>)>) -> Seq<char> {
    seq!['{'] + json_members(fields) + seq!['}']
}

pub proof fn lemma_json_members_push(fields: Seq<(Seq<char>, Seq<char>)>, p: (Seq<char>, Seq<char>))
    ensures
        json_members(fields.push(p)) == if fields.len() == 0 {
            member_seq(p)
        } else {
            json_members(fields) + seq![','] + member_seq(p)
        },
    decreases fields.len(),
{
    let fp = fields.push(p);
    if fields.len() == 0 {
        assert(fp[0] == p);
    } else if fields.len() == 1 {
        assert(fp[0] == fields[0]);
        assert(fp.drop_first() =~= fields.drop_first().push(p));
        assert(fp.drop_first()[0] == p);
        assert(fp.drop_first().len() == 1);
        assert(json_members(fp.drop_first()) == member_seq(p));
    } else {
        assert(fp[0] == fields[0]);
        assert(fp.drop_first() =~= fields.drop_first().push(p));
        lemma_json_members_push(fields.drop_first(), p);
        assert(member_seq(fields[0]) + seq![','] + (json_members(fields.drop_first()) + seq![',']
            + member_seq(p)) =~= (member_seq(fields[0]) + seq![','] + json_members(
            fields.drop_first(),
        )) + seq![','] + member_seq(p));
    }
}

/// The views of a list of rendered `(key, value)` pairs.
pub open spec fn pairs_view(s: Seq<(String, String)>) -> Seq<(Seq<char>, Seq<char>)> {
    s.map_values(|p: (String, String)| (p.0@, p.1@))
}

pub proof fn lemma_pairs_view_push(s: Seq<(String, String)>, x: (String, String))
    ensures
        pairs_view(s.push(x)) == pairs_view(s).push((x.0@, x.1@)),
        pairs_view(s).push((x.0@, x.1@)) == pairs_view(s) + seq![(x.0@, x.1@)],
{
    assert(pairs_view(s.push(x)) =~= pairs_view(s).push((x.0@, x.1@)));
    assert(pairs_view(s).push((x.0@, x.1@)) =~= pairs_view(s) + seq![(x.0@, x.1@)]);
}

/// Renders `{"k":v,...}` from already-rendered members, in order.
pub fn build_object(fields: &Vec<(String, String)>) -> (r: String)
    ensures
        r@ == json_object(pairs_view(fields@)),
{
    let ghost pv = pairs_view(fields@);
    let mut out = String::from_str("{");
    proof {
        reveal_strlit("{");
        assert("{"@ =~= seq!['{']);
        assert(pv.take(0) =~= Seq::empty());
        assert(out@ =~= seq!['{'] + json_members(pv.take(0)));
    }
    let mut i: usize = 0;
    while i < fields.len()
        invariant
            i <= fields@.len(),
            pv == pairs_view(fields@),
            pv.len() == fields@.len(),
            out@ == seq!['{'] + json_members(pv.take(i as int)),
        decreases fields@.len() - i,
    {
        if i > 0 {
            out.append(",");
        }
        out.append("\"");
        out.append(fields[i].0.as_str());
        out.append("\":");
        out.append(fields[i].1.as_str());
        proof {
            reveal_strlit(",");
            reveal_strlit("\"");
            reveal_strlit("\":");
            assert(","@ =~= seq![',']);
            assert("\""@ =~= seq!['"']);
            assert("\":"@ =~= seq!['"', ':']);
            assert(pv[i as int] == (fields@[i as int].0@, fields@[i as int].1@));
            assert(pv.take(i as int).push(pv[i as int]) =~= pv.take(i + 1));
            lemma_json_members_push(pv.take(i as int), pv[i as int]);
            assert(out@ =~= seq!['{'] + json_members(pv.take(i + 1)));
        }
        i += 1;
    }
    out.append("}");
    proof {
        reveal_strlit("}");
        assert("}"@ =~= seq!['}']);
        assert(pv.take(fields@.len() as int) =~= pv);
        assert(out@ =~= json_object(pv));
    }
    out
}

/// The views of a list of strings.
pub open spec fn strs_view(s: Seq<String>) -> Seq<Seq<char>> {
    s.map_values(|x: String| x@)
}

pub open spec fn all_json_safe(items: Seq<Seq<char>>) -> bool {
    forall|i: int| 0 <= i < items.len() ==> json_safe(#[trigger] items[i])
}

/// The comma-separated elements of a JSON array of strings.
pub open spec fn string_items(items: Seq<Seq<char>>) -> Seq<char>
    decreases items.len(),
{
    if items.len() == 0 {
        Seq::empty()
    } else if items.len() == 1 {
        json_string(items[0])
    } else {
        json_string(items[0]) + seq![','] + string_items(items.drop_first())
    }
}

/// The JSON array of the given strings, in order.
pub open spec fn json_string_array(items: Seq<Seq<char>>) -> Seq<char> {
    seq!['['] + string_items(items) + seq![']']
}

pub proof fn lemma_string_items_push(items: Seq<Seq<char>>, x: Seq<char>)
    ensures
        string_items(items.push(x)) == if items.len() == 0 {
            json_string(x)
        } else {
            string_items(items) + seq![','] + json_string(x)
        },
    decreases items.len(),
{
    let ip = items.push(x);
    if items.len() == 0 {
        assert(ip[0] == x);
    } else if items.len() == 1 {
        assert(ip[0] == items[0]);
        assert(ip.drop_first() =~= items.drop_first().push(x));
        assert(ip.drop_first()[0] == x);
        assert(ip.drop_first().len() == 1);
        assert(string_items(ip.drop_first()) == json_string(x));
    } else {
        assert(ip[0] == items[0]);
        assert(ip.drop_first() =~= items.drop_first().push(x));
        lemma_string_items_push(items.drop_first(), x);
        assert(json_string(items[0]) + seq![','] + (string_items(items.drop_first()) + seq![',']
            + json_string(x)) =~= (json_string(items[0]) + seq![','] + string_items(
            items.drop_first(),
        )) + seq![','] + json_string(x));
    }
}

/// Renders `["a","b",...]`; refuses lists with characters that would need
/// escaping.
pub fn build_string_array(v: &Vec<String>) -> (r: Option<String>)
    ensures
        r is Some <==> all_json_safe(strs_view(v@)),
        r matches Some(s) ==> s@ == json_string_array(strs_view(v@)),
{
    let ghost sv = strs_view(v@);
    let mut out = String::from_str("[");
    proof {
        reveal_strlit("[");
        assert("["@ =~= seq!['[']);
        assert(sv.take(0) =~= Seq::empty());
        assert(out@ =~= seq!['['] + string_items(sv.take(0)));
    }
    let mut i: usize = 0;
    while i < v.len()
        invariant
            i <= v@.len(),
            sv == strs_view(v@),
            sv.len() == v@.len(),
            out@ == seq!['['] + string_items(sv.take(i as int)),
            forall|j: int| 0 <= j < i ==> json_safe(#[trigger] sv[j]),
        decreases v@.len() - i,
    {
        if !is_json_safe(v[i].as_str()) {
            proof {
                assert(sv[i as int] == v@[i as int]@);
                assert(!json_safe(sv[i as int]));
            }
            return None;
        }
        if i > 0 {
            out.append(",");
        }
        out.append("\"");
        out.append(v[i].as_str());
        out.append("\"");
        proof {
            reveal_strlit(",");
            reveal_strlit("\"");
            assert(","@ =~= seq![',']);
            assert("\""@ =~= seq!['"']);
            assert(sv[i as int] == v@[i as int]@);
            assert(sv.take(i as int).push(sv[i as int]) =~= sv.take(i + 1));
            lemma_string_items_push(sv.take(i as int), sv[i as int]);
            assert(out@ =~= seq!['['] + string_items(sv.take(i + 1)));
        }
        i += 1;
    }
    out.append("]");
    proof {
        reveal_strlit("]");
        assert("]"@ =~= seq![']']);
        assert(sv.take(v@.len() as int) =~= sv);
        assert(out@ =~= json_string_array(sv));
    }
    Some(out)
}

/// The comma-separated elements of a JSON array of byte values.
pub open spec fn byte_items(items: Seq<u8>) -> Seq<char>
    decreases items.len(),
{
    if items.len() == 0 {
        Seq::empty()
    } else if items.len() == 1 {
        dec_seq(items[0] as nat)
    } else {
        dec_seq(items[0] as nat) + seq![','] + byte_items(items.drop_first())
    }
}

/// The JSON array of the given bytes as decimal numbers, in order.
pub open spec fn json_byte_array(items: Seq<u8>) -> Seq<char> {
    seq!['['] + byte_items(items) + seq![']']
}

pub proof fn lemma_byte_items_push(items: Seq<u8>, x: u8)
    ensures
        byte_items(items.push(x)) == if items.len() == 0 {
            dec_seq(x as nat)
        } else {
            byte_items(items) + seq![','] + dec_seq(x as nat)
        },
    decreases items.len(),
{
    let ip = items.push(x);
    if items.len() == 0 {
        assert(ip[0] == x);
    } else if items.len() == 1 {
        assert(ip[0] == items[0]);
        assert(ip.drop_first() =~= items.drop_first().push(x));
        assert(ip.drop_first()[0] == x);
        assert(ip.drop_first().len() == 1);
        assert(byte_items(ip.drop_first()) == dec_seq(x as nat));
    } else {
        assert(ip[0] == items[0]);
        assert(ip.drop_first() =~= items.drop_first().push(x));
        lemma_byte_items_push(items.drop_first(), x);
        assert(dec_seq(items[0] as nat) + seq![','] + (byte_items(items.drop_first()) + seq![',']
            + dec_seq(x as nat)) =~= (dec_seq(items[0] as nat) + seq![','] + byte_items(
            items.drop_first(),
        )) + seq![','] + dec_seq(x as nat));
    }
}

/// Renders `[1,2,...]` from raw bytes.
pub fn build_byte_array(v: &Vec<u8>) -> (r: String)
    ensures
        r@ == json_byte_array(v@),
{
    let mut out = String::from_str("[");
    proof {
        reveal_strlit("[");
        assert("["@ =~= seq!['[']);
        assert(v@.take(0) =~= Seq::<u8>::empty());
        assert(out@ =~= seq!['['] + byte_items(v@.take(0)));
    }
    let mut i: usize = 0;
    while i < v.len()
        invariant
            i <= v@.len(),
            out@ == seq!['['] + byte_items(v@.take(i as int)),
        decreases v@.len() - i,
    {
        if i > 0 {
            out.append(",");
        }
        let digits = u64_to_string(v[i] as u64);
        out.append(digits.as_str());
        proof {
            reveal_strlit(",");
            assert(","@ =~= seq![',']);
            assert(v@.take(i as int).push(v@[i as int]) =~= v@.take(i + 1));
            lemma_byte_items_push(v@.take(i as int), v@[i as int]);
            assert(out@ =~= seq!['['] + byte_items(v@.take(i + 1)));
        }
        i += 1;
    }
    out.append("]");
    proof {
        reveal_strlit("]");
        assert("]"@ =~= seq![']']);
        assert(v@.take(v@.len() as int) =~= v@);
        assert(out@ =~= json_byte_array(v@));
    }
    out
}

// ---------------------------------------------------------------------------
// Field helpers.  A struct's encoding is the JSON object over the
// concatenation of the field sequences below, one per declared field, with
// absent optional fields contributing nothing.
// ---------------------------------------------------------------------------

pub open spec fn req_str_field(name: Seq<char>, v: Seq<char>) -> Seq<(Seq<char>, Seq<char>)> {
    seq![(name, json_string(v))]
}

pub open spec fn opt_str_field(name: Seq<char>, v: Option<String>) -> Seq<(Seq<char>, Seq<char>)> {
    match v {
        Some(s) => seq![(name, json_string(s@))],
        None => Seq::empty(),
    }
}

pub open spec fn req_i64_field(name: Seq<char>, v: int) -> Seq<(Seq<char>, Seq<char>)> {
    seq![(name, int_seq(v))]
}

pub open spec fn opt_i64_field(name: Seq<char>, v: Option<i64>) -> Seq<(Seq<char>, Seq<char>)> {
    match v {
        Some(i) => seq![(name, int_seq(i as int))],
        None => Seq::empty(),
    }
}

pub open spec fn req_bool_field(name: Seq<char>, v: bool) -> Seq<(Seq<char>, Seq<char>)> {
    seq![(name, bool_seq(v))]
}

pub open spec fn opt_bool_field(name: Seq<char>, v: Option<bool>) -> Seq<(Seq<char>, Seq<char>)> {
    match v {
        Some(b) => seq![(name, bool_seq(b))],
        None => Seq::empty(),
    }
}

pub open spec fn req_str_list_field(name: Seq<char>, v: Seq<Seq<char>>) -> Seq<
    (Seq<char>, Seq<char>),
> {
    seq![(name, json_string_array(v))]
}

pub open spec fn opt_str_list_field(name: Seq<char>, v: Option<Vec<String>>) -> Seq<
    (Seq<char>, Seq<char>),
> {
    match v {
        Some(items) => seq![(name, json_string_array(strs_view(items@)))],
        None => Seq::empty(),
    }
}

pub open spec fn opt_bytes_field(name: Seq<char>, v: Option<Vec<u8>>) -> Seq<
    (Seq<char>, Seq<char>),
> {
    match v {
        Some(b) => seq![(name, json_byte_array(b@))],
        None => Seq::empty(),
    }
}

pub fn push_req_str(fields: &mut Vec<(String, String)>, name: &str, v: &str) -> (ok: bool)
    ensures
        ok == json_safe(v@),
        ok ==> pairs_view(final(fields)@) == pairs_view(old(fields)@) + req_str_field(name@, v@),
{
    if !is_json_safe(v) {
        return false;
    }
    let key = String::from_str(name);
    let val = quote(v);
    proof {
        lemma_pairs_view_push(fields@, (key, val));
    }
    fields.push((key, val));
    true
}

pub fn push_opt_str(fields: &mut Vec<(String, String)>, name: &str, v: &Option<String>) -> (ok:
    bool)
    ensures
        ok == (match *v {
            Some(s) => json_safe(s@),
            None => true,
        }),
        ok ==> pairs_view(final(fields)@) == pairs_view(old(fields)@) + opt_str_field(name@, *v),
{
    match v {
        Some(s) => push_req_str(fields, name, s.as_str()),
        None => {
            proof {
                assert(pairs_view(fields@) =~= pairs_view(fields@) + opt_str_field(name@, *v));
            }
            true
        },
    }
}

pub fn push_req_i64(fields: &mut Vec<(String, String)>, name: &str, v: i64)
    ensures
        pairs_view(final(fields)@) == pairs_view(old(fields)@) + req_i64_field(name@, v as int),
{
    let key = String::from_str(name);
    let val = i64_to_string(v);
    proof {
        lemma_pairs_view_push(fields@, (key, val));
    }
    fields.push((key, val));
}

pub fn push_opt_i64(fields: &mut Vec<(String, String)>, name: &str, v: &Option<i64>)
    ensures
        pairs_view(final(fields)@) == pairs_view(old(fields)@) + opt_i64_field(name@, *v),
{
    match v {
        Some(i) => {
            let key = String::from_str(name);
            let val = i64_to_string(*i);
            proof {
                lemma_pairs_view_push(fields@, (key, val));
            }
            fields.push((key, val));
        },
        None => {
            proof {
                assert(pairs_view(fields@) =~= pairs_view(fields@) + opt_i64_field(name@, *v));
            }
        },
    }
}

pub fn push_req_bool(fields: &mut Vec<(String, String)>, name: &str, v: bool)
    ensures
        pairs_view(final(fields)@) == pairs_view(old(fields)@) + req_bool_field(name@, v),
{
    let key = String::from_str(name);
    let val = String::from_str(bool_str(v));
    proof {
        lemma_pairs_view_push(fields@, (key, val));
    }
    fields.push((key, val));
}

pub fn push_opt_bool(fields: &mut Vec<(String, String)>, name: &str, v: &Option<bool>)
    ensures
        pairs_view(final(fields)@) == pairs_view(old(fields)@) + opt_bool_field(name@, *v),
{
    match v {
        Some(b) => {
            let key = String::from_str(name);
            let val = String::from_str(bool_str(*b));
            proof {
                lemma_pairs_view_push(fields@, (key, val));
            }
            fields.push((key, val));
        },
        None => {
            proof {
                assert(pairs_view(fields@) =~= pairs_view(fields@) + opt_bool_field(name@, *v));
            }
        },
    }
}

pub fn push_req_str_list(fields: &mut Vec<(String, String)>, name: &str, v: &Vec<String>) -> (ok:
    bool)
    ensures
        ok == all_json_safe(strs_view(v@)),
        ok ==> pairs_view(final(fields)@) == pairs_view(old(fields)@) + req_str_list_field(
            name@,
            strs_view(v@),
        ),
{
    match build_string_array(v) {
        Some(val) => {
            let key = String::from_str(name);
            proof {
                lemma_pairs_view_push(fields@, (key, val));
            }
            fields.push((key, val));
            true
        },
        None => false,
    }
}

pub fn push_opt_str_list(
    fields: &mut Vec<(String, String)>,
    name: &str,
    v: &Option<Vec<String>>,
) -> (ok: bool)
    ensures
        ok == (match *v {
            Some(items) => all_json_safe(strs_view(items@)),
            None => true,
        }),
        ok ==> pairs_view(final(fields)@) == pairs_view(old(fields)@) + opt_str_list_field(
            name@,
            *v,
        ),
{
    match v {
        Some(items) => push_req_str_list(fields, name, items),
        None => {
            proof {
                assert(pairs_view(fields@) =~= pairs_view(fields@) + opt_str_list_field(name@, *v));
            }
            true
        },
    }
}

pub fn push_opt_bytes(fields: &mut Vec<(String, String)>, name: &str, v: &Option<Vec<u8>>)
    ensures
        pairs_view(final(fields)@) == pairs_view(old(fields)@) + opt_bytes_field(name@, *v),
{
    match v {
        Some(b) => {
            let key = String::from_str(name);
            let val = build_byte_array(b);
            proof {
                lemma_pairs_view_push(fields@, (key, val));
            }
            fields.push((key, val));
        },
        None => {
            proof {
                assert(pairs_view(fields@) =~= pairs_view(fields@) + opt_bytes_field(name@, *v));
            }
        },
    }
}

} // verus!
