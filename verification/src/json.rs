//! The library's model of JSON documents.
//!
//! Parsing text into a document is the standard codec's job
//! (serde_json, behind a trusted wrapper); everything that reads a
//! parsed document — field lookup, the permissive typed field
//! extractors that the resource decoders build on, and the escaping
//! used when the library frames a JSON body of its own — is verified
//! here.
//!
//! The decode policy, applied uniformly by the extractors: a missing
//! field deserializes to its type's zero value, a present field of
//! the wrong shape is a `DecodeError`, and extra fields are ignored.

use vstd::prelude::*;

use crate::errors::Error;

verus! {

/// One JSON value, as the library sees it.  The modeled API's
/// numbers are unsigned integers; a parsed number that does not fit
/// `u64` is carried as `Null`.
#[derive(Debug)]
pub enum Json {
    Null,
    Bool(bool),
    Num(u64),
    Str(String),
    Arr(Vec<Json>),
    Obj(Vec<(String, Json)>),
}

#[verifier::external_type_specification]
#[verifier::external_body]
pub struct ExValue(serde_json::Value);

/// What parsing `s` as a JSON document yields, in the library's
/// model, or `None` where `s` is not valid JSON.  A deterministic
/// function of the text alone.
pub uninterp spec fn json_parsed(s: Seq<char>) -> Option<Json>;

/// Relies on `serde_json::from_str::<serde_json::Value>`: parses the
/// text as one JSON document, deterministically in the text alone.
#[verifier::external_body]
pub fn parse_json(s: &str) -> (r: Option<Json>)
    ensures
        r == json_parsed(s@),
{
    match serde_json::from_str::<serde_json::Value>(s) {
        Ok(v) => Some(json_of_value(&v)),
        Err(_) => None,
    }
}

/// Relies on `serde_json::Value`: carries each node of a parsed
/// document over into the library's model, one for one; a number
/// outside the `u64` range becomes `Null`.
#[verifier::external_body]
fn json_of_value(v: &serde_json::Value) -> Json {
    match v {
        serde_json::Value::Null => Json::Null,
        serde_json::Value::Bool(b) => Json::Bool(*b),
        serde_json::Value::Number(n) => match n.as_u64() {
            Some(u) => Json::Num(u),
            None => Json::Null,
        },
        serde_json::Value::String(s) => Json::Str(s.clone()),
        serde_json::Value::Array(a) => Json::Arr(a.iter().map(json_of_value).collect()),
        serde_json::Value::Object(o) => Json::Obj(
            o.iter().map(|p| (p.0.clone(), json_of_value(p.1))).collect(),
        ),
    }
}

/// The value of the first member named `key`, or `None` where the
/// object has no such member.
pub open spec fn lookup(pairs: Seq<(String, Json)>, key: Seq<char>) -> Option<Json>
    decreases pairs.len(),
{
    if pairs.len() == 0 {
        None
    } else if pairs[0].0@ == key {
        Some(pairs[0].1)
    } else {
        lookup(pairs.drop_first(), key)
    }
}

/// Finds the member named `key` of an object's member list.
pub fn obj_get<'a>(pairs: &'a Vec<(String, Json)>, key: &str) -> (r: Option<&'a Json>)
    ensures
        match r {
            Some(j) => lookup(pairs@, key@) == Some(*j),
            None => lookup(pairs@, key@) is None,
        },
{
    let k = key.to_owned();
    proof {
        assert(pairs@.skip(0) =~= pairs@);
    }
    let mut i: usize = 0;
    while i < pairs.len()
        invariant
            i <= pairs.len(),
            k@ == key@,
            lookup(pairs@, key@) == lookup(pairs@.skip(i as int), key@),
        decreases pairs.len() - i,
    {
        proof {
            assert(pairs@.skip(i as int)[0] == pairs@[i as int]);
            assert(pairs@.skip(i as int).drop_first() =~= pairs@.skip(i as int + 1));
        }
        if pairs[i].0 == k {
            return Some(&pairs[i].1);
        }
        i = i + 1;
    }
    proof {
        assert(pairs@.skip(i as int) =~= Seq::<(String, Json)>::empty());
    }
    None
}

/// A string field: missing means the empty string; anything but a
/// string is a mismatch.
pub open spec fn spec_str_field(pairs: Seq<(String, Json)>, key: Seq<char>) -> Option<Seq<char>> {
    match lookup(pairs, key) {
        None => Some(Seq::empty()),
        Some(Json::Str(s)) => Some(s@),
        Some(_) => None,
    }
}

/// Extracts a string field under the permissive decode policy.
pub fn str_field(pairs: &Vec<(String, Json)>, key: &str) -> (r: Result<String, Error>)
    ensures
        match r {
            Ok(s) => spec_str_field(pairs@, key@) == Some(s@),
            Err(e) => e == Error::DecodeError && spec_str_field(pairs@, key@) is None,
        },
{
    match obj_get(pairs, key) {
        None => Ok(String::new()),
        Some(Json::Str(s)) => Ok(s.clone()),
        Some(_) => Err(Error::DecodeError),
    }
}

/// An unsigned integer field: missing means zero; a number beyond
/// `u32` or anything but a number is a mismatch.
pub open spec fn spec_u32_field(pairs: Seq<(String, Json)>, key: Seq<char>) -> Option<u32> {
    match lookup(pairs, key) {
        None => Some(0),
        Some(Json::Num(n)) => if n <= u32::MAX as u64 {
            Some(n as u32)
        } else {
            None
        },
        Some(_) => None,
    }
}

/// Extracts a `u32` field under the permissive decode policy.
pub fn u32_field(pairs: &Vec<(String, Json)>, key: &str) -> (r: Result<u32, Error>)
    ensures
        match r {
            Ok(n) => spec_u32_field(pairs@, key@) == Some(n),
            Err(e) => e == Error::DecodeError && spec_u32_field(pairs@, key@) is None,
        },
{
    match obj_get(pairs, key) {
        None => Ok(0),
        Some(Json::Num(n)) => {
            if *n <= u32::MAX as u64 {
                Ok(*n as u32)
            } else {
                Err(Error::DecodeError)
            }
        },
        Some(_) => Err(Error::DecodeError),
    }
}

/// A boolean field: missing means `false`; anything but a boolean is
/// a mismatch.
pub open spec fn spec_bool_field(pairs: Seq<(String, Json)>, key: Seq<char>) -> Option<bool> {
    match lookup(pairs, key) {
        None => Some(false),
        Some(Json::Bool(b)) => Some(b),
        Some(_) => None,
    }
}

/// Extracts a boolean field under the permissive decode policy.
pub fn bool_field(pairs: &Vec<(String, Json)>, key: &str) -> (r: Result<bool, Error>)
    ensures
        match r {
            Ok(b) => spec_bool_field(pairs@, key@) == Some(b),
            Err(e) => e == Error::DecodeError && spec_bool_field(pairs@, key@) is None,
        },
{
    match obj_get(pairs, key) {
        None => Ok(false),
        Some(Json::Bool(b)) => Ok(*b),
        Some(_) => Err(Error::DecodeError),
    }
}

/// An optional boolean field: missing or `null` means absent.
pub open spec fn spec_opt_bool_field(pairs: Seq<(String, Json)>, key: Seq<char>) -> Option<
    Option<bool>,
> {
    match lookup(pairs, key) {
        None => Some(None),
        Some(Json::Null) => Some(None),
        Some(Json::Bool(b)) => Some(Some(b)),
        Some(_) => None,
    }
}

/// Extracts an optional boolean field.
pub fn opt_bool_field(pairs: &Vec<(String, Json)>, key: &str) -> (r: Result<Option<bool>, Error>)
    ensures
        match r {
            Ok(b) => spec_opt_bool_field(pairs@, key@) == Some(b.deep_view()),
            Err(e) => e == Error::DecodeError && spec_opt_bool_field(pairs@, key@) is None,
        },
{
    match obj_get(pairs, key) {
        None => Ok(None),
        Some(Json::Null) => Ok(None),
        Some(Json::Bool(b)) => Ok(Some(*b)),
        Some(_) => Err(Error::DecodeError),
    }
}

/// An optional string field: missing or `null` means absent.
pub open spec fn spec_opt_str_field(pairs: Seq<(String, Json)>, key: Seq<char>) -> Option<
    Option<Seq<char>>,
> {
    match lookup(pairs, key) {
        None => Some(None),
        Some(Json::Null) => Some(None),
        Some(Json::Str(s)) => Some(Some(s@)),
        Some(_) => None,
    }
}

/// Extracts an optional string field.
pub fn opt_str_field(pairs: &Vec<(String, Json)>, key: &str) -> (r: Result<Option<String>, Error>)
    ensures
        match r {
            Ok(s) => spec_opt_str_field(pairs@, key@) == Some(s.deep_view()),
            Err(e) => e == Error::DecodeError && spec_opt_str_field(pairs@, key@) is None,
        },
{
    match obj_get(pairs, key) {
        None => Ok(None),
        Some(Json::Null) => Ok(None),
        Some(Json::Str(s)) => Ok(Some(s.clone())),
        Some(_) => Err(Error::DecodeError),
    }
}

/// The elements of an array of strings, or `None` where one is not a
/// string.
pub open spec fn spec_str_items(items: Seq<Json>) -> Option<Seq<Seq<char>>>
    decreases items.len(),
{
    if items.len() == 0 {
        Some(Seq::empty())
    } else {
        match (items[0], spec_str_items(items.drop_first())) {
            (Json::Str(s), Some(rest)) => Some(seq![s@] + rest),
            _ => None,
        }
    }
}

/// An array-of-strings field: missing means the empty array.
pub open spec fn spec_str_arr_field(pairs: Seq<(String, Json)>, key: Seq<char>) -> Option<
    Seq<Seq<char>>,
> {
    match lookup(pairs, key) {
        None => Some(Seq::empty()),
        Some(Json::Arr(items)) => spec_str_items(items@),
        Some(_) => None,
    }
}

/// Extracts an array-of-strings field under the permissive decode
/// policy.
pub fn str_arr_field(pairs: &Vec<(String, Json)>, key: &str) -> (r: Result<Vec<String>, Error>)
    ensures
        match r {
            Ok(v) => spec_str_arr_field(pairs@, key@) == Some(v.deep_view()),
            Err(e) => e == Error::DecodeError && spec_str_arr_field(pairs@, key@) is None,
        },
{
    match obj_get(pairs, key) {
        None => {
            let v: Vec<String> = Vec::new();
            proof {
                assert(v.deep_view() =~= Seq::<Seq<char>>::empty());
            }
            Ok(v)
        },
        Some(Json::Arr(items)) => {
            proof {
                assert(lookup(pairs@, key@) == Some(Json::Arr(*items)));
            }
            let mut v: Vec<String> = Vec::new();
            proof {
                assert(items@.skip(0) =~= items@);
                assert(v.deep_view() =~= Seq::<Seq<char>>::empty());
                assert(forall|rest: Seq<Seq<char>>|
                    Seq::<Seq<char>>::empty() + rest =~= rest);
            }
            let mut i: usize = 0;
            while i < items.len()
                invariant
                    lookup(pairs@, key@) == Some(Json::Arr(*items)),
                    i <= items.len(),
                    v.len() == i,
                    spec_str_items(items@) == match spec_str_items(items@.skip(i as int)) {
                        Some(rest) => Some(v.deep_view() + rest),
                        None => None::<Seq<Seq<char>>>,
                    },
                decreases items.len() - i,
            {
                proof {
                    assert(items@.skip(i as int)[0] == items@[i as int]);
                    assert(items@.skip(i as int).drop_first() =~= items@.skip(i as int + 1));
                }
                match &items[i] {
                    Json::Str(s) => {
                        v.push(s.clone());
                        proof {
                            assert(forall|rest: Seq<Seq<char>>|
                                v.deep_view().drop_last() + (seq![items@[i as int]->Str_0@] + rest)
                                    =~= v.deep_view() + rest);
                        }
                    },
                    _ => {
                        proof {
                            assert(spec_str_items(items@.skip(i as int)) is None);
                            assert(spec_str_items(items@) is None);
                            assert(spec_str_arr_field(pairs@, key@) is None);
                        }
                        return Err(Error::DecodeError);
                    },
                }
                i = i + 1;
            }
            proof {
                assert(items@.skip(i as int) =~= Seq::<Json>::empty());
                assert(v.deep_view() + Seq::<Seq<char>>::empty() =~= v.deep_view());
            }
            Ok(v)
        },
        Some(_) => Err(Error::DecodeError),
    }
}

/// The lower-case hexadecimal digit of a value below sixteen.
pub open spec fn spec_hex_char(d: int) -> char {
    if d == 0 {
        '0'
    } else if d == 1 {
        '1'
    } else if d == 2 {
        '2'
    } else if d == 3 {
        '3'
    } else if d == 4 {
        '4'
    } else if d == 5 {
        '5'
    } else if d == 6 {
        '6'
    } else if d == 7 {
        '7'
    } else if d == 8 {
        '8'
    } else if d == 9 {
        '9'
    } else if d == 10 {
        'a'
    } else if d == 11 {
        'b'
    } else if d == 12 {
        'c'
    } else if d == 13 {
        'd'
    } else if d == 14 {
        'e'
    } else {
        'f'
    }
}

fn hex_char(d: u32) -> (c: char)
    requires
        d < 16,
    ensures
        c == spec_hex_char(d as int),
{
    if d == 0 {
        '0'
    } else if d == 1 {
        '1'
    } else if d == 2 {
        '2'
    } else if d == 3 {
        '3'
    } else if d == 4 {
        '4'
    } else if d == 5 {
        '5'
    } else if d == 6 {
        '6'
    } else if d == 7 {
        '7'
    } else if d == 8 {
        '8'
    } else if d == 9 {
        '9'
    } else if d == 10 {
        'a'
    } else if d == 11 {
        'b'
    } else if d == 12 {
        'c'
    } else if d == 13 {
        'd'
    } else if d == 14 {
        'e'
    } else {
        'f'
    }
}

/// How one character appears inside a JSON string literal: quote and
/// backslash are escaped, control characters become `\u00..`, and
/// everything else stands as itself.
pub open spec fn spec_escaped_char(c: char) -> Seq<char> {
    if c == '"' {
        seq!['\\', '"']
    } else if c == '\\' {
        seq!['\\', '\\']
    } else if (c as u32) < 32 {
        seq!['\\', 'u', '0', '0', spec_hex_char(c as u32 as int / 16), spec_hex_char(
            c as u32 as int % 16,
        )]
    } else {
        seq![c]
    }
}

/// The body of a JSON string literal holding `s`.
pub open spec fn spec_json_escaped(s: Seq<char>) -> Seq<char>
    decreases s.len(),
{
    if s.len() == 0 {
        Seq::empty()
    } else {
        spec_escaped_char(s[0]) + spec_json_escaped(s.drop_first())
    }
}

/// Escaping one more character appends its escape.
proof fn lemma_escaped_snoc(s: Seq<char>, i: int)
    requires
        0 <= i < s.len(),
    ensures
        spec_json_escaped(s.take(i + 1)) == spec_json_escaped(s.take(i)) + spec_escaped_char(s[i]),
    decreases i,
{
    if i == 0 {
        assert(s.take(1) =~= seq![s[0]]);
        assert(s.take(1).drop_first() =~= Seq::<char>::empty());
        assert(s.take(0) =~= Seq::<char>::empty());
        assert(spec_json_escaped(s.take(1)) == spec_escaped_char(s.take(1)[0])
            + spec_json_escaped(s.take(1).drop_first()));
        assert(s.take(1)[0] == s[0]);
        assert(spec_json_escaped(Seq::<char>::empty()) == Seq::<char>::empty());
        assert(spec_escaped_char(s[0]) + Seq::<char>::empty() =~= spec_escaped_char(s[0]));
        assert(spec_json_escaped(s.take(0)) + spec_escaped_char(s[0]) =~= spec_escaped_char(s[0]));
    } else {
        lemma_escaped_snoc(s.drop_first(), i - 1);
        assert(s.take(i + 1).drop_first() =~= s.drop_first().take(i));
        assert(s.take(i).drop_first() =~= s.drop_first().take(i - 1));
        assert(s.take(i + 1)[0] == s[0] && s.take(i)[0] == s[0]);
        assert(s.drop_first()[i - 1] == s[i]);
        assert(spec_escaped_char(s[0]) + (spec_json_escaped(s.drop_first().take(i - 1))
            + spec_escaped_char(s[i])) =~= (spec_escaped_char(s[0]) + spec_json_escaped(
            s.drop_first().take(i - 1),
        )) + spec_escaped_char(s[i]));
    }
}

/// Relies on `String::push`: appends one character.
#[verifier::external_body]
pub(crate) fn push_char(s: &mut String, c: char)
    ensures
        final(s)@ == old(s)@.push(c),
{
    s.push(c);
}

/// Escapes `s` for use inside a JSON string literal, exactly as
/// [`spec_json_escaped`] describes.
pub fn json_escape(s: &str) -> (r: String)
    ensures
        r@ == spec_json_escaped(s@),
{
    let n = s.unicode_len();
    let mut r = String::new();
    proof {
        assert(s@.take(0) =~= Seq::<char>::empty());
    }
    let mut i: usize = 0;
    while i < n
        invariant
            n == s@.len(),
            i <= n,
            r@ == spec_json_escaped(s@.take(i as int)),
        decreases n - i,
    {
        let c = s.get_char(i);
        proof {
            lemma_escaped_snoc(s@, i as int);
        }
        if c == '"' {
            proof {
                reveal_strlit("\\\"");
                assert("\\\""@ =~= spec_escaped_char(c));
            }
            r.append("\\\"");
        } else if c == '\\' {
            proof {
                reveal_strlit("\\\\");
                assert("\\\\"@ =~= spec_escaped_char(c));
            }
            r.append("\\\\");
        } else if (c as u32) < 32 {
            let code: u32 = c as u32;
            proof {
                reveal_strlit("\\u00");
                assert("\\u00"@ =~= seq!['\\', 'u', '0', '0']);
            }
            r.append("\\u00");
            push_char(&mut r, hex_char(code / 16));
            push_char(&mut r, hex_char(code % 16));
            proof {
                assert(r@ =~= spec_json_escaped(s@.take(i as int)) + spec_escaped_char(c));
            }
        } else {
            push_char(&mut r, c);
            proof {
                assert(r@ =~= spec_json_escaped(s@.take(i as int)) + spec_escaped_char(c));
            }
        }
        i = i + 1;
    }
    proof {
        assert(s@.take(n as int) =~= s@);
    }
    r
}

/// A complete JSON string literal holding `s`.
pub open spec fn spec_json_quoted(s: Seq<char>) -> Seq<char> {
    seq!['"'] + spec_json_escaped(s) + seq!['"']
}

/// Writes `s` as a JSON string literal, exactly as
/// [`spec_json_quoted`] describes.
pub fn json_quote(s: &str) -> (r: String)
    ensures
        r@ == spec_json_quoted(s@),
{
    let mut r = String::new();
    push_char(&mut r, '"');
    let escaped = json_escape(s);
    r.append(escaped.as_str());
    push_char(&mut r, '"');
    proof {
        assert(r@ =~= spec_json_quoted(s@));
    }
    r
}

} // verus!
