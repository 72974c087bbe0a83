//! JSON text: quoting of strings and reading one field of a response body,
//! both through serde_json.

use vstd::prelude::*;

verus! {

/// The JSON text of a string value, as serde_json writes it: quotes and escapes.
pub uninterp spec fn json_quoted(s: Seq<char>) -> Seq<char>;

/// The string at key `key` of the JSON object in `body`: `None` where `body`
/// is not JSON text, is not an object, lacks the key, or holds a value there
/// that is not a string.
pub uninterp spec fn json_string_field(body: Seq<u8>, key: Seq<char>) -> Option<Seq<char>>;

/// Relies on serde_json::to_string on a `str`: the quoted, escaped JSON text
/// of the string. Serializing a `str` into memory does not fail.
#[verifier::external_body]
pub(crate) fn quote(s: &str) -> (r: String)
    ensures
        r@ == json_quoted(s@),
{
    serde_json::to_string(s).unwrap_or_default()
}

/// Relies on serde_json::from_slice into a serde_json::Value and on
/// Value::get: the value under `key` of the top-level object, kept where it
/// is a JSON string.
#[verifier::external_body]
pub(crate) fn string_field(body: &[u8], key: &str) -> (r: Option<String>)
    ensures
        match r {
            Some(s) => json_string_field(body@, key@) == Some(s@),
            None => json_string_field(body@, key@) is None,
        },
{
    let value: serde_json::Value = match serde_json::from_slice(body) {
        Ok(v) => v,
        Err(_) => return None,
    };
    match value.get(key) {
        Some(serde_json::Value::String(s)) => Some(s.clone()),
        _ => None,
    }
}

/// `"key":value`, where `value` is already JSON text.
pub open spec fn json_member(key: Seq<char>, value: Seq<char>) -> Seq<char> {
    "\""@ + key + "\":"@ + value
}

/// The members of an object, separated by commas, in the order given.
pub open spec fn json_members(m: Seq<(Seq<char>, Seq<char>)>) -> Seq<char>
    decreases m.len(),
{
    if m.len() == 0 {
        Seq::empty()
    } else if m.len() == 1 {
        json_member(m[0].0, m[0].1)
    } else {
        json_members(m.drop_last()) + ","@ + json_member(m.last().0, m.last().1)
    }
}

/// The JSON object text with members `m`, keys in the order given.
pub open spec fn json_object(m: Seq<(Seq<char>, Seq<char>)>) -> Seq<char> {
    "{"@ + json_members(m) + "}"@
}

/// A JSON value that may be absent: `null` where it is.
pub open spec fn json_nullable(v: Option<Seq<char>>) -> Seq<char> {
    match v {
        Some(s) => json_quoted(s),
        None => "null"@,
    }
}

/// The views of `(key, value)` pairs.
pub open spec fn members_view(m: Seq<(&str, String)>) -> Seq<(Seq<char>, Seq<char>)> {
    m.map_values(|p: (&str, String)| (p.0@, p.1@))
}

/// Joins `(key, JSON value text)` pairs into the text of a JSON object.
pub fn object_text(members: &Vec<(&str, String)>) -> (r: String)
    ensures
        r@ == json_object(members_view(members@)),
{
    let ghost mv = members_view(members@);
    let mut text = String::from_str("{");
    let mut i: usize = 0;
    while i < members.len()
        invariant
            i <= members@.len(),
            mv == members_view(members@),
            text@ == "{"@ + json_members(mv.take(i as int)),
        decreases members@.len() - i,
    {
        let (key, value) = &members[i];
        if i > 0 {
            text.append(",");
        }
        text.append("\"");
        text.append(key);
        text.append("\":");
        text.append(value.as_str());
        proof {
            let t = mv.take(i + 1);
            assert(t.drop_last() =~= mv.take(i as int));
            assert(t.last() == (key@, value@));
            if i == 0 {
                assert(mv.take(0) =~= Seq::<(Seq<char>, Seq<char>)>::empty());
            }
        }
        assert(text@ =~= "{"@ + json_members(mv.take(i + 1)));
        i = i + 1;
    }
    assert(mv.take(members@.len() as int) =~= mv);
    text.append("}");
    text
}

} // verus!
