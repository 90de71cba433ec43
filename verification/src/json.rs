//! The members of a JSON object, as the JSON parser reads them.

use vstd::prelude::*;
use vstd::utf8::*;
use crate::bytes::bytes_equal;

verus! {

/// What one member of a JSON object holds. Text and numbers are kept; of an
/// array or an object only the kind is kept.
#[derive(Debug, PartialEq, Eq)]
pub enum JsonValue {
    /// `null`.
    Null,
    /// `true` or `false`.
    Bool(bool),
    /// A number, as it is written.
    Number(String),
    /// A string, its escapes resolved.
    Text(String),
    /// An array.
    Array,
    /// An object.
    Object,
}

/// A [`JsonValue`] in specifications.
pub enum JsonValueView {
    Null,
    Bool(bool),
    Number(Seq<char>),
    Text(Seq<char>),
    Array,
    Object,
}

impl View for JsonValue {
    type V = JsonValueView;

    open spec fn view(&self) -> JsonValueView {
        match self {
            JsonValue::Null => JsonValueView::Null,
            JsonValue::Bool(b) => JsonValueView::Bool(*b),
            JsonValue::Number(n) => JsonValueView::Number(n@),
            JsonValue::Text(t) => JsonValueView::Text(t@),
            JsonValue::Array => JsonValueView::Array,
            JsonValue::Object => JsonValueView::Object,
        }
    }
}

/// The members of an object in specifications: each name with what it holds.
pub type MembersView = Seq<(Seq<char>, JsonValueView)>;

/// The members that the JSON parser reads from `text`, where `text` is one JSON
/// object; `None` where it is anything else.
pub uninterp spec fn json_members(text: Seq<char>) -> Option<MembersView>;

/// The members of `v` in specifications.
pub open spec fn members_view(v: Seq<(String, JsonValue)>) -> MembersView {
    Seq::new(v.len(), |i: int| (v[i].0@, v[i].1@))
}

/// The first member of `members` that is named `name`.
pub open spec fn member(members: MembersView, name: Seq<char>) -> Option<JsonValueView>
    decreases members.len(),
{
    if members.len() == 0 {
        None
    } else if members[0].0 == name {
        Some(members[0].1)
    } else {
        member(members.drop_first(), name)
    }
}

/// Reads `body` as one JSON object and hands out its members.
///
/// Calls `serde_json::from_str` for a `serde_json::Map`. Trusted: what comes
/// back depends on `body` alone, and is `None` exactly where the parser does
/// not accept `body` as an object. Each member is handed out under its name;
/// text and numbers with what they hold, a number as it is written.
#[verifier::external_body]
pub(crate) fn parse_members(body: &str) -> (r: Option<Vec<(String, JsonValue)>>)
    ensures
        r is Some <==> json_members(body@) is Some,
        r matches Some(v) ==> members_view(v@) == json_members(body@).unwrap(),
{
    let object: serde_json::Map<String, serde_json::Value> = serde_json::from_str(body).ok()?;
    Some(object.into_iter().map(|(name, value)| (name, match value {
        serde_json::Value::Null => JsonValue::Null,
        serde_json::Value::Bool(b) => JsonValue::Bool(b),
        serde_json::Value::Number(n) => JsonValue::Number(n.as_str().to_string()),
        serde_json::Value::String(s) => JsonValue::Text(s),
        serde_json::Value::Array(_) => JsonValue::Array,
        serde_json::Value::Object(_) => JsonValue::Object,
    })).collect())
}

/// The text that `bytes` encode in UTF-8.
///
/// Calls `core::str::from_utf8`. Trusted: it accepts exactly the byte strings
/// that are valid UTF-8, and the text it returns is made of those same bytes.
#[verifier::external_body]
pub(crate) fn utf8_text(bytes: &[u8]) -> (r: Option<&str>)
    ensures
        r is Some <==> valid_utf8(bytes@),
        r matches Some(s) ==> encode_utf8(s@) == bytes@,
{
    core::str::from_utf8(bytes).ok()
}

/// Two texts are the same exactly where their UTF-8 bytes are.
pub proof fn lemma_utf8_injective(a: Seq<char>, b: Seq<char>)
    ensures
        (encode_utf8(a) == encode_utf8(b)) == (a == b),
{
    encode_utf8_decode_utf8(a);
    encode_utf8_decode_utf8(b);
}

/// The place of the first member named `name`, if there is one.
pub fn find_member(members: &Vec<(String, JsonValue)>, name: &str) -> (r: Option<usize>)
    ensures
        r is Some <==> member(members_view(members@), name@) is Some,
        r matches Some(i) ==> {
            &&& i < members.len()
            &&& members[i as int].0@ == name@
            &&& forall|k: int| 0 <= k < i ==> (#[trigger] members[k]).0@ != name@
            &&& member(members_view(members@), name@) == Some(members[i as int].1@)
        },
{
    let ghost all = members_view(members@);
    let mut i: usize = 0;
    proof {
        assert(all.skip(0) =~= all);
    }
    while i < members.len()
        invariant
            i <= members.len(),
            all == members_view(members@),
            member(all, name@) == member(all.skip(i as int), name@),
            forall|k: int| 0 <= k < i ==> (#[trigger] members[k]).0@ != name@,
        decreases members.len() - i,
    {
        proof {
            lemma_utf8_injective(members[i as int].0@, name@);
            assert(all.skip(i as int)[0] == all[i as int]);
            assert(all.skip(i as int).drop_first() =~= all.skip(i + 1));
        }
        if bytes_equal(members[i].0.as_str().as_bytes(), name.as_bytes()) {
            return Some(i);
        }
        i += 1;
    }
    None
}

} // verus!
