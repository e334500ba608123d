//! JSON documents, read one level at a time.
//!
//! A document is held as its top level: a scalar, or the elements of an array
//! or the members of an object, each element and member value as the JSON text
//! that stands for it. Reading such a text again gives the next level.
use crate::error::{VcxError, VcxErrorKind, VcxResult};
use crate::text::str_eq;
use serde_json::Value;
use vstd::prelude::*;

verus! {

/// The top level of a JSON document.
#[derive(Debug)]
pub enum Json {
    /// Null, a boolean or a number, as the JSON text that stands for it.
    Scalar(String),
    Text(String),
    /// The elements of an array, each as JSON text.
    Array(Vec<String>),
    /// The members of an object in the order of the document model: each key,
    /// and the member's value as JSON text.
    Object(Vec<(String, String)>),
}

/// What a `Json` holds.
pub enum JsonView {
    Scalar(Seq<char>),
    Text(Seq<char>),
    Array(Seq<Seq<char>>),
    Object(Seq<(Seq<char>, Seq<char>)>),
}

impl View for Json {
    type V = JsonView;

    open spec fn view(&self) -> JsonView {
        match self {
            Json::Scalar(t) => JsonView::Scalar(t@),
            Json::Text(t) => JsonView::Text(t@),
            Json::Array(items) => JsonView::Array(items@.map_values(|t: String| t@)),
            Json::Object(members) => JsonView::Object(
                members@.map_values(|m: (String, String)| (m.0@, m.1@)),
            ),
        }
    }
}

/// The top level of the document that a text holds, where the text is JSON.
pub uninterp spec fn json_of_text(text: Seq<char>) -> Option<JsonView>;

/// The compact JSON text of a document that is given by its top level, where
/// each scalar, element and member value of it is JSON.
pub uninterp spec fn text_of_json(value: JsonView) -> Option<Seq<char>>;

/// The view of an optional document.
pub open spec fn json_view(value: Option<Json>) -> Option<JsonView> {
    match value {
        Some(v) => Some(v@),
        None => None,
    }
}

/// `serde_json::from_str` at the type `serde_json::Value`, with `Value`'s
/// `Display` for what lies below the top level: reads a text as JSON and hands
/// out its top level, each array element and member value written out again as
/// compact JSON, or nothing where the text is not JSON. The contract gives the
/// outcome a name and claims no more.
#[verifier::external_body]
pub(crate) fn parse_json(text: &str) -> (r: Option<Json>)
    ensures
        json_view(r) == json_of_text(text@),
{
    serde_json::from_str::<Value>(text).ok().map(
        |v| match v {
            Value::String(s) => Json::Text(s),
            Value::Array(a) => Json::Array(a.iter().map(ToString::to_string).collect()),
            Value::Object(m) => Json::Object(
                m.iter().map(|(k, v)| (k.clone(), v.to_string())).collect(),
            ),
            v => Json::Scalar(v.to_string()),
        },
    )
}

/// `Display` of `serde_json::Value`: the compact JSON text of a document. The
/// document is put together from its top level, each scalar, element and
/// member value read by `serde_json::from_str`; where one of them is not JSON
/// there is no document and nothing is handed out. The contract gives the
/// outcome a name and claims no more.
#[verifier::external_body]
pub(crate) fn render_json(value: &Json) -> (r: Option<String>)
    ensures
        r.deep_view() == text_of_json(value@),
{
    let read = |t: &String| serde_json::from_str::<Value>(t).ok();
    let document = match value {
        Json::Scalar(t) => read(t)?,
        Json::Text(t) => Value::String(t.clone()),
        Json::Array(a) => Value::Array(a.iter().map(read).collect::<Option<_>>()?),
        Json::Object(m) => Value::Object(
            m.iter().map(|(k, t)| Some((k.clone(), read(t)?))).collect::<Option<_>>()?,
        ),
    };
    Some(document.to_string())
}

/// The value, as JSON text, of the first member with the given key.
pub open spec fn find_member(members: Seq<(Seq<char>, Seq<char>)>, key: Seq<char>) -> Option<
    Seq<char>,
>
    decreases members.len(),
{
    if members.len() == 0 {
        None
    } else if members[0].0 == key {
        Some(members[0].1)
    } else {
        find_member(members.drop_first(), key)
    }
}

impl JsonView {
    /// The value, as JSON text, of the member with the given key, where this
    /// is an object that has one.
    pub open spec fn member(self, key: Seq<char>) -> Option<Seq<char>> {
        match self {
            JsonView::Object(members) => find_member(members, key),
            _ => None,
        }
    }
}

/// The value, as JSON text, of the member with the given key of the document
/// that a text holds, where the text holds an object that has such a member.
pub open spec fn member_of_text(text: Seq<char>, key: Seq<char>) -> Option<Seq<char>> {
    match json_of_text(text) {
        Some(value) => value.member(key),
        None => None,
    }
}

/// The string that a text holds, where the text is a JSON string.
pub open spec fn string_of_text(text: Seq<char>) -> Option<Seq<char>> {
    match json_of_text(text) {
        Some(JsonView::Text(s)) => Some(s),
        _ => None,
    }
}

/// The string that is the member with the given key of the document that a
/// text holds, where the text holds an object with such a member and the
/// member is a string.
pub open spec fn string_member_of_text(text: Seq<char>, key: Seq<char>) -> Option<Seq<char>> {
    match member_of_text(text, key) {
        Some(value) => string_of_text(value),
        None => None,
    }
}

/// The members with each value written as a JSON string, where every value
/// can be written.
pub open spec fn written_members(members: Seq<(Seq<char>, Seq<char>)>) -> Option<
    Seq<(Seq<char>, Seq<char>)>,
>
    decreases members.len(),
{
    if members.len() == 0 {
        Some(Seq::empty())
    } else {
        match (text_of_json(JsonView::Text(members[0].1)), written_members(members.drop_first())) {
            (Some(value), Some(rest)) => Some(seq![(members[0].0, value)] + rest),
            _ => None,
        }
    }
}

/// The compact JSON text of the object whose members are the given strings.
pub open spec fn object_of_strings(members: Seq<(Seq<char>, Seq<char>)>) -> Option<Seq<char>> {
    match written_members(members) {
        Some(written) => text_of_json(JsonView::Object(written)),
        None => None,
    }
}

/// Where one value cannot be written, the members cannot.
proof fn lemma_written_members_refused(members: Seq<(Seq<char>, Seq<char>)>, at: int)
    requires
        0 <= at < members.len(),
        text_of_json(JsonView::Text(members[at].1)) is None,
    ensures
        written_members(members) is None,
    decreases at,
{
    if at > 0 {
        let rest = members.drop_first();
        lemma_written_members_refused(rest, at - 1);
    }
}

impl Json {
    /// The compact JSON text of the object whose members are the given
    /// strings, or nothing where it cannot be written.
    pub fn render_strings(members: &Vec<(String, String)>) -> (r: Option<String>)
        ensures
            r.deep_view() == object_of_strings(
                members@.map_values(|m: (String, String)| (m.0@, m.1@)),
            ),
    {
        let ghost all = members@.map_values(|m: (String, String)| (m.0@, m.1@));
        let mut out: Vec<(String, String)> = Vec::new();
        let mut i: usize = members.len();
        while i > 0
            invariant
                i <= members@.len(),
                all == members@.map_values(|m: (String, String)| (m.0@, m.1@)),
                written_members(all.skip(i as int)) == Some(
                    out@.map_values(|m: (String, String)| (m.0@, m.1@)),
                ),
            decreases i,
        {
            i -= 1;
            assert(all.skip(i as int).drop_first() =~= all.skip(i as int + 1));
            let value = match Json::Text(members[i].1.clone()).render() {
                Some(value) => value,
                None => {
                    proof {
                        lemma_written_members_refused(all, i as int);
                    }
                    return None;
                },
            };
            out.insert(0, (members[i].0.clone(), value));
        }
        assert(all.skip(0) =~= all);
        Json::Object(out).render()
    }

    /// The string that is the member with the given key of the document that
    /// a text holds.
    pub fn string_member_in(text: &str, key: &str) -> (r: Option<String>)
        ensures
            r.deep_view() == string_member_of_text(text@, key@),
    {
        match Json::get_in(text, key) {
            Some(value) => Json::string_in(value.as_str()),
            None => None,
        }
    }

    /// Reads a text as JSON. Fails with `InvalidJson` where it is not JSON.
    pub fn parse(text: &str) -> (r: VcxResult<Json>)
        ensures
            match r {
                Ok(value) => json_of_text(text@) == Some(value@),
                Err(e) => json_of_text(text@) is None && e@.kind == VcxErrorKind::InvalidJson,
            },
    {
        match parse_json(text) {
            Some(value) => Ok(value),
            None => Err(VcxError::from_msg(VcxErrorKind::InvalidJson, "The text is not JSON")),
        }
    }

    /// The compact JSON text of this document, or nothing where one of its
    /// scalars, elements or member values is not JSON.
    pub fn render(&self) -> (r: Option<String>)
        ensures
            r.deep_view() == text_of_json(self@),
    {
        render_json(self)
    }

    /// The value, as JSON text, of the member with the given key, where this
    /// is an object that has one.
    pub fn get(&self, key: &str) -> (r: Option<String>)
        ensures
            r.deep_view() == self@.member(key@),
    {
        match self {
            Json::Object(members) => {
                let ghost all = members@.map_values(|m: (String, String)| (m.0@, m.1@));
                assert(all.skip(0) =~= all);
                let mut i: usize = 0;
                while i < members.len()
                    invariant
                        i <= members@.len(),
                        all == members@.map_values(|m: (String, String)| (m.0@, m.1@)),
                        self@ == JsonView::Object(all),
                        find_member(all, key@) == find_member(all.skip(i as int), key@),
                    decreases members@.len() - i,
                {
                    assert(all.skip(i as int).drop_first() =~= all.skip(i as int + 1));
                    if str_eq(members[i].0.as_str(), key) {
                        return Some(members[i].1.clone());
                    }
                    i += 1;
                }
                None
            },
            _ => None,
        }
    }

    /// The value, as JSON text, of the member with the given key of the
    /// document that a text holds.
    pub fn get_in(text: &str, key: &str) -> (r: Option<String>)
        ensures
            r.deep_view() == member_of_text(text@, key@),
    {
        match parse_json(text) {
            Some(value) => value.get(key),
            None => None,
        }
    }

    /// The string that a text holds, where the text is a JSON string.
    pub fn string_in(text: &str) -> (r: Option<String>)
        ensures
            r.deep_view() == string_of_text(text@),
    {
        match parse_json(text) {
            Some(Json::Text(s)) => Some(s),
            _ => None,
        }
    }
}

} // verus!
