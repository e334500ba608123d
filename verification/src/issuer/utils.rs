//! The attribute values of a credential, each with its encoding, as the
//! backend needs them to issue the credential.
use crate::encoding::{encode, encoded};
use crate::error::{outcome_of, VcxError, VcxErrorKind, VcxResult};
use crate::json::{json_of_text, string_of_text, text_of_json, Json, JsonView};
use vstd::prelude::*;

verus! {

/// The raw value of an attribute whose value is given as JSON text: a string
/// is the value; of an array, its first element is, if that is a string.
pub open spec fn raw_value(data: Seq<char>) -> Result<Seq<char>, VcxErrorKind> {
    match json_of_text(data) {
        Some(JsonView::Text(s)) => Ok(s),
        Some(JsonView::Array(items)) => if items.len() > 0 {
            match string_of_text(items[0]) {
                Some(s) => Ok(s),
                None => Err(VcxErrorKind::InvalidAttributesStructure),
            }
        } else {
            Err(VcxErrorKind::InvalidAttributesStructure)
        },
        _ => Err(VcxErrorKind::InvalidJson),
    }
}

/// The JSON text of the object that pairs a raw value with its encoding.
pub open spec fn raw_and_encoded(raw: Seq<char>) -> Option<Seq<char>> {
    match (text_of_json(JsonView::Text(raw)), text_of_json(JsonView::Text(encoded(raw)))) {
        (Some(r), Some(e)) => text_of_json(JsonView::Object(seq![("raw"@, r), ("encoded"@, e)])),
        _ => None,
    }
}

/// The pair of raw value and encoding for an attribute whose value is given
/// as JSON text. A value without a raw value is refused as `raw_value` says,
/// and one whose pair cannot be written as JSON with `InvalidJson`.
pub open spec fn encoded_member(data: Seq<char>) -> Result<Seq<char>, VcxErrorKind> {
    match raw_value(data) {
        Ok(raw) => match raw_and_encoded(raw) {
            Some(pair) => Ok(pair),
            None => Err(VcxErrorKind::InvalidJson),
        },
        Err(kind) => Err(kind),
    }
}

/// The members at the front, followed by those that come after them, unless
/// those were refused.
pub open spec fn joined(
    front: Seq<(Seq<char>, Seq<char>)>,
    rest: Result<Seq<(Seq<char>, Seq<char>)>, VcxErrorKind>,
) -> Result<Seq<(Seq<char>, Seq<char>)>, VcxErrorKind> {
    match rest {
        Ok(members) => Ok(front + members),
        Err(kind) => Err(kind),
    }
}

/// The members of the attribute document, each value replaced by the pair of
/// its raw value and its encoding. The first member that is refused decides
/// the failure.
pub open spec fn encoded_members(members: Seq<(Seq<char>, Seq<char>)>) -> Result<
    Seq<(Seq<char>, Seq<char>)>,
    VcxErrorKind,
>
    decreases members.len(),
{
    if members.len() == 0 {
        Ok(Seq::empty())
    } else {
        match encoded_member(members[0].1) {
            Ok(pair) => joined(
                seq![(members[0].0, pair)],
                encoded_members(members.drop_first()),
            ),
            Err(kind) => Err(kind),
        }
    }
}

/// The document of raw and encoded values for a text of attribute values,
/// which must hold an object. A document that cannot be written as JSON is
/// refused with `InvalidJson`.
pub open spec fn encoded_attributes(attributes: Seq<char>) -> Result<Seq<char>, VcxErrorKind> {
    match json_of_text(attributes) {
        Some(JsonView::Object(members)) => match encoded_members(members) {
            Ok(pairs) => match text_of_json(JsonView::Object(pairs)) {
                Some(text) => Ok(text),
                None => Err(VcxErrorKind::InvalidJson),
            },
            Err(kind) => Err(kind),
        },
        _ => Err(VcxErrorKind::InvalidAttributesStructure),
    }
}

/// The raw value of an attribute whose value is given as JSON text. Fails
/// with `InvalidAttributesStructure` on an array that does not start with a
/// string, and with `InvalidJson` on anything else that is no string.
pub fn attribute_raw_value(data: &str) -> (r: VcxResult<String>)
    ensures
        outcome_of(r) == raw_value(data@),
{
    match Json::parse(data) {
        Ok(Json::Text(s)) => Ok(s),
        Ok(Json::Array(items)) => {
            if items.len() > 0 {
                match Json::string_in(items[0].as_str()) {
                    Some(s) => Ok(s),
                    None => Err(
                        VcxError::from_msg(
                            VcxErrorKind::InvalidAttributesStructure,
                            "Attribute value not found",
                        ),
                    ),
                }
            } else {
                Err(
                    VcxError::from_msg(
                        VcxErrorKind::InvalidAttributesStructure,
                        "Attribute value not found",
                    ),
                )
            }
        },
        _ => Err(VcxError::from_msg(VcxErrorKind::InvalidJson, "Invalid Json for Attribute data")),
    }
}

/// The JSON text of the object that pairs a raw value with its encoding, or
/// nothing where it cannot be written as JSON.
pub fn raw_and_encoded_text(raw: &str) -> (r: Option<String>)
    ensures
        r.deep_view() == raw_and_encoded(raw@),
{
    let raw_text = match Json::Text(raw.to_owned()).render() {
        Some(text) => text,
        None => {
            return None;
        },
    };
    let encoded_text = match Json::Text(encode(raw)).render() {
        Some(text) => text,
        None => {
            return None;
        },
    };
    let mut members: Vec<(String, String)> = Vec::new();
    members.push(("raw".to_owned(), raw_text));
    members.push(("encoded".to_owned(), encoded_text));
    let pair = Json::Object(members);
    assert(pair@ == JsonView::Object(seq![("raw"@, raw_text@), ("encoded"@, encoded_text@)])) by {
        assert(members@.map_values(|m: (String, String)| (m.0@, m.1@)) =~= seq![
            ("raw"@, raw_text@),
            ("encoded"@, encoded_text@),
        ]);
    }
    pair.render()
}

/// The failure of a document that cannot be written as JSON.
fn unwritable() -> (r: VcxError)
    ensures
        r@.kind == VcxErrorKind::InvalidJson,
{
    VcxError::from_msg(VcxErrorKind::InvalidJson, "The document cannot be written as JSON")
}

/// The pair of raw value and encoding for an attribute whose value is given
/// as JSON text. Fails as `attribute_raw_value` does, and with `InvalidJson`
/// where the pair cannot be written as JSON.
pub fn encoded_member_text(data: &str) -> (r: VcxResult<String>)
    ensures
        outcome_of(r) == encoded_member(data@),
{
    let raw = match attribute_raw_value(data) {
        Ok(raw) => raw,
        Err(e) => {
            return Err(e);
        },
    };
    match raw_and_encoded_text(raw.as_str()) {
        Some(pair) => Ok(pair),
        None => Err(unwritable()),
    }
}

/// The attribute values of a credential, each paired with its encoding. The
/// text must hold an object whose member values are strings, or arrays that
/// start with a string. Fails with `InvalidAttributesStructure` where the text
/// holds no object, as `encoded_member_text` does on the first member that it
/// refuses, and with `InvalidJson` where the document cannot be written as
/// JSON.
pub fn encode_attributes(attributes: &str) -> (r: VcxResult<String>)
    ensures
        outcome_of(r) == encoded_attributes(attributes@),
{
    match Json::parse(attributes) {
        Ok(Json::Object(members)) => {
            let ghost all = members@.map_values(|m: (String, String)| (m.0@, m.1@));
            let mut out: Vec<(String, String)> = Vec::new();
            let mut i: usize = 0;
            assert(all.skip(0) =~= all);
            while i < members.len()
                invariant
                    i <= members@.len(),
                    all == members@.map_values(|m: (String, String)| (m.0@, m.1@)),
                    json_of_text(attributes@) == Some(JsonView::Object(all)),
                    encoded_members(all) == joined(
                        out@.map_values(|m: (String, String)| (m.0@, m.1@)),
                        encoded_members(all.skip(i as int)),
                    ),
                decreases members@.len() - i,
            {
                let ghost done = out@.map_values(|m: (String, String)| (m.0@, m.1@));
                assert(all.skip(i as int).drop_first() =~= all.skip(i as int + 1));
                let pair = match encoded_member_text(members[i].1.as_str()) {
                    Ok(pair) => pair,
                    Err(e) => {
                        return Err(e);
                    },
                };
                out.push((members[i].0.clone(), pair));
                proof {
                    let now = out@.map_values(|m: (String, String)| (m.0@, m.1@));
                    let entry = (all[i as int].0, pair@);
                    if let Ok(rest) = encoded_members(all.skip(i as int + 1)) {
                        assert(done + (seq![entry] + rest) =~= now + rest);
                    }
                }
                i += 1;
            }
            match Json::Object(out).render() {
                Some(text) => Ok(text),
                None => Err(unwritable()),
            }
        },
        _ => Err(
            VcxError::from_msg(
                VcxErrorKind::InvalidAttributesStructure,
                "The attribute values are not a JSON object",
            ),
        ),
    }
}

} // verus!
