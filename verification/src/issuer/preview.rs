//! The preview of the attribute values that an offer carries.
use crate::error::{outcome_of, VcxError, VcxErrorKind, VcxResult};
use crate::json::{json_of_text, member_of_text, Json, JsonView};
use crate::messages::issuance::{empty_offer, CredentialOffer, CredentialOfferView};
use crate::messages::preview::{CredentialValueView, MimeType};
use vstd::prelude::*;

verus! {

/// The offer with one more plain-text attribute in its preview.
pub open spec fn with_attribute(offer: CredentialOfferView, name: Seq<char>, value: Seq<char>)
    -> CredentialOfferView {
    CredentialOfferView {
        preview: offer.preview.push(
            CredentialValueView { name, value, mime_type: MimeType::Plain },
        ),
        ..offer
    }
}

/// The offer with one attribute more for each element of an array: the
/// element's members `name` and `value`, each as JSON text. An element
/// without one of the two is refused.
pub open spec fn entries_appended(offer: CredentialOfferView, items: Seq<Seq<char>>) -> Result<
    CredentialOfferView,
    VcxErrorKind,
>
    decreases items.len(),
{
    if items.len() == 0 {
        Ok(offer)
    } else {
        match (member_of_text(items[0], "name"@), member_of_text(items[0], "value"@)) {
            (Some(name), Some(value)) => entries_appended(
                with_attribute(offer, name, value),
                items.drop_first(),
            ),
            _ => Err(VcxErrorKind::InvalidAttributesStructure),
        }
    }
}

/// The offer with one attribute more for each member of an object: the
/// member's key, and its value as JSON text.
pub open spec fn members_appended(
    offer: CredentialOfferView,
    members: Seq<(Seq<char>, Seq<char>)>,
) -> CredentialOfferView
    decreases members.len(),
{
    if members.len() == 0 {
        offer
    } else {
        members_appended(
            with_attribute(offer, members[0].0, members[0].1),
            members.drop_first(),
        )
    }
}

/// The offer with the attributes of a document of attribute values: those of
/// an array of `name` and `value` pairs, or those of an object; any other
/// document adds none.
pub open spec fn values_appended(offer: CredentialOfferView, values: JsonView) -> Result<
    CredentialOfferView,
    VcxErrorKind,
> {
    match values {
        JsonView::Array(items) => entries_appended(offer, items),
        JsonView::Object(members) => Ok(members_appended(offer, members)),
        _ => Ok(offer),
    }
}

/// The offer with the attributes that a text of attribute values holds. A text
/// that is not JSON is refused.
pub open spec fn preview_appended(offer: CredentialOfferView, credential_json: Seq<char>)
    -> Result<CredentialOfferView, VcxErrorKind> {
    match json_of_text(credential_json) {
        Some(values) => values_appended(offer, values),
        None => Err(VcxErrorKind::InvalidJson),
    }
}

/// The failure of a refused preview, if it was refused.
pub open spec fn refusal(appended: Result<CredentialOfferView, VcxErrorKind>) -> Option<
    VcxErrorKind,
> {
    match appended {
        Ok(_) => None,
        Err(kind) => Some(kind),
    }
}

/// The failure with which a text of attribute values is refused as a preview,
/// if it is refused.
pub open spec fn preview_refusal(credential_json: Seq<char>) -> Option<VcxErrorKind> {
    refusal(preview_appended(empty_offer(Seq::empty()), credential_json))
}

proof fn lemma_entries_refusal(
    a: CredentialOfferView,
    b: CredentialOfferView,
    items: Seq<Seq<char>>,
)
    ensures
        refusal(entries_appended(a, items)) == refusal(entries_appended(b, items)),
    decreases items.len(),
{
    if items.len() > 0 {
        match (member_of_text(items[0], "name"@), member_of_text(items[0], "value"@)) {
            (Some(name), Some(value)) => {
                lemma_entries_refusal(
                    with_attribute(a, name, value),
                    with_attribute(b, name, value),
                    items.drop_first(),
                );
            },
            _ => {},
        }
    }
}

/// Whether a text of attribute values is refused as a preview, and with which
/// failure, depends on the text alone and not on the offer.
pub proof fn lemma_refusal_is_of_the_values(
    a: CredentialOfferView,
    b: CredentialOfferView,
    credential_json: Seq<char>,
)
    ensures
        refusal(preview_appended(a, credential_json)) == refusal(
            preview_appended(b, credential_json),
        ),
{
    match json_of_text(credential_json) {
        Some(JsonView::Array(items)) => {
            lemma_entries_refusal(a, b, items);
        },
        _ => {},
    }
}

/// Whether two offers are the same but for their previews.
pub open spec fn same_but_preview(a: CredentialOfferView, b: CredentialOfferView) -> bool {
    a.id == b.id && a.comment == b.comment && a.attach == b.attach && a.thread == b.thread
}

proof fn lemma_entries_keep_the_rest(offer: CredentialOfferView, items: Seq<Seq<char>>)
    ensures
        entries_appended(offer, items) matches Ok(after) ==> same_but_preview(offer, after),
    decreases items.len(),
{
    if items.len() > 0 {
        match (member_of_text(items[0], "name"@), member_of_text(items[0], "value"@)) {
            (Some(name), Some(value)) => {
                lemma_entries_keep_the_rest(with_attribute(offer, name, value), items.drop_first());
            },
            _ => {},
        }
    }
}

proof fn lemma_members_keep_the_rest(
    offer: CredentialOfferView,
    members: Seq<(Seq<char>, Seq<char>)>,
)
    ensures
        same_but_preview(offer, members_appended(offer, members)),
    decreases members.len(),
{
    if members.len() > 0 {
        lemma_members_keep_the_rest(
            with_attribute(offer, members[0].0, members[0].1),
            members.drop_first(),
        );
    }
}

/// Appending the preview changes nothing of an offer but its preview.
pub proof fn lemma_preview_keeps_the_rest(offer: CredentialOfferView, credential_json: Seq<char>)
    ensures
        preview_appended(offer, credential_json) matches Ok(after) ==> same_but_preview(
            offer,
            after,
        ),
{
    match json_of_text(credential_json) {
        Some(JsonView::Array(items)) => {
            lemma_entries_keep_the_rest(offer, items);
        },
        Some(JsonView::Object(members)) => {
            lemma_members_keep_the_rest(offer, members);
        },
        _ => {},
    }
}

/// Adds to the offer's preview the attributes of a document of attribute
/// values. Fails with `InvalidAttributesStructure` where an element of an
/// array lacks `name` or `value`.
pub fn append_credential_values(cred_offer_msg: CredentialOffer, values: &Json) -> (r: VcxResult<
    CredentialOffer,
>)
    ensures
        outcome_of(r) == values_appended(cred_offer_msg@, values@),
{
    match values {
        Json::Array(items) => {
            let ghost all = items@.map_values(|t: String| t@);
            let ghost start = cred_offer_msg@;
            let mut offer = cred_offer_msg;
            let mut i: usize = 0;
            assert(all.skip(0) =~= all);
            while i < items.len()
                invariant
                    i <= items@.len(),
                    all == items@.map_values(|t: String| t@),
                    values@ == JsonView::Array(all),
                    start == cred_offer_msg@,
                    entries_appended(start, all) == entries_appended(offer@, all.skip(i as int)),
                decreases items@.len() - i,
            {
                assert(all.skip(i as int).drop_first() =~= all.skip(i as int + 1));
                let name = Json::get_in(items[i].as_str(), "name");
                let value = Json::get_in(items[i].as_str(), "value");
                match (name, value) {
                    (Some(n), Some(v)) => {
                        offer = offer.add_credential_preview_data(
                            n.as_str(),
                            v.as_str(),
                            MimeType::Plain,
                        );
                    },
                    _ => {
                        return Err(
                            VcxError::from_msg(
                                VcxErrorKind::InvalidAttributesStructure,
                                "No 'name' or no 'value' field in an attribute of the credential",
                            ),
                        );
                    },
                }
                i += 1;
            }
            Ok(offer)
        },
        Json::Object(members) => {
            let ghost all = members@.map_values(|m: (String, String)| (m.0@, m.1@));
            let ghost start = cred_offer_msg@;
            let mut offer = cred_offer_msg;
            let mut i: usize = 0;
            assert(all.skip(0) =~= all);
            while i < members.len()
                invariant
                    i <= members@.len(),
                    all == members@.map_values(|m: (String, String)| (m.0@, m.1@)),
                    values@ == JsonView::Object(all),
                    start == cred_offer_msg@,
                    members_appended(start, all) == members_appended(offer@, all.skip(i as int)),
                decreases members@.len() - i,
            {
                assert(all.skip(i as int).drop_first() =~= all.skip(i as int + 1));
                offer = offer.add_credential_preview_data(
                    members[i].0.as_str(),
                    members[i].1.as_str(),
                    MimeType::Plain,
                );
                i += 1;
            }
            Ok(offer)
        },
        _ => Ok(cred_offer_msg),
    }
}

/// Adds to the offer's preview the attributes that a text of attribute values
/// holds. Fails with `InvalidJson` where the text is not JSON, and with
/// `InvalidAttributesStructure` where an element of an array lacks `name` or
/// `value`.
pub fn _append_credential_preview(cred_offer_msg: CredentialOffer, credential_json: &str) -> (r:
    VcxResult<CredentialOffer>)
    ensures
        outcome_of(r) == preview_appended(cred_offer_msg@, credential_json@),
{
    match Json::parse(credential_json) {
        Ok(values) => append_credential_values(cred_offer_msg, &values),
        Err(e) => Err(e),
    }
}

} // verus!
