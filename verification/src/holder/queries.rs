//! What a holder can be asked about its interaction.
use crate::attachment::content_of;
use crate::backend::AnoncredsBackend;
use crate::error::{outcome_of, VcxError, VcxErrorKind, VcxResult};
use crate::holder::state_machine::{HolderSM, HolderSMView};
use crate::holder::states::{HolderFullState, HolderFullStateView};
use crate::json::{
    json_of_text, member_of_text, object_of_strings, string_member_of_text, Json, JsonView,
};
use crate::messages::a2a::{A2AMessage, A2AMessageView};
use crate::messages::issuance::{CredentialOffer, CredentialOfferView};
use crate::messages::preview::{CredentialPreviewData, CredentialValueView};
use vstd::prelude::*;

verus! {

/// The attributes of a preview, each name with its value.
pub open spec fn preview_pairs(preview: Seq<CredentialValueView>) -> Seq<(Seq<char>, Seq<char>)> {
    preview.map_values(|a: CredentialValueView| (a.name, a.value))
}

/// The members of a credential's values, each value replaced by its raw
/// value. A value without a raw value that is a string is refused.
pub open spec fn raw_members(members: Seq<(Seq<char>, Seq<char>)>) -> Option<
    Seq<(Seq<char>, Seq<char>)>,
>
    decreases members.len(),
{
    if members.len() == 0 {
        Some(Seq::empty())
    } else {
        match (string_member_of_text(members[0].1, "raw"@), raw_members(members.drop_first())) {
            (Some(raw), Some(rest)) => Some(seq![(members[0].0, raw)] + rest),
            _ => None,
        }
    }
}

/// The attributes of an issued credential, as the JSON object of their raw
/// values: the credential's member `values` must be an object whose members
/// each have a raw value.
pub open spec fn credential_attributes(credential: Seq<char>) -> Option<Seq<char>> {
    match member_of_text(credential, "values"@) {
        Some(values) => match json_of_text(values) {
            Some(JsonView::Object(members)) => match raw_members(members) {
                Some(raw) => object_of_strings(raw),
                None => None,
            },
            _ => None,
        },
        None => None,
    }
}

/// The string at the given key of a JSON text, or the failure `InvalidJson`.
pub open spec fn required(found: Option<Seq<char>>) -> Result<Seq<char>, VcxErrorKind> {
    match found {
        Some(text) => Ok(text),
        None => Err(VcxErrorKind::InvalidJson),
    }
}

impl HolderSMView {
    /// The offer that waits for the holder's decision.
    pub open spec fn offer(self) -> Option<CredentialOfferView> {
        match self.state {
            HolderFullStateView::OfferReceived(offer) => Some(offer),
            _ => None,
        }
    }

    /// The stored credential with the id under which it is stored.
    pub open spec fn credential(self) -> Option<(Seq<char>, A2AMessageView)> {
        match self.state {
            HolderFullStateView::Finished(s) => match (s.cred_id, s.credential) {
                (Some(id), Some(credential)) => Some((id, A2AMessageView::Credential(credential))),
                _ => None,
            },
            _ => None,
        }
    }

    /// The id under which the credential is stored.
    pub open spec fn credential_id(self) -> Option<Seq<char>> {
        match self.state {
            HolderFullStateView::Finished(s) => s.cred_id,
            _ => None,
        }
    }

    /// What is attached to the received credential or, before the request,
    /// to the received offer.
    pub open spec fn attachment(self) -> Result<Seq<char>, VcxErrorKind> {
        match self.state {
            HolderFullStateView::Finished(s) => match s.credential {
                Some(credential) => required(content_of(credential.attach)),
                None => Err(VcxErrorKind::InvalidState),
            },
            HolderFullStateView::OfferReceived(offer) => required(content_of(offer.attach)),
            _ => Err(VcxErrorKind::InvalidState),
        }
    }

    /// The attributes of the received credential or, before the request, of
    /// the received offer's preview, as a JSON object.
    pub open spec fn attributes(self) -> Result<Seq<char>, VcxErrorKind> {
        match self.state {
            HolderFullStateView::Finished(_) => match self.attachment() {
                Ok(credential) => required(credential_attributes(credential)),
                Err(kind) => Err(kind),
            },
            HolderFullStateView::OfferReceived(offer) => required(
                object_of_strings(preview_pairs(offer.preview)),
            ),
            _ => Err(VcxErrorKind::InvalidState),
        }
    }

    /// The definition of the credential's revocation registry.
    pub open spec fn rev_reg_def(self) -> Option<Seq<char>> {
        match self.state {
            HolderFullStateView::Finished(s) => s.rev_reg_def_json,
            _ => None,
        }
    }

    /// The string at the given key of the member `value` of the revocation
    /// registry's definition.
    pub open spec fn tails(self, key: Seq<char>) -> Result<Seq<char>, VcxErrorKind> {
        match self.rev_reg_def() {
            Some(definition) => match member_of_text(definition, "value"@) {
                Some(value) => required(string_member_of_text(value, key)),
                None => Err(VcxErrorKind::InvalidJson),
            },
            None => Err(VcxErrorKind::InvalidState),
        }
    }

    /// The id of the credential's revocation registry.
    pub open spec fn rev_reg_id(self) -> Result<Seq<char>, VcxErrorKind> {
        match self.rev_reg_def() {
            Some(definition) => required(string_member_of_text(definition, "id"@)),
            None => Err(VcxErrorKind::InvalidState),
        }
    }
}

/// The failure of a question that the state cannot answer.
fn invalid_state(msg: &str) -> (r: VcxError)
    ensures
        r@.kind == VcxErrorKind::InvalidState,
{
    VcxError::from_msg(VcxErrorKind::InvalidState, msg)
}

/// The failure of a question whose answer is not in a document.
fn invalid_json(msg: &str) -> (r: VcxError)
    ensures
        r@.kind == VcxErrorKind::InvalidJson,
{
    VcxError::from_msg(VcxErrorKind::InvalidJson, msg)
}

/// The attributes of an offer's preview, as a JSON object of strings, or
/// nothing where it cannot be written as JSON.
pub fn preview_attributes(preview: &CredentialPreviewData) -> (r: Option<String>)
    ensures
        r.deep_view() == object_of_strings(preview_pairs(preview@)),
{
    let mut members: Vec<(String, String)> = Vec::new();
    let mut i: usize = 0;
    while i < preview.attributes.len()
        invariant
            i <= preview.attributes@.len(),
            members@.len() == i,
            forall|j: int|
                0 <= j < i ==> (#[trigger] members@[j]).0@ == preview.attributes@[j].name@
                    && members@[j].1@ == preview.attributes@[j].value@,
        decreases preview.attributes@.len() - i,
    {
        let attribute = &preview.attributes[i];
        members.push((attribute.name.clone(), attribute.value.clone()));
        i += 1;
    }
    assert(members@.map_values(|m: (String, String)| (m.0@, m.1@)) =~= preview_pairs(preview@));
    Json::render_strings(&members)
}

/// The attributes of an issued credential, as the JSON object of their raw
/// values. Fails with `InvalidJson` where the credential has no member
/// `values` that is an object, one of the values has no raw value, or the
/// object cannot be written as JSON.
pub fn attributes_of_credential(credential: &str) -> (r: VcxResult<String>)
    ensures
        outcome_of(r) == required(credential_attributes(credential@)),
{
    let values = match Json::get_in(credential, "values") {
        Some(values) => values,
        None => {
            return Err(invalid_json("Cannot read the values of the credential"));
        },
    };
    let members = match Json::parse(values.as_str()) {
        Ok(Json::Object(members)) => members,
        _ => {
            return Err(invalid_json("Cannot read the values of the credential"));
        },
    };
    let ghost all = members@.map_values(|m: (String, String)| (m.0@, m.1@));
    let mut out: Vec<(String, String)> = Vec::new();
    let mut i: usize = members.len();
    while i > 0
        invariant
            i <= members@.len(),
            all == members@.map_values(|m: (String, String)| (m.0@, m.1@)),
            member_of_text(credential@, "values"@) == Some(values@),
            json_of_text(values@) == Some(JsonView::Object(all)),
            raw_members(all.skip(i as int)) == Some(
                out@.map_values(|m: (String, String)| (m.0@, m.1@)),
            ),
        decreases i,
    {
        i -= 1;
        assert(all.skip(i as int).drop_first() =~= all.skip(i as int + 1));
        let raw = match Json::string_member_in(members[i].1.as_str(), "raw") {
            Some(raw) => raw,
            None => {
                proof {
                    lemma_raw_members_refused(all, i as int);
                }
                return Err(invalid_json("Missing raw encoding on credential value"));
            },
        };
        out.insert(0, (members[i].0.clone(), raw));
    }
    assert(all.skip(0) =~= all);
    match Json::render_strings(&out) {
        Some(text) => Ok(text),
        None => Err(invalid_json("The attributes cannot be written as JSON")),
    }
}

/// Where one member is refused, the members are refused.
proof fn lemma_raw_members_refused(members: Seq<(Seq<char>, Seq<char>)>, at: int)
    requires
        0 <= at < members.len(),
        string_member_of_text(members[at].1, "raw"@) is None,
    ensures
        raw_members(members) is None,
    decreases at,
{
    if at > 0 {
        let rest = members.drop_first();
        lemma_raw_members_refused(rest, at - 1);
    }
}

impl HolderSM {
    /// The offer that waits for the holder's decision. Fails with
    /// `InvalidState` in any state but `OfferReceived`.
    pub fn get_offer(&self) -> (r: VcxResult<CredentialOffer>)
        ensures
            match r {
                Ok(offer) => self@.offer() == Some(offer@),
                Err(e) => self@.offer() is None && e@.kind == VcxErrorKind::InvalidState,
            },
    {
        match self.full_state() {
            HolderFullState::OfferReceived(state) => Ok(state.offer.clone()),
            _ => Err(
                invalid_state("Credential offer can only be obtained from OfferReceived state"),
            ),
        }
    }

    /// The stored credential, as a message, with the id under which it is
    /// stored. Fails with `InvalidState` where no credential is stored.
    pub fn get_credential(&self) -> (r: VcxResult<(String, A2AMessage)>)
        ensures
            match r {
                Ok((id, message)) => self@.credential() == Some((id@, message@)),
                Err(e) => self@.credential() is None && e@.kind == VcxErrorKind::InvalidState,
            },
    {
        match self.full_state() {
            HolderFullState::Finished(state) => match (&state.cred_id, &state.credential) {
                (Some(id), Some(credential)) => Ok(
                    (id.clone(), credential.clone().to_a2a_message()),
                ),
                _ => Err(invalid_state("Cannot get credential: no credential is stored")),
            },
            _ => Err(
                invalid_state("Cannot get credential: credential issuance is not finished yet"),
            ),
        }
    }

    /// The id under which the credential is stored. Fails with `InvalidState`
    /// where none is stored.
    pub fn stored_credential_id(&self) -> (r: VcxResult<String>)
        ensures
            match r {
                Ok(id) => self@.credential_id() == Some(id@),
                Err(e) => self@.credential_id() is None && e@.kind == VcxErrorKind::InvalidState,
            },
    {
        match self.full_state() {
            HolderFullState::Finished(state) => match &state.cred_id {
                Some(id) => Ok(id.clone()),
                None => Err(invalid_state("Cannot delete credential: credential id not found")),
            },
            _ => Err(
                invalid_state("Cannot delete credential: credential issuance is not finished yet"),
            ),
        }
    }

    /// What is attached to the received credential or, before the request,
    /// to the received offer. Fails with `InvalidState` in a state that holds
    /// neither, and with `InvalidJson` where the attachment cannot be read.
    pub fn get_attachment(&self) -> (r: VcxResult<String>)
        ensures
            outcome_of(r) == self@.attachment(),
    {
        match self.full_state() {
            HolderFullState::Finished(state) => match &state.credential {
                Some(credential) => credential.credentials_attach.content(),
                None => Err(invalid_state("No credential found")),
            },
            HolderFullState::OfferReceived(state) => state.offer.offers_attach.content(),
            _ => Err(
                invalid_state("Cannot get attachment: no offer and no credential received"),
            ),
        }
    }

    /// The attributes of the received credential or, before the request, of
    /// the received offer's preview, as a JSON object. Fails with
    /// `InvalidState` in a state that holds neither, and with `InvalidJson`
    /// where the credential cannot be read or the object cannot be written.
    pub fn get_attributes(&self) -> (r: VcxResult<String>)
        ensures
            outcome_of(r) == self@.attributes(),
    {
        match self.full_state() {
            HolderFullState::Finished(_) => match self.get_attachment() {
                Ok(credential) => attributes_of_credential(credential.as_str()),
                Err(e) => Err(e),
            },
            HolderFullState::OfferReceived(state) => match preview_attributes(
                &state.offer.credential_preview,
            ) {
                Some(text) => Ok(text),
                None => Err(invalid_json("The attributes cannot be written as JSON")),
            },
            _ => Err(
                invalid_state("Cannot get attributes: no offer and no credential received"),
            ),
        }
    }

    /// The string at the given key of the member `value` of the revocation
    /// registry's definition.
    fn tails(&self, key: &str) -> (r: VcxResult<String>)
        ensures
            outcome_of(r) == self@.tails(key@),
    {
        match self.full_state() {
            HolderFullState::Finished(state) => match &state.rev_reg_def_json {
                Some(definition) => match Json::get_in(definition.as_str(), "value") {
                    Some(value) => match Json::string_member_in(value.as_str(), key) {
                        Some(found) => Ok(found),
                        None => Err(
                            invalid_json("The revocation registry definition lacks a member"),
                        ),
                    },
                    None => Err(invalid_json("The revocation registry definition has no value")),
                },
                None => Err(
                    invalid_state(
                        "No revocation registry definition found - is this credential revokable?",
                    ),
                ),
            },
            _ => Err(invalid_state("Credential exchange is not finished yet")),
        }
    }

    /// Where the tails file of the credential's revocation registry is. Fails
    /// with `InvalidState` where the state holds no definition of a registry,
    /// and with `InvalidJson` where the definition does not say.
    pub fn get_tails_location(&self) -> (r: VcxResult<String>)
        ensures
            outcome_of(r) == self@.tails("tailsLocation"@),
    {
        self.tails("tailsLocation")
    }

    /// The hash of the tails file of the credential's revocation registry.
    /// Fails as `get_tails_location` does.
    pub fn get_tails_hash(&self) -> (r: VcxResult<String>)
        ensures
            outcome_of(r) == self@.tails("tailsHash"@),
    {
        self.tails("tailsHash")
    }

    /// The id of the credential's revocation registry. Fails with
    /// `InvalidState` where the state holds no definition of a registry, and
    /// with `InvalidJson` where the definition has no id.
    pub fn get_rev_reg_id(&self) -> (r: VcxResult<String>)
        ensures
            outcome_of(r) == self@.rev_reg_id(),
    {
        match self.full_state() {
            HolderFullState::Finished(state) => match &state.rev_reg_def_json {
                Some(definition) => match Json::string_member_in(definition.as_str(), "id") {
                    Some(found) => Ok(found),
                    None => Err(invalid_json("The revocation registry definition has no id")),
                },
                None => Err(
                    invalid_state(
                        "No revocation registry definition found - is this credential revokable?",
                    ),
                ),
            },
            _ => Err(invalid_state("Credential exchange is not finished yet")),
        }
    }

    /// Whether the received credential can be revoked: whether the finished
    /// interaction holds the definition of a revocation registry. Fails with
    /// `InvalidState` before the interaction is over.
    pub fn is_revokable(&self) -> (r: VcxResult<bool>)
        ensures
            match r {
                Ok(revokable) => self@.is_terminal() && revokable == (self@.rev_reg_def()
                    is Some),
                Err(e) => !self@.is_terminal() && e@.kind == VcxErrorKind::InvalidState,
            },
    {
        match self.full_state() {
            HolderFullState::Finished(state) => Ok(state.rev_reg_def_json.is_some()),
            _ => Err(invalid_state("Credential exchange is not finished yet")),
        }
    }

    /// Deletes the stored credential through the backend. Fails with
    /// `InvalidState` where none is stored, and then the backend is not
    /// asked; else the backend is asked to delete the credential under the
    /// stored id, and its answer is the result.
    pub fn delete_credential<B: AnoncredsBackend>(&self, backend: &B) -> (r: VcxResult<()>)
        ensures
            match self@.credential_id() {
                None => r matches Err(e) && e@.kind == VcxErrorKind::InvalidState,
                Some(id) => backend.delete_outcome(id, r),
            },
    {
        match self.stored_credential_id() {
            Ok(id) => backend.delete_credential(id.as_str()),
            Err(e) => Err(e),
        }
    }
}

} // verus!
