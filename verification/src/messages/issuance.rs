//! The four messages that carry the credential: proposal, offer, request and
//! the credential itself.
use crate::attachment::{attachment_of, AttachmentId, AttachmentView, Attachments};
use crate::ids::{fresh_id, is_uuid_text};
use crate::messages::preview::{CredentialPreviewData, CredentialValueView, MimeType};
use crate::messages::thread::{thread_or_id, Thread};
use crate::text::{clone_opt, str_eq};
use vstd::prelude::*;

verus! {

/// What a holder asks for when it proposes a credential.
#[derive(Debug)]
pub struct CredentialProposalData {
    pub schema_id: String,
    pub cred_def_id: String,
    pub comment: Option<String>,
    pub credential_proposal: CredentialPreviewData,
}

/// What a `CredentialProposalData` holds.
pub struct CredentialProposalDataView {
    pub schema_id: Seq<char>,
    pub cred_def_id: Seq<char>,
    pub comment: Option<Seq<char>>,
    pub preview: Seq<CredentialValueView>,
}

impl View for CredentialProposalData {
    type V = CredentialProposalDataView;

    open spec fn view(&self) -> CredentialProposalDataView {
        CredentialProposalDataView {
            schema_id: self.schema_id@,
            cred_def_id: self.cred_def_id@,
            comment: self.comment.deep_view(),
            preview: self.credential_proposal@,
        }
    }
}

impl Clone for CredentialProposalData {
    fn clone(&self) -> (r: Self)
        ensures
            r@ == self@,
    {
        CredentialProposalData {
            schema_id: self.schema_id.clone(),
            cred_def_id: self.cred_def_id.clone(),
            comment: clone_opt(&self.comment),
            credential_proposal: self.credential_proposal.clone(),
        }
    }
}

/// The message by which a holder proposes a credential.
#[derive(Debug)]
pub struct CredentialProposal {
    pub id: String,
    pub comment: Option<String>,
    pub credential_proposal: CredentialPreviewData,
    pub schema_id: String,
    pub cred_def_id: String,
    pub thread: Thread,
}

/// What a `CredentialProposal` holds.
pub struct CredentialProposalView {
    pub id: Seq<char>,
    pub comment: Option<Seq<char>>,
    pub preview: Seq<CredentialValueView>,
    pub schema_id: Seq<char>,
    pub cred_def_id: Seq<char>,
    pub thread: Option<Seq<char>>,
}

impl CredentialProposalView {
    /// The thread that the proposal belongs to.
    pub open spec fn thread_id(self) -> Seq<char> {
        thread_or_id(self.id, self.thread)
    }
}

impl View for CredentialProposal {
    type V = CredentialProposalView;

    open spec fn view(&self) -> CredentialProposalView {
        CredentialProposalView {
            id: self.id@,
            comment: self.comment.deep_view(),
            preview: self.credential_proposal@,
            schema_id: self.schema_id@,
            cred_def_id: self.cred_def_id@,
            thread: self.thread@,
        }
    }
}

impl Clone for CredentialProposal {
    fn clone(&self) -> (r: Self)
        ensures
            r@ == self@,
    {
        CredentialProposal {
            id: self.id.clone(),
            comment: clone_opt(&self.comment),
            credential_proposal: self.credential_proposal.clone(),
            schema_id: self.schema_id.clone(),
            cred_def_id: self.cred_def_id.clone(),
            thread: self.thread.clone(),
        }
    }
}

/// The proposal that carries the given data under the given id, outside any
/// thread.
pub open spec fn proposal_of(data: CredentialProposalDataView, id: Seq<char>)
    -> CredentialProposalView {
    CredentialProposalView {
        id,
        comment: data.comment,
        preview: data.preview,
        schema_id: data.schema_id,
        cred_def_id: data.cred_def_id,
        thread: None,
    }
}

impl CredentialProposal {
    /// The proposal that carries the given data under the given id.
    pub fn from_data(data: CredentialProposalData, id: String) -> (r: Self)
        ensures
            r@ == proposal_of(data@, id@),
    {
        CredentialProposal {
            id,
            comment: data.comment,
            credential_proposal: data.credential_proposal,
            schema_id: data.schema_id,
            cred_def_id: data.cred_def_id,
            thread: Thread::new(),
        }
    }

    /// This proposal under another id.
    pub fn set_id(self, id: &str) -> (r: Self)
        ensures
            r@ == (CredentialProposalView { id: id@, ..self@ }),
    {
        CredentialProposal { id: id.to_owned(), ..self }
    }

    /// This proposal as a reply in the given thread.
    pub fn set_thread_id(self, thread_id: &str) -> (r: Self)
        ensures
            r@ == (CredentialProposalView { thread: Some(thread_id@), ..self@ }),
    {
        CredentialProposal { thread: Thread::new().set_thid(thread_id.to_owned()), ..self }
    }

    /// The thread that this proposal belongs to.
    pub fn get_thread_id(&self) -> (r: String)
        ensures
            r@ == self@.thread_id(),
    {
        self.thread.or_id(&self.id)
    }

    /// Whether this proposal belongs to the given thread.
    pub fn from_thread(&self, thread_id: &str) -> (r: bool)
        ensures
            r == (self@.thread_id() == thread_id@),
    {
        let own = self.get_thread_id();
        str_eq(own.as_str(), thread_id)
    }
}

/// The message by which an issuer offers a credential.
#[derive(Debug)]
pub struct CredentialOffer {
    pub id: String,
    pub comment: Option<String>,
    pub credential_preview: CredentialPreviewData,
    pub offers_attach: Attachments,
    pub thread: Thread,
}

/// What a `CredentialOffer` holds.
pub struct CredentialOfferView {
    pub id: Seq<char>,
    pub comment: Option<Seq<char>>,
    pub preview: Seq<CredentialValueView>,
    pub attach: Seq<AttachmentView>,
    pub thread: Option<Seq<char>>,
}

impl CredentialOfferView {
    /// The thread that the offer belongs to.
    pub open spec fn thread_id(self) -> Seq<char> {
        thread_or_id(self.id, self.thread)
    }
}

impl View for CredentialOffer {
    type V = CredentialOfferView;

    open spec fn view(&self) -> CredentialOfferView {
        CredentialOfferView {
            id: self.id@,
            comment: self.comment.deep_view(),
            preview: self.credential_preview@,
            attach: self.offers_attach@,
            thread: self.thread@,
        }
    }
}

impl Clone for CredentialOffer {
    fn clone(&self) -> (r: Self)
        ensures
            r@ == self@,
    {
        CredentialOffer {
            id: self.id.clone(),
            comment: clone_opt(&self.comment),
            credential_preview: self.credential_preview.clone(),
            offers_attach: self.offers_attach.clone(),
            thread: self.thread.clone(),
        }
    }
}

/// The offer that holds nothing but its id.
pub open spec fn empty_offer(id: Seq<char>) -> CredentialOfferView {
    CredentialOfferView {
        id,
        comment: None,
        preview: Seq::empty(),
        attach: Seq::empty(),
        thread: None,
    }
}

impl CredentialOffer {
    /// An offer that holds nothing yet, under a fresh id: a random UUID in
    /// its hyphenated form.
    pub fn create() -> (r: Self)
        ensures
            r@ == empty_offer(r@.id),
            is_uuid_text(r@.id),
    {
        CredentialOffer::create_with_id(fresh_id())
    }

    /// An offer that holds nothing yet, under the given id.
    pub fn create_with_id(id: String) -> (r: Self)
        ensures
            r@ == empty_offer(id@),
    {
        CredentialOffer {
            id,
            comment: None,
            credential_preview: CredentialPreviewData::new(),
            offers_attach: Attachments::new(),
            thread: Thread::new(),
        }
    }

    /// This offer under another id.
    pub fn set_id(self, id: &str) -> (r: Self)
        ensures
            r@ == (CredentialOfferView { id: id@, ..self@ }),
    {
        CredentialOffer { id: id.to_owned(), ..self }
    }

    /// This offer with the given comment, or with none.
    pub fn set_comment(self, comment: Option<String>) -> (r: Self)
        ensures
            r@ == (CredentialOfferView { comment: comment.deep_view(), ..self@ }),
    {
        CredentialOffer { comment, ..self }
    }

    /// This offer as a reply in the given thread.
    pub fn set_thread_id(self, thread_id: &str) -> (r: Self)
        ensures
            r@ == (CredentialOfferView { thread: Some(thread_id@), ..self@ }),
    {
        CredentialOffer { thread: Thread::new().set_thid(thread_id.to_owned()), ..self }
    }

    /// This offer with the backend's offer attached to it.
    pub fn set_offers_attach(self, credential_offer: &str) -> (r: Self)
        ensures
            r@ == (CredentialOfferView {
                attach: self@.attach.push(
                    attachment_of(AttachmentId::CredentialOffer, credential_offer@),
                ),
                ..self@
            }),
    {
        let mut offers_attach = self.offers_attach;
        offers_attach.add_base64_encoded_json_attachment(
            AttachmentId::CredentialOffer,
            credential_offer,
        );
        CredentialOffer { offers_attach, ..self }
    }

    /// This offer with one more attribute in its preview.
    pub fn add_credential_preview_data(self, name: &str, value: &str, mime_type: MimeType) -> (r:
        Self)
        ensures
            r@ == (CredentialOfferView {
                preview: self@.preview.push(
                    CredentialValueView { name: name@, value: value@, mime_type },
                ),
                ..self@
            }),
    {
        let credential_preview = self.credential_preview.add_value(name, value, mime_type);
        CredentialOffer { credential_preview, ..self }
    }

    /// The thread that this offer belongs to.
    pub fn get_thread_id(&self) -> (r: String)
        ensures
            r@ == self@.thread_id(),
    {
        self.thread.or_id(&self.id)
    }

    /// Whether this offer belongs to the given thread.
    pub fn from_thread(&self, thread_id: &str) -> (r: bool)
        ensures
            r == (self@.thread_id() == thread_id@),
    {
        let own = self.get_thread_id();
        str_eq(own.as_str(), thread_id)
    }
}

/// The message by which a holder requests the offered credential.
#[derive(Debug)]
pub struct CredentialRequest {
    pub id: String,
    pub comment: Option<String>,
    pub requests_attach: Attachments,
    pub thread: Thread,
}

/// What a `CredentialRequest` holds.
pub struct CredentialRequestView {
    pub id: Seq<char>,
    pub comment: Option<Seq<char>>,
    pub attach: Seq<AttachmentView>,
    pub thread: Option<Seq<char>>,
}

impl View for CredentialRequest {
    type V = CredentialRequestView;

    open spec fn view(&self) -> CredentialRequestView {
        CredentialRequestView {
            id: self.id@,
            comment: self.comment.deep_view(),
            attach: self.requests_attach@,
            thread: self.thread@,
        }
    }
}

impl Clone for CredentialRequest {
    fn clone(&self) -> (r: Self)
        ensures
            r@ == self@,
    {
        CredentialRequest {
            id: self.id.clone(),
            comment: clone_opt(&self.comment),
            requests_attach: self.requests_attach.clone(),
            thread: self.thread.clone(),
        }
    }
}

/// The request that holds nothing but its id.
pub open spec fn empty_request(id: Seq<char>) -> CredentialRequestView {
    CredentialRequestView { id, comment: None, attach: Seq::empty(), thread: None }
}

impl CredentialRequest {
    /// A request that holds nothing yet, under a fresh id: a random UUID in
    /// its hyphenated form.
    pub fn create() -> (r: Self)
        ensures
            r@ == empty_request(r@.id),
            is_uuid_text(r@.id),
    {
        CredentialRequest::create_with_id(fresh_id())
    }

    /// A request that holds nothing yet, under the given id.
    pub fn create_with_id(id: String) -> (r: Self)
        ensures
            r@ == empty_request(id@),
    {
        CredentialRequest {
            id,
            comment: None,
            requests_attach: Attachments::new(),
            thread: Thread::new(),
        }
    }

    /// This request as a reply in the given thread.
    pub fn set_thread_id(self, thread_id: &str) -> (r: Self)
        ensures
            r@ == (CredentialRequestView { thread: Some(thread_id@), ..self@ }),
    {
        CredentialRequest { thread: Thread::new().set_thid(thread_id.to_owned()), ..self }
    }

    /// This request with the backend's request attached to it.
    pub fn set_requests_attach(self, credential_request: &str) -> (r: Self)
        ensures
            r@ == (CredentialRequestView {
                attach: self@.attach.push(
                    attachment_of(AttachmentId::CredentialRequest, credential_request@),
                ),
                ..self@
            }),
    {
        let mut requests_attach = self.requests_attach;
        requests_attach.add_base64_encoded_json_attachment(
            AttachmentId::CredentialRequest,
            credential_request,
        );
        CredentialRequest { requests_attach, ..self }
    }

    /// Whether this request replies to the given thread.
    pub fn from_thread(&self, thread_id: &str) -> (r: bool)
        ensures
            r == (self@.thread == Some(thread_id@)),
    {
        self.thread.is_reply(thread_id)
    }
}

/// The message that carries the issued credential.
#[derive(Debug)]
pub struct Credential {
    pub id: String,
    pub comment: Option<String>,
    pub credentials_attach: Attachments,
    pub thread: Thread,
}

/// What a `Credential` holds.
pub struct CredentialView {
    pub id: Seq<char>,
    pub comment: Option<Seq<char>>,
    pub attach: Seq<AttachmentView>,
    pub thread: Option<Seq<char>>,
}

impl View for Credential {
    type V = CredentialView;

    open spec fn view(&self) -> CredentialView {
        CredentialView {
            id: self.id@,
            comment: self.comment.deep_view(),
            attach: self.credentials_attach@,
            thread: self.thread@,
        }
    }
}

impl Clone for Credential {
    fn clone(&self) -> (r: Self)
        ensures
            r@ == self@,
    {
        Credential {
            id: self.id.clone(),
            comment: clone_opt(&self.comment),
            credentials_attach: self.credentials_attach.clone(),
            thread: self.thread.clone(),
        }
    }
}

/// The credential message that holds nothing but its id.
pub open spec fn empty_credential(id: Seq<char>) -> CredentialView {
    CredentialView { id, comment: None, attach: Seq::empty(), thread: None }
}

impl Credential {
    /// A credential message that holds nothing yet, under a fresh id: a
    /// random UUID in its hyphenated form.
    pub fn create() -> (r: Self)
        ensures
            r@ == empty_credential(r@.id),
            is_uuid_text(r@.id),
    {
        Credential::create_with_id(fresh_id())
    }

    /// A credential message that holds nothing yet, under the given id.
    pub fn create_with_id(id: String) -> (r: Self)
        ensures
            r@ == empty_credential(id@),
    {
        Credential {
            id,
            comment: None,
            credentials_attach: Attachments::new(),
            thread: Thread::new(),
        }
    }

    /// This message as a reply in the given thread.
    pub fn set_thread_id(self, thread_id: &str) -> (r: Self)
        ensures
            r@ == (CredentialView { thread: Some(thread_id@), ..self@ }),
    {
        Credential { thread: Thread::new().set_thid(thread_id.to_owned()), ..self }
    }

    /// This message with the backend's credential attached to it.
    pub fn set_credential(self, credential: &str) -> (r: Self)
        ensures
            r@ == (CredentialView {
                attach: self@.attach.push(attachment_of(AttachmentId::Credential, credential@)),
                ..self@
            }),
    {
        let mut credentials_attach = self.credentials_attach;
        credentials_attach.add_base64_encoded_json_attachment(
            AttachmentId::Credential,
            credential,
        );
        Credential { credentials_attach, ..self }
    }

    /// Whether this message replies to the given thread.
    pub fn from_thread(&self, thread_id: &str) -> (r: bool)
        ensures
            r == (self@.thread == Some(thread_id@)),
    {
        self.thread.is_reply(thread_id)
    }
}

/// What an issuer is to offer: the credential definition, the attribute
/// values, and where the credential can be revoked, if it can.
#[derive(Debug)]
pub struct OfferInfo {
    pub credential_json: String,
    pub cred_def_id: String,
    pub rev_reg_id: Option<String>,
    pub tails_file: Option<String>,
}

/// What an `OfferInfo` holds.
pub struct OfferInfoView {
    pub credential_json: Seq<char>,
    pub cred_def_id: Seq<char>,
    pub rev_reg_id: Option<Seq<char>>,
    pub tails_file: Option<Seq<char>>,
}

impl View for OfferInfo {
    type V = OfferInfoView;

    open spec fn view(&self) -> OfferInfoView {
        OfferInfoView {
            credential_json: self.credential_json@,
            cred_def_id: self.cred_def_id@,
            rev_reg_id: self.rev_reg_id.deep_view(),
            tails_file: self.tails_file.deep_view(),
        }
    }
}

impl Clone for OfferInfo {
    fn clone(&self) -> (r: Self)
        ensures
            r@ == self@,
    {
        OfferInfo {
            credential_json: self.credential_json.clone(),
            cred_def_id: self.cred_def_id.clone(),
            rev_reg_id: clone_opt(&self.rev_reg_id),
            tails_file: clone_opt(&self.tails_file),
        }
    }
}

} // verus!
