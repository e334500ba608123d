//! The holder's state machine.
use crate::attachment::{attachment_of, content_of, AttachmentId};
use crate::backend::AnoncredsBackend;
use crate::bag::MessageBag;
use crate::error::{VcxError, VcxErrorKind, VcxResult};
use crate::holder::states::{
    failed, stored, FinishedHolderState, HolderFullState, HolderFullStateView, HolderState,
    InitialHolderState, OfferReceivedState, ProposalSentState, RequestSentState,
    RequestSentStateView,
};
use crate::ids::{fresh_id, is_uuid_text};
use crate::json::{json_of_text, string_member_of_text, Json};
use crate::messages::a2a::{
    verify_thread_id, A2AMessage, A2AMessageView, CredentialIssuanceMessage,
    CredentialIssuanceMessageView,
};
use crate::messages::issuance::{
    empty_request, proposal_of, Credential, CredentialOffer, CredentialOfferView,
    CredentialProposal, CredentialProposalData, CredentialProposalDataView,
    CredentialProposalView, CredentialRequest, CredentialRequestView, CredentialView,
};
use crate::messages::notice::{problem_report_of, ProblemReport, StatusView};
use crate::transport::{deliver, send_failed, sent_through, takes_all};
use vstd::prelude::*;

verus! {

/// One interaction in which this agent receives a credential.
#[derive(Debug)]
pub struct HolderSM {
    state: HolderFullState,
    source_id: String,
    thread_id: String,
}

/// What a `HolderSM` holds.
pub struct HolderSMView {
    pub source_id: Seq<char>,
    pub thread_id: Seq<char>,
    pub state: HolderFullStateView,
}

impl View for HolderSM {
    type V = HolderSMView;

    closed spec fn view(&self) -> HolderSMView {
        HolderSMView { source_id: self.source_id@, thread_id: self.thread_id@, state: self.state@ }
    }
}

impl Clone for HolderSM {
    fn clone(&self) -> (r: Self)
        ensures
            r@ == self@,
    {
        HolderSM {
            state: self.state.clone(),
            source_id: self.source_id.clone(),
            thread_id: self.thread_id.clone(),
        }
    }
}

impl Default for HolderSM {
    /// An interaction in its initial state, without a name and without a
    /// thread.
    fn default() -> (r: Self)
        ensures
            r@ == (HolderSMView {
                source_id: Seq::empty(),
                thread_id: Seq::empty(),
                state: HolderFullStateView::Initial,
            }),
    {
        HolderSM {
            state: HolderFullState::default(),
            source_id: String::new(),
            thread_id: String::new(),
        }
    }
}

/// What the outcome of handling an event holds: the view of the machine that
/// follows, or the failure.
pub open spec fn machine_view(r: VcxResult<HolderSM>) -> Result<HolderSMView, VcxError> {
    match r {
        Ok(next) => Ok(next@),
        Err(e) => Err(e),
    }
}

/// The request message that carries the backend's request under the given id,
/// as a reply in the given thread.
pub open spec fn request_message(id: Seq<char>, request: Seq<char>, thread_id: Seq<char>)
    -> CredentialRequestView {
    CredentialRequestView {
        attach: seq![attachment_of(AttachmentId::CredentialRequest, request)],
        thread: Some(thread_id),
        ..empty_request(id)
    }
}

/// What the backend needs of an offer to make the request: the id of the
/// credential definition, which the attached offer names, and the attached
/// offer itself.
pub open spec fn request_inputs(offer: CredentialOfferView) -> Result<
    (Seq<char>, Seq<char>),
    VcxErrorKind,
> {
    match content_of(offer.attach) {
        None => Err(VcxErrorKind::InvalidJson),
        Some(attached) => match string_member_of_text(attached, "cred_def_id"@) {
            Some(cred_def_id) => Ok((cred_def_id, attached)),
            None => Err(VcxErrorKind::InvalidJson),
        },
    }
}

/// What the backend needs of a credential message to store the credential:
/// the attached credential, and the id of its revocation registry where it
/// names one.
pub open spec fn store_inputs(credential: CredentialView) -> Result<
    (Seq<char>, Option<Seq<char>>),
    VcxErrorKind,
> {
    match content_of(credential.attach) {
        None => Err(VcxErrorKind::InvalidJson),
        Some(attached) => if json_of_text(attached) is Some {
            Ok((attached, string_member_of_text(attached, "rev_reg_id"@)))
        } else {
            Err(VcxErrorKind::InvalidJson)
        },
    }
}

impl HolderSMView {
    /// Whether the machine is one that the transitions make: a finished
    /// interaction has ended with success or with failure.
    pub open spec fn valid(self) -> bool {
        self.state matches HolderFullStateView::Finished(s) ==> s.valid()
    }

    /// Whether the interaction is over.
    pub open spec fn is_terminal(self) -> bool {
        self.state is Finished
    }

    /// The state as callers see it: a finished interaction has failed unless
    /// its status is success.
    pub open spec fn state_name(self) -> HolderState {
        match self.state {
            HolderFullStateView::Initial => HolderState::Initial,
            HolderFullStateView::ProposalSent(_) => HolderState::ProposalSent,
            HolderFullStateView::OfferReceived(_) => HolderState::OfferReceived,
            HolderFullStateView::RequestSent(_) => HolderState::RequestSent,
            HolderFullStateView::Finished(s) => match s.status {
                StatusView::Success => HolderState::Finished,
                _ => HolderState::Failed,
            },
        }
    }

    /// The number of the interaction's status: 0 until it is over.
    pub open spec fn status_code(self) -> u32 {
        match self.state {
            HolderFullStateView::Finished(s) => s.status.code(),
            _ => 0,
        }
    }

    /// Whether the event passes the thread check: in the initial state every
    /// event does, later only one that names no thread or the interaction's.
    pub open spec fn accepts_thread(self, event: CredentialIssuanceMessageView) -> bool {
        self.state is Initial || event.thread_id_matches(self.thread_id)
    }

    /// Whether a proposal can be sent in this state.
    pub open spec fn can_propose(self) -> bool {
        self.state is Initial || self.state is OfferReceived
    }

    /// Whether the event, in this state, has the holder act towards the other
    /// agent or the backend: send a proposal, a request or a rejection, or
    /// store the credential.
    pub open spec fn acts(self, event: CredentialIssuanceMessageView) -> bool {
        match event {
            CredentialIssuanceMessageView::CredentialProposalSend(_) => self.can_propose(),
            CredentialIssuanceMessageView::CredentialRequestSend(_) => self.state is OfferReceived,
            CredentialIssuanceMessageView::CredentialOfferReject(_) => self.state is OfferReceived,
            CredentialIssuanceMessageView::Credential(_) => self.state is RequestSent,
            _ => false,
        }
    }

    /// The machine with another state.
    pub open spec fn with_state(self, state: HolderFullStateView) -> HolderSMView {
        HolderSMView { state, ..self }
    }

    /// The machine after an event on which the holder does not act: the
    /// transitions on an offer and on a problem report, and no change on any
    /// event that the state has no transition for. An offer that arrives in
    /// the initial state brings the thread of the interaction.
    pub open spec fn received(self, event: CredentialIssuanceMessageView) -> HolderSMView {
        match (self.state, event) {
            (HolderFullStateView::Initial, CredentialIssuanceMessageView::CredentialOffer(offer)) =>
                HolderSMView {
                source_id: self.source_id,
                thread_id: offer.thread_id(),
                state: HolderFullStateView::OfferReceived(offer),
            },
            (
                HolderFullStateView::ProposalSent(_),
                CredentialIssuanceMessageView::CredentialOffer(offer),
            ) => self.with_state(HolderFullStateView::OfferReceived(offer)),
            (
                HolderFullStateView::RequestSent(_),
                CredentialIssuanceMessageView::ProblemReport(report),
            ) => self.with_state(HolderFullStateView::Finished(failed(report))),
            _ => self,
        }
    }

    /// The proposal that the holder sends. The first message of an
    /// interaction opens the thread under its own id; a proposal that answers
    /// an offer has the given id and replies to the thread.
    pub open spec fn proposal_message(self, data: CredentialProposalDataView, id: Seq<char>)
        -> CredentialProposalView {
        if self.state is Initial {
            proposal_of(data, self.thread_id)
        } else {
            CredentialProposalView { thread: Some(self.thread_id), ..proposal_of(data, id) }
        }
    }

    /// Whether the machine `next` is this one after it sent, through the
    /// callback, the proposal of the given data under the id `id`.
    pub open spec fn proposed_with<F: Fn(&A2AMessage) -> VcxResult<()>>(
        self,
        data: CredentialProposalDataView,
        send_message: Option<&F>,
        next: HolderSMView,
        id: Seq<char>,
    ) -> bool {
        &&& sent_through(
            send_message,
            A2AMessageView::CredentialProposal(self.proposal_message(data, id)),
        )
        &&& next == self.with_state(
            HolderFullStateView::ProposalSent(self.proposal_message(data, id)),
        )
    }

    /// Whether the machine `next` is this one after it declined the offer and
    /// sent, through the callback, the problem report with the given comment
    /// under the id `id`.
    pub open spec fn declined_with<F: Fn(&A2AMessage) -> VcxResult<()>>(
        self,
        comment: Option<Seq<char>>,
        send_message: Option<&F>,
        next: HolderSMView,
        id: Seq<char>,
    ) -> bool {
        &&& sent_through(
            send_message,
            A2AMessageView::CommonProblemReport(problem_report_of(id, comment, self.thread_id)),
        )
        &&& next == self.with_state(
            HolderFullStateView::Finished(failed(problem_report_of(id, comment, self.thread_id))),
        )
    }

    /// Whether `outcome` is what follows from the backend's answer `b` to the
    /// question for a credential request under the given pairwise DID, with
    /// `id` as the id of the request message. Where the offer cannot be used,
    /// the failure that says so is the outcome and the backend is not asked.
    /// Else the backend was asked with the credential definition that the
    /// attached offer names and with the attached offer. Its failure is the
    /// outcome; after its answer the outcome is that of sending the request:
    /// the machine that waits for the credential and keeps what came with
    /// the request, or the failure of sending.
    pub open spec fn request_handled<B: AnoncredsBackend, F: Fn(&A2AMessage) -> VcxResult<()>>(
        self,
        backend: &B,
        my_pw_did: Seq<char>,
        send_message: Option<&F>,
        b: VcxResult<(String, String, String)>,
        id: Seq<char>,
        outcome: Result<HolderSMView, VcxError>,
    ) -> bool {
        &&& self.state matches HolderFullStateView::OfferReceived(offer)
        &&& match request_inputs(offer) {
            Err(kind) => outcome matches Err(e) && e@.kind == kind,
            Ok(inputs) => backend.request_outcome(inputs.0, my_pw_did, inputs.1, b) && match b {
                Err(e) => outcome matches Err(f) && f@ == e@,
                Ok(made) => match outcome {
                    Ok(next) => sent_through(
                        send_message,
                        A2AMessageView::CredentialRequest(
                            request_message(id, made.0@, self.thread_id),
                        ),
                    ) && next == self.with_state(
                        HolderFullStateView::RequestSent(
                            RequestSentStateView { req_meta: made.1@, cred_def_json: made.2@ },
                        ),
                    ),
                    Err(e) => send_failed(send_message, e),
                },
            },
        }
    }

    /// Whether `outcome` is what follows from the backend's answer `b` to the
    /// request to store the attached credential with the given definition of
    /// a revocation registry, if any: the backend's failure, or the machine
    /// that has finished with success and holds the id under which the
    /// credential is stored.
    pub open spec fn stored_by<B: AnoncredsBackend>(
        self,
        backend: &B,
        kept: RequestSentStateView,
        attached: Seq<char>,
        credential: CredentialView,
        definition: Option<Seq<char>>,
        b: VcxResult<String>,
        outcome: Result<HolderSMView, VcxError>,
    ) -> bool {
        &&& backend.store_outcome(kept.req_meta, attached, kept.cred_def_json, definition, b)
        &&& match b {
            Err(e) => outcome matches Err(f) && f@ == e@,
            Ok(cred_id) => outcome == Ok::<HolderSMView, VcxError>(
                self.with_state(
                    HolderFullStateView::Finished(stored(cred_id@, credential, definition)),
                ),
            ),
        }
    }

    /// Whether `outcome` is what follows from the backend's answers when the
    /// given credential arrives: `d` to the question for the definition of
    /// the revocation registry, `b` to the request to store the credential.
    /// Where the credential cannot be read, the failure that says so is the
    /// outcome and the backend is not asked. Where the credential names a
    /// revocation registry, the backend was asked for its definition; its
    /// failure is the outcome, and its answer is stored with the credential
    /// and kept. Where the credential names none, the backend was not asked
    /// for one, and none is stored or kept.
    pub open spec fn store_handled<B: AnoncredsBackend>(
        self,
        backend: &B,
        credential: CredentialView,
        d: VcxResult<String>,
        b: VcxResult<String>,
        outcome: Result<HolderSMView, VcxError>,
    ) -> bool {
        &&& self.state matches HolderFullStateView::RequestSent(kept)
        &&& match store_inputs(credential) {
            Err(kind) => outcome matches Err(e) && e@.kind == kind,
            Ok(inputs) => match inputs.1 {
                Some(rev_reg_id) => backend.registry_outcome(rev_reg_id, d) && match d {
                    Err(e) => outcome matches Err(f) && f@ == e@,
                    Ok(definition) => self.stored_by(
                        backend,
                        kept,
                        inputs.0,
                        credential,
                        Some(definition@),
                        b,
                        outcome,
                    ),
                },
                None => self.stored_by(backend, kept, inputs.0, credential, None, b, outcome),
            },
        }
    }

    /// Whether `outcome` is an outcome of requesting the offered credential
    /// under the given pairwise DID: what follows from some answer of the
    /// backend, under some id of the request message.
    pub open spec fn requesting<B: AnoncredsBackend, F: Fn(&A2AMessage) -> VcxResult<()>>(
        self,
        backend: &B,
        my_pw_did: Seq<char>,
        send_message: Option<&F>,
        outcome: Result<HolderSMView, VcxError>,
    ) -> bool {
        exists|b: VcxResult<(String, String, String)>, id: Seq<char>| #[trigger]
            self.request_handled(backend, my_pw_did, send_message, b, id, outcome)
    }

    /// Whether `outcome` is an outcome of storing the given credential: what
    /// follows from some answers of the backend.
    pub open spec fn storing<B: AnoncredsBackend>(
        self,
        backend: &B,
        credential: CredentialView,
        outcome: Result<HolderSMView, VcxError>,
    ) -> bool {
        exists|d: VcxResult<String>, b: VcxResult<String>| #[trigger]
            self.store_handled(backend, credential, d, b, outcome)
    }

    /// Whether `outcome` is an outcome of handling the event: the machine that
    /// follows, or the failure after which no machine follows.
    ///
    /// An inbound message that names another thread than the interaction's is
    /// refused with `ThreadIdMismatch`, except in the initial state. An event
    /// on which the holder does not act always succeeds. A proposal or a
    /// rejection succeeds with the message sent through the callback, and
    /// fails only where sending fails. The request and the arrival of the
    /// credential have the outcome that follows from the backend's answers,
    /// as `request_handled` and `store_handled` say.
    pub open spec fn handled<B: AnoncredsBackend, F: Fn(&A2AMessage) -> VcxResult<()>>(
        self,
        event: CredentialIssuanceMessageView,
        backend: &B,
        send_message: Option<&F>,
        outcome: Result<HolderSMView, VcxError>,
    ) -> bool {
        if !self.accepts_thread(event) {
            outcome matches Err(e) && e@.kind == VcxErrorKind::ThreadIdMismatch
        } else if !self.acts(event) {
            outcome == Ok::<HolderSMView, VcxError>(self.received(event))
        } else {
            match event {
                CredentialIssuanceMessageView::CredentialProposalSend(data) => match outcome {
                    Ok(next) => exists|id: Seq<char>| #[trigger]
                        self.proposed_with(data, send_message, next, id),
                    Err(e) => send_failed(send_message, e),
                },
                CredentialIssuanceMessageView::CredentialOfferReject(comment) => match outcome {
                    Ok(next) => exists|id: Seq<char>| #[trigger]
                        self.declined_with(comment, send_message, next, id),
                    Err(e) => send_failed(send_message, e),
                },
                CredentialIssuanceMessageView::CredentialRequestSend(my_pw_did) =>
                    self.requesting(backend, my_pw_did, send_message, outcome),
                CredentialIssuanceMessageView::Credential(credential) => self.storing(
                    backend,
                    credential,
                    outcome,
                ),
                _ => true,
            }
        }
    }

    /// Whether the entry at the given index is the first of the pending
    /// messages that may be handled now.
    pub open spec fn picks(self, messages: Seq<(Seq<char>, A2AMessageView)>, at: int) -> bool {
        &&& 0 <= at < messages.len()
        &&& self.accepts(messages[at].1)
        &&& forall|j: int| 0 <= j < at ==> !self.accepts(#[trigger] messages[j].1)
    }

    /// Whether none of the pending messages may be handled now.
    pub open spec fn picks_none(self, messages: Seq<(Seq<char>, A2AMessageView)>) -> bool {
        forall|i: int| 0 <= i < messages.len() ==> !self.accepts(#[trigger] messages[i].1)
    }

    /// Whether the message may be handled now: its kind is one that the state
    /// waits for, and it belongs to the interaction's thread. In the initial
    /// state any offer is taken, since its thread is adopted.
    pub open spec fn accepts(self, message: A2AMessageView) -> bool {
        match self.state {
            HolderFullStateView::Initial => message is CredentialOffer,
            HolderFullStateView::ProposalSent(_) => match message {
                A2AMessageView::CredentialOffer(m) => m.thread_id() == self.thread_id,
                A2AMessageView::CommonProblemReport(m) => m.thread == Some(self.thread_id),
                _ => false,
            },
            HolderFullStateView::RequestSent(_) => match message {
                A2AMessageView::Credential(m) => m.thread == Some(self.thread_id),
                A2AMessageView::CommonProblemReport(m) => m.thread == Some(self.thread_id),
                _ => false,
            },
            _ => false,
        }
    }
}

/// What the backend needs of an offer to make the request. Fails with
/// `InvalidJson` where the offer has no readable attachment or the attached
/// offer does not name a credential definition.
pub fn credential_request_inputs(offer: &CredentialOffer) -> (r: VcxResult<(String, String)>)
    ensures
        match r {
            Ok((cred_def_id, attached)) => request_inputs(offer@) == Ok::<
                (Seq<char>, Seq<char>),
                VcxErrorKind,
            >((cred_def_id@, attached@)),
            Err(e) => request_inputs(offer@) == Err::<(Seq<char>, Seq<char>), VcxErrorKind>(
                e@.kind,
            ),
        },
{
    let attached = match offer.offers_attach.content() {
        Ok(attached) => attached,
        Err(e) => {
            return Err(e);
        },
    };
    match Json::string_member_in(attached.as_str(), "cred_def_id") {
        Some(cred_def_id) => Ok((cred_def_id, attached)),
        None => Err(
            VcxError::from_msg(
                VcxErrorKind::InvalidJson,
                "The credential offer names no credential definition",
            ),
        ),
    }
}

/// What the backend needs of a credential message to store the credential.
/// Fails with `InvalidJson` where the message has no readable attachment or
/// the attached credential is not JSON.
pub fn credential_store_inputs(credential: &Credential) -> (r: VcxResult<(String, Option<String>)>)
    ensures
        match r {
            Ok((attached, rev_reg_id)) => store_inputs(credential@) == Ok::<
                (Seq<char>, Option<Seq<char>>),
                VcxErrorKind,
            >((attached@, rev_reg_id.deep_view())),
            Err(e) => store_inputs(credential@) == Err::<
                (Seq<char>, Option<Seq<char>>),
                VcxErrorKind,
            >(e@.kind),
        },
{
    let attached = match credential.credentials_attach.content() {
        Ok(attached) => attached,
        Err(e) => {
            return Err(e);
        },
    };
    match Json::parse(attached.as_str()) {
        Ok(_) => {},
        Err(e) => {
            return Err(e);
        },
    }
    let rev_reg_id = Json::string_member_in(attached.as_str(), "rev_reg_id");
    Ok((attached, rev_reg_id))
}

impl HolderSM {
    /// A new interaction in its initial state, with a fresh thread id: a
    /// random UUID in its hyphenated form.
    pub fn new(source_id: String) -> (r: Self)
        ensures
            r@.source_id == source_id@,
            r@.state == HolderFullStateView::Initial,
            is_uuid_text(r@.thread_id),
            r@.valid(),
    {
        HolderSM::step(HolderFullState::Initial(InitialHolderState {  }), source_id, fresh_id())
    }

    /// A new interaction that starts from a received offer, whose thread is
    /// adopted.
    pub fn from_offer(offer: CredentialOffer, source_id: String) -> (r: Self)
        ensures
            r@ == (HolderSMView {
                source_id: source_id@,
                thread_id: offer@.thread_id(),
                state: HolderFullStateView::OfferReceived(offer@),
            }),
    {
        let thread_id = offer.get_thread_id();
        HolderSM {
            thread_id,
            state: HolderFullState::OfferReceived(OfferReceivedState { offer }),
            source_id,
        }
    }

    /// The machine with the given parts.
    pub fn step(state: HolderFullState, source_id: String, thread_id: String) -> (r: Self)
        ensures
            r@ == (HolderSMView { source_id: source_id@, thread_id: thread_id@, state: state@ }),
    {
        HolderSM { state, source_id, thread_id }
    }

    /// The state with what it holds.
    pub fn full_state(&self) -> (r: &HolderFullState)
        ensures
            r@ == self@.state,
    {
        &self.state
    }

    /// The caller's name for the interaction.
    pub fn get_source_id(&self) -> (r: String)
        ensures
            r@ == self@.source_id,
    {
        self.source_id.clone()
    }

    /// The thread of the interaction.
    pub fn get_thread_id(&self) -> (r: VcxResult<String>)
        ensures
            r matches Ok(id) && id@ == self@.thread_id,
    {
        Ok(self.thread_id.clone())
    }

    /// The state as callers see it.
    pub fn get_state(&self) -> (r: HolderState)
        ensures
            r == self@.state_name(),
    {
        match &self.state {
            HolderFullState::Initial(_) => HolderState::Initial,
            HolderFullState::ProposalSent(_) => HolderState::ProposalSent,
            HolderFullState::OfferReceived(_) => HolderState::OfferReceived,
            HolderFullState::RequestSent(_) => HolderState::RequestSent,
            HolderFullState::Finished(state) => match &state.status {
                crate::messages::notice::Status::Success => HolderState::Finished,
                _ => HolderState::Failed,
            },
        }
    }

    /// The number of the interaction's status: 0 in progress, 1 success, any
    /// other failure.
    pub fn credential_status(&self) -> (r: u32)
        ensures
            r == self@.status_code(),
    {
        match &self.state {
            HolderFullState::Finished(state) => state.status.code(),
            _ => 0,
        }
    }

    /// Whether the interaction is over.
    pub fn is_terminal_state(&self) -> (r: bool)
        ensures
            r == self@.is_terminal(),
    {
        match &self.state {
            HolderFullState::Finished(_) => true,
            _ => false,
        }
    }

    /// Whether the message may be handled now.
    pub fn accepts(&self, message: &A2AMessage) -> (r: bool)
        ensures
            r == self@.accepts(message@),
    {
        match &self.state {
            HolderFullState::Initial(_) => match message {
                A2AMessage::CredentialOffer(_) => true,
                _ => false,
            },
            HolderFullState::ProposalSent(_) => match message {
                A2AMessage::CredentialOffer(m) => m.from_thread(self.thread_id.as_str()),
                A2AMessage::CommonProblemReport(m) => m.from_thread(self.thread_id.as_str()),
                _ => false,
            },
            HolderFullState::RequestSent(_) => match message {
                A2AMessage::Credential(m) => m.from_thread(self.thread_id.as_str()),
                A2AMessage::CommonProblemReport(m) => m.from_thread(self.thread_id.as_str()),
                _ => false,
            },
            _ => false,
        }
    }

    /// The first of the pending messages that may be handled now, with its
    /// key, or nothing where none may. The machine does not change.
    pub fn find_message_to_handle(&self, messages: MessageBag) -> (r: Option<(String, A2AMessage)>)
        ensures
            match r {
                Some((uid, message)) => exists|i: int|
                    #![trigger self@.picks(messages@, i)]
                    self@.picks(messages@, i) && uid@ == messages@[i].0 && message@
                        == messages@[i].1,
                None => self@.picks_none(messages@),
            },
    {
        let ghost all = messages@;
        let mut entries = messages.into_entries();
        let mut i: usize = 0;
        while i < entries.len()
            invariant
                i <= entries@.len(),
                all == messages@,
                entries@.map_values(|e: (String, A2AMessage)| (e.0@, e.1@)) == all,
                forall|j: int| 0 <= j < i ==> !self@.accepts(#[trigger] all[j].1),
            decreases entries@.len() - i,
        {
            if self.accepts(&entries[i].1) {
                let (uid, message) = entries.remove(i);
                assert(self@.picks(all, i as int));
                return Some((uid, message));
            }
            i += 1;
        }
        None
    }

    /// The proposal that the holder sends for the given data, under the given
    /// id where the proposal answers an offer.
    pub fn credential_proposal(&self, data: CredentialProposalData, id: String) -> (r:
        CredentialProposal)
        ensures
            r@ == self@.proposal_message(data@, id@),
    {
        match &self.state {
            HolderFullState::Initial(_) => CredentialProposal::from_data(
                data,
                self.thread_id.clone(),
            ),
            _ => CredentialProposal::from_data(data, id).set_thread_id(self.thread_id.as_str()),
        }
    }

    /// Sends a proposal, in the initial state or in answer to an offer; in
    /// any other state nothing happens. Fails where the proposal cannot be
    /// sent.
    pub fn propose<F: Fn(&A2AMessage) -> VcxResult<()>>(
        self,
        data: CredentialProposalData,
        send_message: Option<&F>,
    ) -> (r: VcxResult<HolderSM>)
        requires
            takes_all(send_message),
        ensures
            !self@.can_propose() ==> (r matches Ok(next) && next@ == self@),
            self@.can_propose() ==> match r {
                Ok(next) => exists|id: Seq<char>| #[trigger]
                    self@.proposed_with(data@, send_message, next@, id),
                Err(e) => send_failed(send_message, e),
            },
    {
        let proposing = match &self.state {
            HolderFullState::Initial(_) => true,
            HolderFullState::OfferReceived(_) => true,
            _ => false,
        };
        if !proposing {
            return Ok(self);
        }
        let id = fresh_id();
        let ghost id_view = id@;
        let ghost before = self@;
        let ghost data_view = data@;
        let proposal = self.credential_proposal(data, id);
        match deliver(send_message, proposal.clone().to_a2a_message()) {
            Ok(()) => {},
            Err(e) => {
                return Err(e);
            },
        }
        let HolderSM { state: _, source_id, thread_id } = self;
        let next = HolderSM::step(
            HolderFullState::ProposalSent(ProposalSentState { credential_proposal: proposal }),
            source_id,
            thread_id,
        );
        assert(before.proposed_with(data_view, send_message, next@, id_view));
        Ok(next)
    }

    /// Declines the received offer: sends a problem report with the given
    /// comment and ends the interaction in failure. In any state but
    /// `OfferReceived` nothing happens. Fails where the report cannot be sent.
    pub fn decline<F: Fn(&A2AMessage) -> VcxResult<()>>(
        self,
        comment: Option<String>,
        send_message: Option<&F>,
    ) -> (r: VcxResult<HolderSM>)
        requires
            takes_all(send_message),
        ensures
            !(self@.state is OfferReceived) ==> (r matches Ok(next) && next@ == self@),
            self@.state is OfferReceived ==> match r {
                Ok(next) => exists|id: Seq<char>| #[trigger]
                    self@.declined_with(comment.deep_view(), send_message, next@, id),
                Err(e) => send_failed(send_message, e),
            },
    {
        let declining = match &self.state {
            HolderFullState::OfferReceived(_) => true,
            _ => false,
        };
        if !declining {
            return Ok(self);
        }
        let ghost before = self@;
        let ghost comment_view = comment.deep_view();
        let HolderSM { state: _, source_id, thread_id } = self;
        let problem_report = ProblemReport::create().set_thread_id(thread_id.as_str()).set_comment(
            comment,
        );
        let ghost report = problem_report@;
        match deliver(send_message, problem_report.clone().to_a2a_message()) {
            Ok(()) => {},
            Err(e) => {
                return Err(e);
            },
        }
        let next = HolderSM::step(
            HolderFullState::Finished(FinishedHolderState::from_problem_report(problem_report)),
            source_id,
            thread_id,
        );
        assert(before.declined_with(comment_view, send_message, next@, report.id));
        Ok(next)
    }

    /// Requests the offered credential under the given pairwise DID: has the
    /// backend make the request for the attached offer and sends it. In any
    /// state but `OfferReceived` nothing happens. Fails as
    /// `credential_request_inputs` does, and then the backend is not asked;
    /// as the backend does; and where the request cannot be sent.
    pub fn request<B: AnoncredsBackend, F: Fn(&A2AMessage) -> VcxResult<()>>(
        self,
        my_pw_did: String,
        backend: &B,
        send_message: Option<&F>,
    ) -> (r: VcxResult<HolderSM>)
        requires
            takes_all(send_message),
        ensures
            !(self@.state is OfferReceived) ==> (r matches Ok(next) && next@ == self@),
            self@.state is OfferReceived ==> self@.requesting(
                backend,
                my_pw_did@,
                send_message,
                machine_view(r),
            ),
    {
        let ghost before = self@;
        let HolderSM { state, source_id, thread_id } = self;
        let state_data = match state {
            HolderFullState::OfferReceived(state_data) => state_data,
            other => {
                return Ok(HolderSM::step(other, source_id, thread_id));
            },
        };
        let (cred_def_id, attached) = match credential_request_inputs(&state_data.offer) {
            Ok(inputs) => inputs,
            Err(e) => {
                let r = Err(e);
                assert(before.request_handled(
                    backend,
                    my_pw_did@,
                    send_message,
                    Err(e),
                    Seq::empty(),
                    machine_view(r),
                ));
                return r;
            },
        };
        let answer = backend.create_credential_request(
            cred_def_id.as_str(),
            my_pw_did.as_str(),
            attached.as_str(),
        );
        let ghost b = answer;
        let (request, req_meta, cred_def_json) = match answer {
            Ok(made) => made,
            Err(e) => {
                let r = Err(e);
                assert(before.request_handled(
                    backend,
                    my_pw_did@,
                    send_message,
                    b,
                    Seq::empty(),
                    machine_view(r),
                ));
                return r;
            },
        };
        let cred_request = CredentialRequest::create().set_requests_attach(
            request.as_str(),
        ).set_thread_id(thread_id.as_str());
        let ghost sent = cred_request@;
        let r = match deliver(send_message, cred_request.to_a2a_message()) {
            Ok(()) => Ok(
                HolderSM::step(
                    HolderFullState::RequestSent(RequestSentState { req_meta, cred_def_json }),
                    source_id,
                    thread_id,
                ),
            ),
            Err(e) => Err(e),
        };
        assert(before.request_handled(
            backend,
            my_pw_did@,
            send_message,
            b,
            sent.id,
            machine_view(r),
        ));
        r
    }

    /// Stores the received credential through the backend and ends the
    /// interaction in success. Where the credential names a revocation
    /// registry, the registry's definition is fetched first, stored with the
    /// credential and kept. In any state but `RequestSent` nothing happens.
    /// Fails as `credential_store_inputs` does, and then the backend is not
    /// asked, and as the backend does.
    pub fn store<B: AnoncredsBackend>(self, credential: Credential, backend: &B) -> (r: VcxResult<
        HolderSM,
    >)
        ensures
            !(self@.state is RequestSent) ==> (r matches Ok(next) && next@ == self@),
            self@.state is RequestSent ==> self@.storing(backend, credential@, machine_view(r)),
    {
        let ghost before = self@;
        let ghost received = credential@;
        let HolderSM { state, source_id, thread_id } = self;
        let state_data = match state {
            HolderFullState::RequestSent(state_data) => state_data,
            other => {
                return Ok(HolderSM::step(other, source_id, thread_id));
            },
        };
        let (attached, rev_reg_id) = match credential_store_inputs(&credential) {
            Ok(inputs) => inputs,
            Err(e) => {
                let r = Err(e);
                assert(before.store_handled(backend, received, Err(e), Err(e), machine_view(r)));
                return r;
            },
        };
        let ghost mut d: VcxResult<String> = arbitrary();
        let rev_reg_def_json = match &rev_reg_id {
            Some(id) => {
                let definition = backend.get_rev_reg_def_json(id.as_str());
                proof {
                    d = definition;
                }
                match definition {
                    Ok(definition) => Some(definition),
                    Err(e) => {
                        let r = Err(e);
                        assert(before.store_handled(backend, received, d, d, machine_view(r)));
                        return r;
                    },
                }
            },
            None => None,
        };
        let answer = backend.store_credential(
            state_data.req_meta.as_str(),
            attached.as_str(),
            state_data.cred_def_json.as_str(),
            &rev_reg_def_json,
        );
        let ghost b = answer;
        let r = match answer {
            Ok(cred_id) => Ok(
                HolderSM::step(
                    HolderFullState::Finished(
                        FinishedHolderState::from_stored(cred_id, credential, rev_reg_def_json),
                    ),
                    source_id,
                    thread_id,
                ),
            ),
            Err(e) => Err(e),
        };
        assert(before.store_handled(backend, received, d, b, machine_view(r)));
        r
    }

    /// The machine after an event on which the holder does not act.
    pub fn receive(self, cim: CredentialIssuanceMessage) -> (r: HolderSM)
        ensures
            r@ == self@.received(cim@),
    {
        let HolderSM { state, source_id, thread_id } = self;
        match state {
            HolderFullState::Initial(state_data) => match cim {
                CredentialIssuanceMessage::CredentialOffer(offer) => HolderSM::from_offer(
                    offer,
                    source_id,
                ),
                _ => HolderSM::step(HolderFullState::Initial(state_data), source_id, thread_id),
            },
            HolderFullState::ProposalSent(state_data) => match cim {
                CredentialIssuanceMessage::CredentialOffer(offer) => HolderSM::step(
                    HolderFullState::OfferReceived(OfferReceivedState { offer }),
                    source_id,
                    thread_id,
                ),
                _ => HolderSM::step(
                    HolderFullState::ProposalSent(state_data),
                    source_id,
                    thread_id,
                ),
            },
            HolderFullState::RequestSent(state_data) => match cim {
                CredentialIssuanceMessage::ProblemReport(problem_report) => HolderSM::step(
                    HolderFullState::Finished(
                        FinishedHolderState::from_problem_report(problem_report),
                    ),
                    source_id,
                    thread_id,
                ),
                _ => HolderSM::step(HolderFullState::RequestSent(state_data), source_id, thread_id),
            },
            other => HolderSM::step(other, source_id, thread_id),
        }
    }

    /// Handles one event: an inbound message or a command of the caller.
    ///
    /// An inbound message that names another thread than the interaction's is
    /// refused with `ThreadIdMismatch`, except in the initial state. An event
    /// that the state has no transition for changes nothing. The commands and
    /// the arrival of the credential are handled as `propose`, `request`,
    /// `decline` and `store` say. The callback is called at most once.
    pub fn handle_message<B: AnoncredsBackend, F: Fn(&A2AMessage) -> VcxResult<()>>(
        self,
        cim: CredentialIssuanceMessage,
        backend: &B,
        send_message: Option<&F>,
    ) -> (r: VcxResult<HolderSM>)
        requires
            takes_all(send_message),
        ensures
            self@.handled(cim@, backend, send_message, machine_view(r)),
    {
        let initial = match &self.state {
            HolderFullState::Initial(_) => true,
            _ => false,
        };
        if !initial {
            match verify_thread_id(self.thread_id.as_str(), &cim) {
                Ok(()) => {},
                Err(e) => {
                    return Err(e);
                },
            }
        }
        match cim {
            CredentialIssuanceMessage::CredentialProposalSend(data) => self.propose(
                data,
                send_message,
            ),
            CredentialIssuanceMessage::CredentialOfferReject(comment) => self.decline(
                comment,
                send_message,
            ),
            CredentialIssuanceMessage::CredentialRequestSend(my_pw_did) => self.request(
                my_pw_did,
                backend,
                send_message,
            ),
            CredentialIssuanceMessage::Credential(credential) => self.store(credential, backend),
            other => Ok(self.receive(other)),
        }
    }
}

} // verus!
