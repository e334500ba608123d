//! The issuer's state machine.
use crate::attachment::{attachment_of, content_of, AttachmentId};
use crate::backend::AnoncredsBackend;
use crate::bag::MessageBag;
use crate::error::{outcome_of, VcxError, VcxErrorKind, VcxResult};
use crate::ids::{fresh_id, is_uuid_text};
use crate::issuer::preview::{_append_credential_preview, preview_appended};
use crate::issuer::states::{
    closed, issue_failed, issued, offer_failed, offer_sent, request_received, CredentialSentState,
    CredentialSentStateView, FinishedState, FinishedStateView, InitialIssuerState, IssuerState,
    OfferSentState, OfferSentStateView, ProposalReceivedState, ProposalReceivedStateView,
    RequestReceivedState, RequestReceivedStateView,
};
use crate::issuer::utils::{encode_attributes, encoded_attributes};
use crate::messages::a2a::{
    verify_thread_id, A2AMessage, A2AMessageView, CredentialIssuanceMessage,
    CredentialIssuanceMessageView,
};
use crate::messages::issuance::{
    empty_credential, empty_offer, Credential, CredentialOffer, CredentialOfferView,
    CredentialProposal, CredentialRequest, CredentialRequestView, CredentialView, OfferInfo,
    OfferInfoView,
};
use crate::messages::notice::{problem_report_of, ProblemReport, StatusView};
use crate::text::clone_opt;
use crate::transport::{deliver, send_failed, sent_through, takes_all};
use vstd::prelude::*;

verus! {

/// The state of an issuer with what it holds in that state.
#[derive(Debug)]
pub enum IssuerFullState {
    Initial(InitialIssuerState),
    ProposalReceived(ProposalReceivedState),
    OfferSent(OfferSentState),
    RequestReceived(RequestReceivedState),
    CredentialSent(CredentialSentState),
    Finished(FinishedState),
}

/// What an `IssuerFullState` holds.
pub enum IssuerFullStateView {
    Initial,
    ProposalReceived(ProposalReceivedStateView),
    OfferSent(OfferSentStateView),
    RequestReceived(RequestReceivedStateView),
    CredentialSent(CredentialSentStateView),
    Finished(FinishedStateView),
}

impl View for IssuerFullState {
    type V = IssuerFullStateView;

    open spec fn view(&self) -> IssuerFullStateView {
        match self {
            IssuerFullState::Initial(_) => IssuerFullStateView::Initial,
            IssuerFullState::ProposalReceived(s) => IssuerFullStateView::ProposalReceived(s@),
            IssuerFullState::OfferSent(s) => IssuerFullStateView::OfferSent(s@),
            IssuerFullState::RequestReceived(s) => IssuerFullStateView::RequestReceived(s@),
            IssuerFullState::CredentialSent(s) => IssuerFullStateView::CredentialSent(s@),
            IssuerFullState::Finished(s) => IssuerFullStateView::Finished(s@),
        }
    }
}

impl Clone for IssuerFullState {
    fn clone(&self) -> (r: Self)
        ensures
            r@ == self@,
    {
        match self {
            IssuerFullState::Initial(_) => IssuerFullState::Initial(InitialIssuerState {  }),
            IssuerFullState::ProposalReceived(s) => IssuerFullState::ProposalReceived(s.clone()),
            IssuerFullState::OfferSent(s) => IssuerFullState::OfferSent(s.clone()),
            IssuerFullState::RequestReceived(s) => IssuerFullState::RequestReceived(s.clone()),
            IssuerFullState::CredentialSent(s) => IssuerFullState::CredentialSent(s.clone()),
            IssuerFullState::Finished(s) => IssuerFullState::Finished(s.clone()),
        }
    }
}

impl Default for IssuerFullState {
    fn default() -> (r: Self)
        ensures
            r@ == IssuerFullStateView::Initial,
    {
        IssuerFullState::Initial(InitialIssuerState {  })
    }
}

/// One interaction in which this agent issues a credential.
#[derive(Debug)]
pub struct IssuerSM {
    source_id: String,
    thread_id: String,
    state: IssuerFullState,
}

/// What an `IssuerSM` holds.
pub struct IssuerSMView {
    pub source_id: Seq<char>,
    pub thread_id: Seq<char>,
    pub state: IssuerFullStateView,
}

impl View for IssuerSM {
    type V = IssuerSMView;

    closed spec fn view(&self) -> IssuerSMView {
        IssuerSMView { source_id: self.source_id@, thread_id: self.thread_id@, state: self.state@ }
    }
}

impl Clone for IssuerSM {
    fn clone(&self) -> (r: Self)
        ensures
            r@ == self@,
    {
        IssuerSM {
            source_id: self.source_id.clone(),
            thread_id: self.thread_id.clone(),
            state: self.state.clone(),
        }
    }
}

impl Default for IssuerSM {
    /// An interaction in its initial state, without a name and without a
    /// thread.
    fn default() -> (r: Self)
        ensures
            r@ == (IssuerSMView {
                source_id: Seq::empty(),
                thread_id: Seq::empty(),
                state: IssuerFullStateView::Initial,
            }),
    {
        IssuerSM {
            source_id: String::new(),
            thread_id: String::new(),
            state: IssuerFullState::default(),
        }
    }
}

/// What the outcome of handling an event holds: the view of the machine that
/// follows, or the failure.
pub open spec fn machine_view(r: VcxResult<IssuerSM>) -> Result<IssuerSMView, VcxError> {
    match r {
        Ok(next) => Ok(next@),
        Err(e) => Err(e),
    }
}

/// The credential message that carries the given credential under the given
/// id, as a reply in the given thread.
pub open spec fn credential_message(id: Seq<char>, credential: Seq<char>, thread_id: Seq<char>)
    -> CredentialView {
    CredentialView {
        attach: seq![attachment_of(AttachmentId::Credential, credential)],
        thread: Some(thread_id),
        ..empty_credential(id)
    }
}

/// What the backend needs of a request to issue the credential: the request
/// that the holder attached, and the attribute values with their encodings.
/// The request must reply to the interaction's thread.
pub open spec fn issue_inputs(
    request: CredentialRequestView,
    cred_data: Seq<char>,
    thread_id: Seq<char>,
) -> Result<(Seq<char>, Seq<char>), VcxErrorKind> {
    if request.thread != Some(thread_id) {
        Err(VcxErrorKind::ThreadIdMismatch)
    } else {
        match content_of(request.attach) {
            None => Err(VcxErrorKind::InvalidJson),
            Some(attached) => match encoded_attributes(cred_data) {
                Err(kind) => Err(kind),
                Ok(values) => Ok((attached, values)),
            },
        }
    }
}

/// Whether `r` is what follows from the backend's answer `b` to the question
/// for a credential: the message that carries the credential that the backend
/// issued, with the credential's index in the revocation registry, or the
/// backend's failure.
pub open spec fn answered(
    b: VcxResult<(String, Option<String>)>,
    r: VcxResult<(Credential, Option<String>)>,
) -> bool {
    match b {
        Ok(issued) => r matches Ok(made) && made.1.deep_view() == issued.1.deep_view() && made.0@
            == (CredentialView {
            attach: seq![attachment_of(AttachmentId::Credential, issued.0@)],
            ..empty_credential(made.0@.id)
        }),
        Err(e) => r matches Err(f) && f@ == e@,
    }
}

/// Whether `r` is an outcome of the attempt to issue the credential for a
/// request: where the request cannot be used, the failure that says so, and
/// the backend is not asked; else what follows from the answer that the
/// backend gave to the question with exactly these values.
pub open spec fn created<B: AnoncredsBackend>(
    backend: &B,
    request: CredentialRequestView,
    rev_reg_id: Option<Seq<char>>,
    tails_file: Option<Seq<char>>,
    offer: Seq<char>,
    cred_data: Seq<char>,
    thread_id: Seq<char>,
    r: VcxResult<(Credential, Option<String>)>,
) -> bool {
    match issue_inputs(request, cred_data, thread_id) {
        Err(kind) => r matches Err(e) && e@.kind == kind,
        Ok(inputs) => exists|b: VcxResult<(String, Option<String>)>|
            #![trigger answered(b, r)]
            backend.issue_outcome(offer, inputs.0, inputs.1, rev_reg_id, tails_file, b)
                && answered(b, r),
    }
}

/// What the issuer sends and how the interaction ends after the attempt to
/// issue the credential: after a success, the credential as a reply in the
/// thread, and the end in success with the credential's index; after a
/// failure, a problem report under the given id with the failure's message, as
/// a reply in the thread, and the end in failure by that report.
pub open spec fn issue_conclusion(
    state: RequestReceivedStateView,
    thread_id: Seq<char>,
    report_id: Seq<char>,
    attempt: VcxResult<(Credential, Option<String>)>,
) -> (A2AMessageView, FinishedStateView) {
    match attempt {
        Ok(made) => (
            A2AMessageView::Credential(CredentialView { thread: Some(thread_id), ..made.0@ }),
            issued(state, made.1.deep_view()),
        ),
        Err(e) => (
            A2AMessageView::CommonProblemReport(
                problem_report_of(report_id, Some(e@.msg), thread_id),
            ),
            issue_failed(state, problem_report_of(report_id, Some(e@.msg), thread_id)),
        ),
    }
}

impl IssuerSMView {
    /// Whether the machine is one that the transitions make: a finished
    /// interaction has ended with success or with failure.
    pub open spec fn valid(self) -> bool {
        self.state matches IssuerFullStateView::Finished(s) ==> s.valid()
    }

    /// Whether the interaction is over.
    pub open spec fn is_terminal(self) -> bool {
        self.state is Finished
    }

    /// The state as callers see it: a finished interaction has failed unless
    /// its status is success.
    pub open spec fn state_name(self) -> IssuerState {
        match self.state {
            IssuerFullStateView::Initial => IssuerState::Initial,
            IssuerFullStateView::ProposalReceived(_) => IssuerState::ProposalReceived,
            IssuerFullStateView::OfferSent(_) => IssuerState::OfferSent,
            IssuerFullStateView::RequestReceived(_) => IssuerState::RequestReceived,
            IssuerFullStateView::CredentialSent(_) => IssuerState::CredentialSent,
            IssuerFullStateView::Finished(s) => match s.status {
                StatusView::Success => IssuerState::Finished,
                _ => IssuerState::Failed,
            },
        }
    }

    /// The number of the interaction's status: 0 until it is over.
    pub open spec fn status_code(self) -> u32 {
        match self.state {
            IssuerFullStateView::Finished(s) => s.status.code(),
            _ => 0,
        }
    }

    /// Whether the event passes the thread check: in the initial state every
    /// event does, later only one that names no thread or the interaction's.
    pub open spec fn accepts_thread(self, event: CredentialIssuanceMessageView) -> bool {
        self.state is Initial || event.thread_id_matches(self.thread_id)
    }

    /// Whether the event, in this state, asks the issuer to send an offer.
    pub open spec fn sends_offer(self, event: CredentialIssuanceMessageView) -> bool {
        (self.state is Initial || self.state is ProposalReceived)
            && event is CredentialOfferSend
    }

    /// Whether the event, in this state, asks the issuer to issue the
    /// credential.
    pub open spec fn issues(self, event: CredentialIssuanceMessageView) -> bool {
        self.state is RequestReceived && event is CredentialSend
    }

    /// The machine with another state.
    pub open spec fn with_state(self, state: IssuerFullStateView) -> IssuerSMView {
        IssuerSMView { state, ..self }
    }

    /// The machine after an event that asks for nothing to be sent: the
    /// transitions on inbound messages, and no change on any event that the
    /// state has no transition for.
    pub open spec fn received(self, event: CredentialIssuanceMessageView) -> IssuerSMView {
        match (self.state, event) {
            (
                IssuerFullStateView::Initial,
                CredentialIssuanceMessageView::CredentialProposal(proposal),
            ) => IssuerSMView {
                source_id: self.source_id,
                thread_id: proposal.id,
                state: IssuerFullStateView::ProposalReceived(
                    ProposalReceivedStateView { credential_proposal: proposal, offer_info: None },
                ),
            },
            (
                IssuerFullStateView::OfferSent(s),
                CredentialIssuanceMessageView::CredentialRequest(request),
            ) => self.with_state(
                IssuerFullStateView::RequestReceived(request_received(s, request)),
            ),
            (
                IssuerFullStateView::OfferSent(_),
                CredentialIssuanceMessageView::CredentialProposal(proposal),
            ) => self.with_state(
                IssuerFullStateView::ProposalReceived(
                    ProposalReceivedStateView { credential_proposal: proposal, offer_info: None },
                ),
            ),
            (
                IssuerFullStateView::OfferSent(s),
                CredentialIssuanceMessageView::ProblemReport(report),
            ) => self.with_state(IssuerFullStateView::Finished(offer_failed(s, report))),
            (
                IssuerFullStateView::CredentialSent(s),
                CredentialIssuanceMessageView::ProblemReport(report),
            ) => self.with_state(IssuerFullStateView::Finished(closed(s, Some(report)))),
            (
                IssuerFullStateView::CredentialSent(s),
                CredentialIssuanceMessageView::CredentialAck(_),
            ) => self.with_state(IssuerFullStateView::Finished(closed(s, None))),
            _ => self,
        }
    }

    /// The offer before anything is put into it. The first message of an
    /// interaction opens the thread under its own id; an offer that answers a
    /// proposal has the given id and replies to the thread.
    pub open spec fn offer_base(self, id: Seq<char>) -> CredentialOfferView {
        if self.state is Initial {
            empty_offer(self.thread_id)
        } else {
            CredentialOfferView { thread: Some(self.thread_id), ..empty_offer(id) }
        }
    }

    /// The offer that the issuer sends for the given backend offer: with the
    /// backend's offer attached, the comment, and the preview of the attribute
    /// values.
    pub open spec fn offer_message(
        self,
        id: Seq<char>,
        info: OfferInfoView,
        comment: Option<Seq<char>>,
        cred_offer: Seq<char>,
    ) -> Result<CredentialOfferView, VcxErrorKind> {
        preview_appended(
            CredentialOfferView {
                attach: seq![attachment_of(AttachmentId::CredentialOffer, cred_offer)],
                comment,
                ..self.offer_base(id)
            },
            info.credential_json,
        )
    }

    /// Whether `outcome` is what follows from the backend's answer `b` to the
    /// question for an offer, with `id` as the id of an offer that answers a
    /// proposal. The backend was asked for the offer of the credential
    /// definition that the command names. Its failure is the outcome. Where
    /// it made an offer but the attribute values are refused, that failure is
    /// the outcome. Else the outcome is that of sending the offer: the
    /// machine that waits for the request, or the failure of sending.
    pub open spec fn offer_handled<B: AnoncredsBackend, F: Fn(&A2AMessage) -> VcxResult<()>>(
        self,
        backend: &B,
        info: OfferInfoView,
        comment: Option<Seq<char>>,
        send_message: Option<&F>,
        b: VcxResult<String>,
        id: Seq<char>,
        outcome: Result<IssuerSMView, VcxError>,
    ) -> bool {
        &&& backend.offer_outcome(info.cred_def_id, b)
        &&& match b {
            Err(e) => outcome matches Err(f) && f@ == e@,
            Ok(cred_offer) => match self.offer_message(id, info, comment, cred_offer@) {
                Err(kind) => outcome matches Err(f) && f@.kind == kind,
                Ok(offer) => match outcome {
                    Ok(next) => sent_through(send_message, A2AMessageView::CredentialOffer(offer))
                        && next == self.with_state(
                        IssuerFullStateView::OfferSent(offer_sent(info, cred_offer@)),
                    ),
                    Err(e) => send_failed(send_message, e),
                },
            },
        }
    }

    /// Whether `outcome` is what follows from the attempt `attempt` to issue
    /// the credential, with `report_id` as the id of a problem report. The
    /// attempt is one for the request that was received. What its conclusion
    /// says is to be sent went through the callback and the interaction ended
    /// as the conclusion says, or sending failed.
    pub open spec fn issue_handled<B: AnoncredsBackend, F: Fn(&A2AMessage) -> VcxResult<()>>(
        self,
        backend: &B,
        send_message: Option<&F>,
        attempt: VcxResult<(Credential, Option<String>)>,
        report_id: Seq<char>,
        outcome: Result<IssuerSMView, VcxError>,
    ) -> bool {
        &&& self.state matches IssuerFullStateView::RequestReceived(s)
        &&& created(
            backend,
            s.request,
            s.rev_reg_id,
            s.tails_file,
            s.offer,
            s.cred_data,
            self.thread_id,
            attempt,
        )
        &&& match outcome {
            Ok(next) => sent_through(
                send_message,
                issue_conclusion(s, self.thread_id, report_id, attempt).0,
            ) && next == self.with_state(
                IssuerFullStateView::Finished(
                    issue_conclusion(s, self.thread_id, report_id, attempt).1,
                ),
            ),
            Err(e) => send_failed(send_message, e),
        }
    }

    /// Whether `outcome` is an outcome of the command to send an offer: what
    /// follows from some answer of the backend, under some id of the offer.
    pub open spec fn offering<B: AnoncredsBackend, F: Fn(&A2AMessage) -> VcxResult<()>>(
        self,
        backend: &B,
        info: OfferInfoView,
        comment: Option<Seq<char>>,
        send_message: Option<&F>,
        outcome: Result<IssuerSMView, VcxError>,
    ) -> bool {
        exists|b: VcxResult<String>, id: Seq<char>| #[trigger]
            self.offer_handled(backend, info, comment, send_message, b, id, outcome)
    }

    /// Whether `outcome` is an outcome of the command to issue: what follows
    /// from some attempt to issue the credential for the request that was
    /// received, under some id of the problem report.
    pub open spec fn issuing<B: AnoncredsBackend, F: Fn(&A2AMessage) -> VcxResult<()>>(
        self,
        backend: &B,
        send_message: Option<&F>,
        outcome: Result<IssuerSMView, VcxError>,
    ) -> bool {
        exists|attempt: VcxResult<(Credential, Option<String>)>, report_id: Seq<char>|
            #[trigger] self.issue_handled(backend, send_message, attempt, report_id, outcome)
    }

    /// Whether `outcome` is an outcome of handling the event: the machine that
    /// follows, or the failure after which no machine follows.
    ///
    /// An inbound message that names another thread than the interaction's is
    /// refused with `ThreadIdMismatch`, except in the initial state. An event
    /// that asks for nothing to be sent always succeeds. The command to send
    /// an offer has the outcome that follows from the backend's answer, as
    /// `offer_handled` says; the command to issue has the outcome that
    /// follows from the attempt to issue, as `issue_handled` says.
    pub open spec fn handled<B: AnoncredsBackend, F: Fn(&A2AMessage) -> VcxResult<()>>(
        self,
        event: CredentialIssuanceMessageView,
        backend: &B,
        send_message: Option<&F>,
        outcome: Result<IssuerSMView, VcxError>,
    ) -> bool {
        if !self.accepts_thread(event) {
            outcome matches Err(e) && e@.kind == VcxErrorKind::ThreadIdMismatch
        } else if self.sends_offer(event) {
            event matches CredentialIssuanceMessageView::CredentialOfferSend(info, comment)
                && self.offering(backend, info, comment, send_message, outcome)
        } else if self.issues(event) {
            self.issuing(backend, send_message, outcome)
        } else {
            outcome == Ok::<IssuerSMView, VcxError>(self.received(event))
        }
    }

    /// Whether the entry at the given index is the first of the pending
    /// messages that may be handled now.
    pub open spec fn picks(self, messages: Seq<(Seq<char>, A2AMessageView)>, at: int) -> bool {
        &&& 0 <= at < messages.len()
        &&& self.accepts(messages[at].1)
        &&& forall|j: int| 0 <= j < at ==> !self.accepts(#[trigger] messages[j].1)
    }

    /// Whether none of the pending messages may be handled now.
    pub open spec fn picks_none(self, messages: Seq<(Seq<char>, A2AMessageView)>) -> bool {
        forall|i: int| 0 <= i < messages.len() ==> !self.accepts(#[trigger] messages[i].1)
    }

    /// What a revocation hands to the backend: the tails file, the revocation
    /// registry and the credential's index in it. There is nothing to revoke
    /// before the interaction is over; afterwards, revocation details that are
    /// missing or lack one of the three are refused.
    pub open spec fn revocation_call(self) -> Result<
        (Seq<char>, Seq<char>, Seq<char>),
        VcxErrorKind,
    > {
        match self.state {
            IssuerFullStateView::Finished(s) => match s.revocation_info_v1 {
                Some(info) => if info.complete() {
                    Ok((info.tails_file->0, info.rev_reg_id->0, info.cred_rev_id->0))
                } else {
                    Err(VcxErrorKind::InvalidRevocationDetails)
                },
                None => Err(VcxErrorKind::InvalidRevocationDetails),
            },
            _ => Err(VcxErrorKind::NotReady),
        }
    }

    /// The revocation registry of the credential, where the state knows one.
    pub open spec fn rev_reg_id(self) -> Option<Seq<char>> {
        match self.state {
            IssuerFullStateView::Initial => None,
            IssuerFullStateView::ProposalReceived(s) => match s.offer_info {
                Some(info) => info.rev_reg_id,
                None => None,
            },
            IssuerFullStateView::OfferSent(s) => s.rev_reg_id,
            IssuerFullStateView::RequestReceived(s) => s.rev_reg_id,
            IssuerFullStateView::CredentialSent(s) => match s.revocation_info_v1 {
                Some(info) => info.rev_reg_id,
                None => None,
            },
            IssuerFullStateView::Finished(s) => match s.revocation_info_v1 {
                Some(info) => info.rev_reg_id,
                None => None,
            },
        }
    }

    /// Whether the message may be handled now: its kind is one that the state
    /// waits for, and it belongs to the interaction's thread. In the initial
    /// state any proposal is taken, since its thread is adopted.
    pub open spec fn accepts(self, message: A2AMessageView) -> bool {
        match self.state {
            IssuerFullStateView::Initial => message is CredentialProposal,
            IssuerFullStateView::OfferSent(_) => match message {
                A2AMessageView::CredentialRequest(m) => m.thread == Some(self.thread_id),
                A2AMessageView::CredentialProposal(m) => m.thread == Some(self.thread_id),
                A2AMessageView::CommonProblemReport(m) => m.thread == Some(self.thread_id),
                _ => false,
            },
            IssuerFullStateView::RequestReceived(_) | IssuerFullStateView::CredentialSent(_) =>
                match message {
                A2AMessageView::Ack(m) => m.thread == Some(self.thread_id),
                A2AMessageView::CredentialAck(m) => m.thread == Some(self.thread_id),
                A2AMessageView::CommonProblemReport(m) => m.thread == Some(self.thread_id),
                _ => false,
            },
            _ => false,
        }
    }
}

/// The message as the selection hands it out: an acknowledgement of the
/// general kind becomes one of this protocol.
pub open spec fn selected(message: A2AMessageView) -> A2AMessageView {
    match message {
        A2AMessageView::Ack(m) => A2AMessageView::CredentialAck(m),
        _ => message,
    }
}

/// What the backend needs of a request to issue the credential. Fails with
/// `ThreadIdMismatch` where the request does not reply to the thread, with
/// `InvalidJson` where it has no readable attachment, and as
/// `encode_attributes` does.
pub fn credential_inputs(request: &CredentialRequest, cred_data: &str, thread_id: &str) -> (r:
    VcxResult<(String, String)>)
    ensures
        match r {
            Ok((attached, values)) => issue_inputs(request@, cred_data@, thread_id@) == Ok::<
                (Seq<char>, Seq<char>),
                VcxErrorKind,
            >((attached@, values@)),
            Err(e) => issue_inputs(request@, cred_data@, thread_id@) == Err::<
                (Seq<char>, Seq<char>),
                VcxErrorKind,
            >(e@.kind),
        },
{
    if !request.from_thread(thread_id) {
        return Err(
            VcxError::from_msg(
                VcxErrorKind::ThreadIdMismatch,
                "Cannot handle credential request: thread id does not match",
            ),
        );
    }
    let attached = match request.requests_attach.content() {
        Ok(attached) => attached,
        Err(e) => {
            return Err(e);
        },
    };
    let values = match encode_attributes(cred_data) {
        Ok(values) => values,
        Err(e) => {
            return Err(e);
        },
    };
    Ok((attached, values))
}

/// Issues the credential for a request: checks the request, has the backend
/// issue the credential, and puts it into a message under a fresh id. Fails
/// as `credential_inputs` does, before the backend is asked, and as the
/// backend does.
pub fn _create_credential<B: AnoncredsBackend>(
    backend: &B,
    request: &CredentialRequest,
    rev_reg_id: &Option<String>,
    tails_file: &Option<String>,
    offer: &str,
    cred_data: &str,
    thread_id: &str,
) -> (r: VcxResult<(Credential, Option<String>)>)
    ensures
        created(
            backend,
            request@,
            rev_reg_id.deep_view(),
            tails_file.deep_view(),
            offer@,
            cred_data@,
            thread_id@,
            r,
        ),
{
    let (attached, values) = match credential_inputs(request, cred_data, thread_id) {
        Ok(inputs) => inputs,
        Err(e) => {
            return Err(e);
        },
    };
    let answer = backend.create_credential(
        offer,
        attached.as_str(),
        values.as_str(),
        rev_reg_id,
        tails_file,
    );
    let ghost b = answer;
    let r = match answer {
        Ok((ser_credential, cred_rev_id)) => Ok(
            (Credential::create().set_credential(ser_credential.as_str()), cred_rev_id),
        ),
        Err(e) => Err(e),
    };
    assert(answered(b, r)) by {
        if let Ok(made) = r {
        }
    }
    r
}

/// What the issuer sends and how the interaction ends after the attempt to
/// issue the credential: the credential and the end in success, or a problem
/// report under the given id and the end in failure.
pub fn conclude_issue(
    state_data: RequestReceivedState,
    thread_id: &str,
    report_id: String,
    attempt: VcxResult<(Credential, Option<String>)>,
) -> (r: (A2AMessage, FinishedState))
    ensures
        (r.0@, r.1@) == issue_conclusion(state_data@, thread_id@, report_id@, attempt),
{
    match attempt {
        Ok((credential_msg, cred_rev_id)) => (
            credential_msg.set_thread_id(thread_id).to_a2a_message(),
            FinishedState::from_issued(state_data, cred_rev_id),
        ),
        Err(err) => {
            let problem_report = ProblemReport::create_with_id(report_id).set_comment(
                Some(err.to_string()),
            ).set_thread_id(thread_id);
            (
                problem_report.clone().to_a2a_message(),
                FinishedState::from_issue_failed(state_data, problem_report),
            )
        },
    }
}

impl IssuerSM {
    /// A new interaction in its initial state, with a fresh thread id: a
    /// random UUID in its hyphenated form.
    pub fn new(source_id: &str) -> (r: Self)
        ensures
            r@.source_id == source_id@,
            r@.state == IssuerFullStateView::Initial,
            is_uuid_text(r@.thread_id),
            r@.valid(),
    {
        IssuerSM {
            source_id: source_id.to_owned(),
            thread_id: fresh_id(),
            state: IssuerFullState::Initial(InitialIssuerState {  }),
        }
    }

    /// A new interaction that starts from a received proposal, whose id is
    /// adopted as the thread id.
    pub fn from_proposal(source_id: &str, credential_proposal: &CredentialProposal) -> (r: Self)
        ensures
            r@ == (IssuerSMView {
                source_id: source_id@,
                thread_id: credential_proposal@.id,
                state: IssuerFullStateView::ProposalReceived(
                    ProposalReceivedStateView {
                        credential_proposal: credential_proposal@,
                        offer_info: None,
                    },
                ),
            }),
    {
        IssuerSM {
            thread_id: credential_proposal.id.clone(),
            source_id: source_id.to_owned(),
            state: IssuerFullState::ProposalReceived(
                ProposalReceivedState::new(credential_proposal.clone(), None),
            ),
        }
    }

    /// The caller's name for the interaction.
    pub fn get_source_id(&self) -> (r: String)
        ensures
            r@ == self@.source_id,
    {
        self.source_id.clone()
    }

    /// The machine with the given parts.
    pub fn step(source_id: String, thread_id: String, state: IssuerFullState) -> (r: Self)
        ensures
            r@ == (IssuerSMView { source_id: source_id@, thread_id: thread_id@, state: state@ }),
    {
        IssuerSM { source_id, thread_id, state }
    }

    /// The state with what it holds.
    pub fn full_state(&self) -> (r: &IssuerFullState)
        ensures
            r@ == self@.state,
    {
        &self.state
    }

    /// What a revocation hands to the backend: the tails file, the revocation
    /// registry and the credential's index in it. Fails with `NotReady` before
    /// the interaction is over, and with `InvalidRevocationDetails` where the
    /// finished interaction holds no revocation details or one of the three
    /// is missing.
    pub fn revocation_details(&self) -> (r: VcxResult<(String, String, String)>)
        ensures
            match r {
                Ok((tails_file, rev_reg_id, cred_rev_id)) => self@.revocation_call() == Ok::<
                    (Seq<char>, Seq<char>, Seq<char>),
                    VcxErrorKind,
                >((tails_file@, rev_reg_id@, cred_rev_id@)),
                Err(e) => self@.revocation_call() == Err::<
                    (Seq<char>, Seq<char>, Seq<char>),
                    VcxErrorKind,
                >(e@.kind),
            },
    {
        match &self.state {
            IssuerFullState::Finished(state) => match &state.revocation_info_v1 {
                Some(rev_info) => match (
                    &rev_info.cred_rev_id,
                    &rev_info.rev_reg_id,
                    &rev_info.tails_file,
                ) {
                    (Some(cred_rev_id), Some(rev_reg_id), Some(tails_file)) => Ok(
                        (tails_file.clone(), rev_reg_id.clone(), cred_rev_id.clone()),
                    ),
                    _ => Err(
                        VcxError::from_msg(
                            VcxErrorKind::InvalidRevocationDetails,
                            "Missing data to perform revocation.",
                        ),
                    ),
                },
                None => Err(
                    VcxError::from_msg(
                        VcxErrorKind::InvalidRevocationDetails,
                        "No revocation details: the credential cannot be revoked",
                    ),
                ),
            },
            _ => Err(
                VcxError::from_msg(VcxErrorKind::NotReady, "The credential is not issued yet"),
            ),
        }
    }

    /// Revokes the issued credential, and publishes the revocation if asked
    /// to. Fails as `revocation_details` does, and then the backend is not
    /// asked. With complete details the backend is asked once, to revoke with
    /// or without publishing as `publish` says and with exactly these
    /// details, and its answer is the result.
    pub fn revoke<B: AnoncredsBackend>(&self, backend: &B, publish: bool) -> (r: VcxResult<()>)
        ensures
            match self@.revocation_call() {
                Err(kind) => r matches Err(e) && e@.kind == kind,
                Ok(details) => backend.revoke_outcome(
                    details.0,
                    details.1,
                    details.2,
                    publish,
                    r,
                ),
            },
    {
        let (tails_file, rev_reg_id, cred_rev_id) = match self.revocation_details() {
            Ok(details) => details,
            Err(e) => {
                return Err(e);
            },
        };
        if publish {
            backend.revoke_credential(
                tails_file.as_str(),
                rev_reg_id.as_str(),
                cred_rev_id.as_str(),
            )
        } else {
            backend.revoke_credential_local(
                tails_file.as_str(),
                rev_reg_id.as_str(),
                cred_rev_id.as_str(),
            )
        }
    }

    /// The revocation registry of the credential. Fails with `InvalidState`
    /// where the state knows none.
    pub fn get_rev_reg_id(&self) -> (r: VcxResult<String>)
        ensures
            match r {
                Ok(id) => self@.rev_reg_id() == Some(id@),
                Err(e) => self@.rev_reg_id() is None && e@.kind == VcxErrorKind::InvalidState,
            },
    {
        let rev_registry = match &self.state {
            IssuerFullState::Initial(_) => {
                return Err(
                    VcxError::from_msg(
                        VcxErrorKind::InvalidState,
                        "No revocation info available in the initial state",
                    ),
                );
            },
            IssuerFullState::ProposalReceived(state) => match &state.offer_info {
                Some(offer_info) => clone_opt(&offer_info.rev_reg_id),
                None => None,
            },
            IssuerFullState::OfferSent(state) => clone_opt(&state.rev_reg_id),
            IssuerFullState::RequestReceived(state) => clone_opt(&state.rev_reg_id),
            IssuerFullState::CredentialSent(state) => match &state.revocation_info_v1 {
                Some(info) => clone_opt(&info.rev_reg_id),
                None => None,
            },
            IssuerFullState::Finished(state) => match &state.revocation_info_v1 {
                Some(info) => clone_opt(&info.rev_reg_id),
                None => None,
            },
        };
        match rev_registry {
            Some(id) => Ok(id),
            None => Err(
                VcxError::from_msg(
                    VcxErrorKind::InvalidState,
                    "No revocation registry id found - is this credential revokable?",
                ),
            ),
        }
    }

    /// Whether the credential can be revoked: whether the state knows a
    /// revocation registry for it. Fails with `InvalidState` in the initial
    /// state.
    pub fn is_revokable(&self) -> (r: VcxResult<bool>)
        ensures
            match r {
                Ok(revokable) => !(self@.state is Initial) && revokable == (self@.rev_reg_id()
                    is Some),
                Err(e) => self@.state is Initial && e@.kind == VcxErrorKind::InvalidState,
            },
    {
        match &self.state {
            IssuerFullState::Initial(_) => Err(
                VcxError::from_msg(
                    VcxErrorKind::InvalidState,
                    "No revocation info available in the initial state",
                ),
            ),
            IssuerFullState::ProposalReceived(state) => match &state.offer_info {
                Some(offer_info) => Ok(offer_info.rev_reg_id.is_some()),
                None => Ok(false),
            },
            IssuerFullState::OfferSent(state) => Ok(state.rev_reg_id.is_some()),
            IssuerFullState::RequestReceived(state) => Ok(state.rev_reg_id.is_some()),
            IssuerFullState::CredentialSent(state) => match &state.revocation_info_v1 {
                Some(info) => Ok(info.rev_reg_id.is_some()),
                None => Ok(false),
            },
            IssuerFullState::Finished(state) => match &state.revocation_info_v1 {
                Some(info) => Ok(info.rev_reg_id.is_some()),
                None => Ok(false),
            },
        }
    }

    /// Whether the message may be handled now.
    pub fn accepts(&self, message: &A2AMessage) -> (r: bool)
        ensures
            r == self@.accepts(message@),
    {
        match &self.state {
            IssuerFullState::Initial(_) => match message {
                A2AMessage::CredentialProposal(_) => true,
                _ => false,
            },
            IssuerFullState::OfferSent(_) => match message {
                A2AMessage::CredentialRequest(m) => m.from_thread(self.thread_id.as_str()),
                A2AMessage::CredentialProposal(m) => m.thread.is_reply(self.thread_id.as_str()),
                A2AMessage::CommonProblemReport(m) => m.from_thread(self.thread_id.as_str()),
                _ => false,
            },
            IssuerFullState::RequestReceived(_) | IssuerFullState::CredentialSent(_) =>
                match message {
                A2AMessage::Ack(m) => m.from_thread(self.thread_id.as_str()),
                A2AMessage::CredentialAck(m) => m.from_thread(self.thread_id.as_str()),
                A2AMessage::CommonProblemReport(m) => m.from_thread(self.thread_id.as_str()),
                _ => false,
            },
            _ => false,
        }
    }

    /// The first of the pending messages that may be handled now, with its
    /// key, or nothing where none may. The machine does not change.
    pub fn find_message_to_handle(&self, messages: MessageBag) -> (r: Option<(String, A2AMessage)>)
        ensures
            match r {
                Some((uid, message)) => exists|i: int|
                    #![trigger self@.picks(messages@, i)]
                    self@.picks(messages@, i) && uid@ == messages@[i].0 && message@
                        == selected(messages@[i].1),
                None => self@.picks_none(messages@),
            },
    {
        let ghost all = messages@;
        let mut entries = messages.into_entries();
        let mut i: usize = 0;
        while i < entries.len()
            invariant
                i <= entries@.len(),
                all == messages@,
                entries@.map_values(|e: (String, A2AMessage)| (e.0@, e.1@)) == all,
                forall|j: int| 0 <= j < i ==> !self@.accepts(#[trigger] all[j].1),
            decreases entries@.len() - i,
        {
            if self.accepts(&entries[i].1) {
                let (uid, message) = entries.remove(i);
                let message = match message {
                    A2AMessage::Ack(ack) => A2AMessage::CredentialAck(ack),
                    other => other,
                };
                assert(self@.picks(all, i as int));
                return Some((uid, message));
            }
            i += 1;
        }
        None
    }

    /// The state as callers see it.
    pub fn get_state(&self) -> (r: IssuerState)
        ensures
            r == self@.state_name(),
    {
        match &self.state {
            IssuerFullState::Initial(_) => IssuerState::Initial,
            IssuerFullState::ProposalReceived(_) => IssuerState::ProposalReceived,
            IssuerFullState::OfferSent(_) => IssuerState::OfferSent,
            IssuerFullState::RequestReceived(_) => IssuerState::RequestReceived,
            IssuerFullState::CredentialSent(_) => IssuerState::CredentialSent,
            IssuerFullState::Finished(state) => match &state.status {
                crate::messages::notice::Status::Success => IssuerState::Finished,
                _ => IssuerState::Failed,
            },
        }
    }

    /// The proposal that waits for an offer. Fails with `InvalidState` in any
    /// state but `ProposalReceived`.
    pub fn get_proposal(&self) -> (r: VcxResult<CredentialProposal>)
        ensures
            match r {
                Ok(proposal) => self@.state matches IssuerFullStateView::ProposalReceived(s)
                    && proposal@ == s.credential_proposal,
                Err(e) => !(self@.state is ProposalReceived) && e@.kind
                    == VcxErrorKind::InvalidState,
            },
    {
        match &self.state {
            IssuerFullState::ProposalReceived(state) => Ok(state.credential_proposal.clone()),
            _ => Err(
                VcxError::from_msg(
                    VcxErrorKind::InvalidState,
                    "Proposal is only available in ProposalReceived state",
                ),
            ),
        }
    }

    /// The offer that the issuer sends for the given backend offer, under the
    /// given id where the offer answers a proposal. Fails as
    /// `_append_credential_preview` does.
    pub fn credential_offer(
        &self,
        id: String,
        info: &OfferInfo,
        comment: Option<String>,
        cred_offer: &str,
    ) -> (r: VcxResult<CredentialOffer>)
        ensures
            outcome_of(r) == self@.offer_message(id@, info@, comment.deep_view(), cred_offer@),
    {
        let base = match &self.state {
            IssuerFullState::Initial(_) => CredentialOffer::create_with_id(self.thread_id.clone()),
            _ => CredentialOffer::create_with_id(id).set_thread_id(self.thread_id.as_str()),
        };
        let with_offer = base.set_offers_attach(cred_offer).set_comment(comment);
        _append_credential_preview(with_offer, info.credential_json.as_str())
    }

    /// Handles one event: an inbound message or a command of the caller.
    ///
    /// An inbound message that names another thread than the interaction's is
    /// refused with `ThreadIdMismatch`, except in the initial state. An event
    /// that the state has no transition for changes nothing. The command to
    /// send an offer asks the backend for the offer and sends it; the command
    /// to issue asks the backend for the credential and sends it, or sends a
    /// problem report and ends the interaction in failure where the credential
    /// could not be issued.
    pub fn handle_message<B: AnoncredsBackend, F: Fn(&A2AMessage) -> VcxResult<()>>(
        self,
        cim: CredentialIssuanceMessage,
        backend: &B,
        send_message: Option<&F>,
    ) -> (r: VcxResult<IssuerSM>)
        requires
            takes_all(send_message),
        ensures
            self@.handled(cim@, backend, send_message, machine_view(r)),
    {
        let IssuerSM { state, source_id, thread_id } = self;
        let initial = match &state {
            IssuerFullState::Initial(_) => true,
            _ => false,
        };
        if !initial {
            match verify_thread_id(thread_id.as_str(), &cim) {
                Ok(()) => {},
                Err(e) => {
                    return Err(e);
                },
            }
        }
        match state {
            IssuerFullState::Initial(state_data) => match cim {
                CredentialIssuanceMessage::CredentialProposal(proposal) => {
                    let thread_id = proposal.id.clone();
                    Ok(
                        IssuerSM::step(
                            source_id,
                            thread_id,
                            IssuerFullState::ProposalReceived(
                                ProposalReceivedState::new(proposal, None),
                            ),
                        ),
                    )
                },
                CredentialIssuanceMessage::CredentialOfferSend(offer_info, comment) => {
                    let machine = IssuerSM::step(
                        source_id,
                        thread_id,
                        IssuerFullState::Initial(state_data),
                    );
                    machine.send_offer(offer_info, comment, backend, send_message)
                },
                _ => Ok(IssuerSM::step(source_id, thread_id, IssuerFullState::Initial(state_data))),
            },
            IssuerFullState::ProposalReceived(state_data) => match cim {
                CredentialIssuanceMessage::CredentialOfferSend(offer_info, comment) => {
                    let machine = IssuerSM::step(
                        source_id,
                        thread_id,
                        IssuerFullState::ProposalReceived(state_data),
                    );
                    machine.send_offer(offer_info, comment, backend, send_message)
                },
                _ => Ok(
                    IssuerSM::step(
                        source_id,
                        thread_id,
                        IssuerFullState::ProposalReceived(state_data),
                    ),
                ),
            },
            IssuerFullState::OfferSent(state_data) => match cim {
                CredentialIssuanceMessage::CredentialRequest(request) => Ok(
                    IssuerSM::step(
                        source_id,
                        thread_id,
                        IssuerFullState::RequestReceived(
                            RequestReceivedState::new(state_data, request),
                        ),
                    ),
                ),
                CredentialIssuanceMessage::CredentialProposal(proposal) => Ok(
                    IssuerSM::step(
                        source_id,
                        thread_id,
                        IssuerFullState::ProposalReceived(
                            ProposalReceivedState::new(proposal, None),
                        ),
                    ),
                ),
                CredentialIssuanceMessage::ProblemReport(problem_report) => Ok(
                    IssuerSM::step(
                        source_id,
                        thread_id,
                        IssuerFullState::Finished(
                            FinishedState::from_offer_failed(state_data, problem_report),
                        ),
                    ),
                ),
                _ => Ok(
                    IssuerSM::step(source_id, thread_id, IssuerFullState::OfferSent(state_data)),
                ),
            },
            IssuerFullState::RequestReceived(state_data) => match cim {
                CredentialIssuanceMessage::CredentialSend() => IssuerSM::send_credential(
                    state_data,
                    source_id,
                    thread_id,
                    backend,
                    send_message,
                ),
                _ => Ok(
                    IssuerSM::step(
                        source_id,
                        thread_id,
                        IssuerFullState::RequestReceived(state_data),
                    ),
                ),
            },
            IssuerFullState::CredentialSent(state_data) => match cim {
                CredentialIssuanceMessage::ProblemReport(problem_report) => Ok(
                    IssuerSM::step(
                        source_id,
                        thread_id,
                        IssuerFullState::Finished(
                            FinishedState::from_closed(state_data, Some(problem_report)),
                        ),
                    ),
                ),
                CredentialIssuanceMessage::CredentialAck(_ack) => Ok(
                    IssuerSM::step(
                        source_id,
                        thread_id,
                        IssuerFullState::Finished(FinishedState::from_closed(state_data, None)),
                    ),
                ),
                _ => Ok(
                    IssuerSM::step(
                        source_id,
                        thread_id,
                        IssuerFullState::CredentialSent(state_data),
                    ),
                ),
            },
            IssuerFullState::Finished(state_data) => Ok(
                IssuerSM::step(source_id, thread_id, IssuerFullState::Finished(state_data)),
            ),
        }
    }

    /// Asks the backend for the offer, sends it, and waits for the request.
    fn send_offer<B: AnoncredsBackend, F: Fn(&A2AMessage) -> VcxResult<()>>(
        self,
        offer_info: OfferInfo,
        comment: Option<String>,
        backend: &B,
        send_message: Option<&F>,
    ) -> (r: VcxResult<IssuerSM>)
        requires
            takes_all(send_message),
        ensures
            self@.offering(
                backend,
                offer_info@,
                comment.deep_view(),
                send_message,
                machine_view(r),
            ),
    {
        let ghost before = self@;
        let ghost info = offer_info@;
        let ghost note = comment.deep_view();
        let answer = backend.create_offer(offer_info.cred_def_id.as_str());
        let ghost b = answer;
        let cred_offer = match answer {
            Ok(cred_offer) => cred_offer,
            Err(e) => {
                let r = Err(e);
                assert(before.offer_handled(
                    backend,
                    info,
                    note,
                    send_message,
                    b,
                    Seq::empty(),
                    machine_view(r),
                ));
                return r;
            },
        };
        let id = fresh_id();
        let ghost id_view = id@;
        let cred_offer_msg = match self.credential_offer(
            id,
            &offer_info,
            comment,
            cred_offer.as_str(),
        ) {
            Ok(message) => message,
            Err(e) => {
                let r = Err(e);
                assert(before.offer_handled(
                    backend,
                    info,
                    note,
                    send_message,
                    b,
                    id_view,
                    machine_view(r),
                ));
                return r;
            },
        };
        match deliver(send_message, cred_offer_msg.to_a2a_message()) {
            Ok(()) => {},
            Err(e) => {
                let r = Err(e);
                assert(before.offer_handled(
                    backend,
                    info,
                    note,
                    send_message,
                    b,
                    id_view,
                    machine_view(r),
                ));
                return r;
            },
        }
        let IssuerSM { state: _, source_id, thread_id } = self;
        let r = Ok(
            IssuerSM::step(
                source_id,
                thread_id,
                IssuerFullState::OfferSent(OfferSentState::new(offer_info, cred_offer)),
            ),
        );
        assert(before.offer_handled(
            backend,
            info,
            note,
            send_message,
            b,
            id_view,
            machine_view(r),
        ));
        r
    }

    /// Has the backend issue the credential for the request that was received
    /// and sends it; where it cannot be issued, sends a problem report. Either
    /// way the interaction is over.
    fn send_credential<B: AnoncredsBackend, F: Fn(&A2AMessage) -> VcxResult<()>>(
        state_data: RequestReceivedState,
        source_id: String,
        thread_id: String,
        backend: &B,
        send_message: Option<&F>,
    ) -> (r: VcxResult<IssuerSM>)
        requires
            takes_all(send_message),
        ensures
            (IssuerSMView {
                source_id: source_id@,
                thread_id: thread_id@,
                state: IssuerFullStateView::RequestReceived(state_data@),
            }).issuing(backend, send_message, machine_view(r)),
    {
        let ghost before = IssuerSMView {
            source_id: source_id@,
            thread_id: thread_id@,
            state: IssuerFullStateView::RequestReceived(state_data@),
        };
        let attempt = _create_credential(
            backend,
            &state_data.request,
            &state_data.rev_reg_id,
            &state_data.tails_file,
            state_data.offer.as_str(),
            state_data.cred_data.as_str(),
            thread_id.as_str(),
        );
        let ghost made = attempt;
        let report_id = fresh_id();
        let ghost report = report_id@;
        let (message, finished) = conclude_issue(
            state_data,
            thread_id.as_str(),
            report_id,
            attempt,
        );
        let r = match deliver(send_message, message) {
            Ok(()) => Ok(IssuerSM::step(source_id, thread_id, IssuerFullState::Finished(finished))),
            Err(e) => Err(e),
        };
        assert(before.issue_handled(backend, send_message, made, report, machine_view(r)));
        r
    }

    /// The number of the interaction's status: 0 in progress, 1 success, any
    /// other failure.
    pub fn credential_status(&self) -> (r: u32)
        ensures
            r == self@.status_code(),
    {
        match &self.state {
            IssuerFullState::Finished(state) => state.status.code(),
            _ => 0,
        }
    }

    /// Whether the interaction is over.
    pub fn is_terminal_state(&self) -> (r: bool)
        ensures
            r == self@.is_terminal(),
    {
        match &self.state {
            IssuerFullState::Finished(_) => true,
            _ => false,
        }
    }

    /// The thread of the interaction.
    pub fn thread_id(&self) -> (r: VcxResult<String>)
        ensures
            r matches Ok(id) && id@ == self@.thread_id,
    {
        Ok(self.thread_id.clone())
    }
}

} // verus!
