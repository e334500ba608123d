//! The messages as they arrive and leave, and the events of the two state
//! machines: inbound messages and the commands of the caller.
use crate::error::{VcxError, VcxErrorKind, VcxResult};
use crate::messages::issuance::{
    Credential, CredentialOffer, CredentialOfferView, CredentialProposal, CredentialProposalData,
    CredentialProposalDataView, CredentialProposalView, CredentialRequest, CredentialRequestView,
    CredentialView, OfferInfo, OfferInfoView,
};
use crate::messages::notice::{Ack, AckView, ProblemReport, ProblemReportView};
use crate::text::clone_opt;
use vstd::prelude::*;

verus! {

/// A message between the two agents.
#[derive(Debug)]
pub enum A2AMessage {
    CredentialProposal(CredentialProposal),
    CredentialOffer(CredentialOffer),
    CredentialRequest(CredentialRequest),
    Credential(Credential),
    /// An acknowledgement of the issuance protocol.
    CredentialAck(Ack),
    /// An acknowledgement of the general kind.
    Ack(Ack),
    CommonProblemReport(ProblemReport),
    /// A message of another protocol, with its text.
    Generic(String),
}

/// What an `A2AMessage` holds.
pub enum A2AMessageView {
    CredentialProposal(CredentialProposalView),
    CredentialOffer(CredentialOfferView),
    CredentialRequest(CredentialRequestView),
    Credential(CredentialView),
    CredentialAck(AckView),
    Ack(AckView),
    CommonProblemReport(ProblemReportView),
    Generic(Seq<char>),
}

impl View for A2AMessage {
    type V = A2AMessageView;

    open spec fn view(&self) -> A2AMessageView {
        match self {
            A2AMessage::CredentialProposal(m) => A2AMessageView::CredentialProposal(m@),
            A2AMessage::CredentialOffer(m) => A2AMessageView::CredentialOffer(m@),
            A2AMessage::CredentialRequest(m) => A2AMessageView::CredentialRequest(m@),
            A2AMessage::Credential(m) => A2AMessageView::Credential(m@),
            A2AMessage::CredentialAck(m) => A2AMessageView::CredentialAck(m@),
            A2AMessage::Ack(m) => A2AMessageView::Ack(m@),
            A2AMessage::CommonProblemReport(m) => A2AMessageView::CommonProblemReport(m@),
            A2AMessage::Generic(text) => A2AMessageView::Generic(text@),
        }
    }
}

impl Clone for A2AMessage {
    fn clone(&self) -> (r: Self)
        ensures
            r@ == self@,
    {
        match self {
            A2AMessage::CredentialProposal(m) => A2AMessage::CredentialProposal(m.clone()),
            A2AMessage::CredentialOffer(m) => A2AMessage::CredentialOffer(m.clone()),
            A2AMessage::CredentialRequest(m) => A2AMessage::CredentialRequest(m.clone()),
            A2AMessage::Credential(m) => A2AMessage::Credential(m.clone()),
            A2AMessage::CredentialAck(m) => A2AMessage::CredentialAck(m.clone()),
            A2AMessage::Ack(m) => A2AMessage::Ack(m.clone()),
            A2AMessage::CommonProblemReport(m) => A2AMessage::CommonProblemReport(m.clone()),
            A2AMessage::Generic(text) => A2AMessage::Generic(text.clone()),
        }
    }
}

impl CredentialProposal {
    /// This proposal as a message.
    pub fn to_a2a_message(self) -> (r: A2AMessage)
        ensures
            r@ == A2AMessageView::CredentialProposal(self@),
    {
        A2AMessage::CredentialProposal(self)
    }
}

impl CredentialOffer {
    /// This offer as a message.
    pub fn to_a2a_message(self) -> (r: A2AMessage)
        ensures
            r@ == A2AMessageView::CredentialOffer(self@),
    {
        A2AMessage::CredentialOffer(self)
    }
}

impl CredentialRequest {
    /// This request as a message.
    pub fn to_a2a_message(self) -> (r: A2AMessage)
        ensures
            r@ == A2AMessageView::CredentialRequest(self@),
    {
        A2AMessage::CredentialRequest(self)
    }
}

impl Credential {
    /// This credential as a message.
    pub fn to_a2a_message(self) -> (r: A2AMessage)
        ensures
            r@ == A2AMessageView::Credential(self@),
    {
        A2AMessage::Credential(self)
    }
}

impl ProblemReport {
    /// This report as a message.
    pub fn to_a2a_message(self) -> (r: A2AMessage)
        ensures
            r@ == A2AMessageView::CommonProblemReport(self@),
    {
        A2AMessage::CommonProblemReport(self)
    }
}

/// An event of a state machine: an inbound message, or a command by which the
/// caller asks the machine to act.
#[derive(Debug)]
pub enum CredentialIssuanceMessage {
    /// Command to a holder: propose a credential.
    CredentialProposalSend(CredentialProposalData),
    CredentialProposal(CredentialProposal),
    /// Command to an issuer: offer a credential, with an optional comment.
    CredentialOfferSend(OfferInfo, Option<String>),
    CredentialOffer(CredentialOffer),
    /// Command to a holder: decline the offer, with an optional comment.
    CredentialOfferReject(Option<String>),
    /// Command to a holder: request the offered credential under the given
    /// pairwise DID.
    CredentialRequestSend(String),
    CredentialRequest(CredentialRequest),
    /// Command to an issuer: issue the requested credential.
    CredentialSend(),
    Credential(Credential),
    CredentialAck(Ack),
    ProblemReport(ProblemReport),
    /// A message that the issuance protocol does not know.
    Unknown,
}

/// What a `CredentialIssuanceMessage` holds.
pub enum CredentialIssuanceMessageView {
    CredentialProposalSend(CredentialProposalDataView),
    CredentialProposal(CredentialProposalView),
    CredentialOfferSend(OfferInfoView, Option<Seq<char>>),
    CredentialOffer(CredentialOfferView),
    CredentialOfferReject(Option<Seq<char>>),
    CredentialRequestSend(Seq<char>),
    CredentialRequest(CredentialRequestView),
    CredentialSend,
    Credential(CredentialView),
    CredentialAck(AckView),
    ProblemReport(ProblemReportView),
    Unknown,
}

impl View for CredentialIssuanceMessage {
    type V = CredentialIssuanceMessageView;

    open spec fn view(&self) -> CredentialIssuanceMessageView {
        match self {
            CredentialIssuanceMessage::CredentialProposalSend(d) =>
                CredentialIssuanceMessageView::CredentialProposalSend(d@),
            CredentialIssuanceMessage::CredentialProposal(m) =>
                CredentialIssuanceMessageView::CredentialProposal(m@),
            CredentialIssuanceMessage::CredentialOfferSend(info, comment) =>
                CredentialIssuanceMessageView::CredentialOfferSend(info@, comment.deep_view()),
            CredentialIssuanceMessage::CredentialOffer(m) =>
                CredentialIssuanceMessageView::CredentialOffer(m@),
            CredentialIssuanceMessage::CredentialOfferReject(comment) =>
                CredentialIssuanceMessageView::CredentialOfferReject(comment.deep_view()),
            CredentialIssuanceMessage::CredentialRequestSend(did) =>
                CredentialIssuanceMessageView::CredentialRequestSend(did@),
            CredentialIssuanceMessage::CredentialRequest(m) =>
                CredentialIssuanceMessageView::CredentialRequest(m@),
            CredentialIssuanceMessage::CredentialSend() =>
                CredentialIssuanceMessageView::CredentialSend,
            CredentialIssuanceMessage::Credential(m) =>
                CredentialIssuanceMessageView::Credential(m@),
            CredentialIssuanceMessage::CredentialAck(m) =>
                CredentialIssuanceMessageView::CredentialAck(m@),
            CredentialIssuanceMessage::ProblemReport(m) =>
                CredentialIssuanceMessageView::ProblemReport(m@),
            CredentialIssuanceMessage::Unknown => CredentialIssuanceMessageView::Unknown,
        }
    }
}

impl Clone for CredentialIssuanceMessage {
    fn clone(&self) -> (r: Self)
        ensures
            r@ == self@,
    {
        match self {
            CredentialIssuanceMessage::CredentialProposalSend(d) =>
                CredentialIssuanceMessage::CredentialProposalSend(d.clone()),
            CredentialIssuanceMessage::CredentialProposal(m) =>
                CredentialIssuanceMessage::CredentialProposal(m.clone()),
            CredentialIssuanceMessage::CredentialOfferSend(info, comment) =>
                CredentialIssuanceMessage::CredentialOfferSend(info.clone(), clone_opt(comment)),
            CredentialIssuanceMessage::CredentialOffer(m) =>
                CredentialIssuanceMessage::CredentialOffer(m.clone()),
            CredentialIssuanceMessage::CredentialOfferReject(comment) =>
                CredentialIssuanceMessage::CredentialOfferReject(clone_opt(comment)),
            CredentialIssuanceMessage::CredentialRequestSend(did) =>
                CredentialIssuanceMessage::CredentialRequestSend(did.clone()),
            CredentialIssuanceMessage::CredentialRequest(m) =>
                CredentialIssuanceMessage::CredentialRequest(m.clone()),
            CredentialIssuanceMessage::CredentialSend() =>
                CredentialIssuanceMessage::CredentialSend(),
            CredentialIssuanceMessage::Credential(m) =>
                CredentialIssuanceMessage::Credential(m.clone()),
            CredentialIssuanceMessage::CredentialAck(m) =>
                CredentialIssuanceMessage::CredentialAck(m.clone()),
            CredentialIssuanceMessage::ProblemReport(m) =>
                CredentialIssuanceMessage::ProblemReport(m.clone()),
            CredentialIssuanceMessage::Unknown => CredentialIssuanceMessage::Unknown,
        }
    }
}

/// The event that an inbound message is to a state machine. Both kinds of
/// acknowledgement are the same event; a message of another protocol is
/// unknown.
pub open spec fn event_of(message: A2AMessageView) -> CredentialIssuanceMessageView {
    match message {
        A2AMessageView::CredentialProposal(m) =>
            CredentialIssuanceMessageView::CredentialProposal(m),
        A2AMessageView::CredentialOffer(m) => CredentialIssuanceMessageView::CredentialOffer(m),
        A2AMessageView::CredentialRequest(m) => CredentialIssuanceMessageView::CredentialRequest(m),
        A2AMessageView::Credential(m) => CredentialIssuanceMessageView::Credential(m),
        A2AMessageView::CredentialAck(m) => CredentialIssuanceMessageView::CredentialAck(m),
        A2AMessageView::Ack(m) => CredentialIssuanceMessageView::CredentialAck(m),
        A2AMessageView::CommonProblemReport(m) => CredentialIssuanceMessageView::ProblemReport(m),
        A2AMessageView::Generic(_) => CredentialIssuanceMessageView::Unknown,
    }
}

impl CredentialIssuanceMessageView {
    /// The thread that the event names, where it is an inbound message that
    /// names one. A proposal or an offer that replies to no thread names the
    /// thread that its own id opens. A command names none.
    pub open spec fn thread_ref(self) -> Option<Seq<char>> {
        match self {
            CredentialIssuanceMessageView::CredentialProposal(m) => Some(m.thread_id()),
            CredentialIssuanceMessageView::CredentialOffer(m) => Some(m.thread_id()),
            CredentialIssuanceMessageView::CredentialRequest(m) => m.thread,
            CredentialIssuanceMessageView::Credential(m) => m.thread,
            CredentialIssuanceMessageView::CredentialAck(m) => m.thread,
            CredentialIssuanceMessageView::ProblemReport(m) => m.thread,
            _ => None,
        }
    }

    /// Whether the event may be handled in the given thread: it names no
    /// thread, or it names this one.
    pub open spec fn thread_id_matches(self, thread_id: Seq<char>) -> bool {
        match self.thread_ref() {
            Some(named) => named == thread_id,
            None => true,
        }
    }
}

impl CredentialIssuanceMessage {
    /// Whether the event may be handled in the given thread.
    pub fn thread_id_matches(&self, thread_id: &str) -> (r: bool)
        ensures
            r == self@.thread_id_matches(thread_id@),
    {
        match self {
            CredentialIssuanceMessage::CredentialProposal(m) => m.from_thread(thread_id),
            CredentialIssuanceMessage::CredentialOffer(m) => m.from_thread(thread_id),
            CredentialIssuanceMessage::CredentialRequest(m) => m.thread.thid.is_none()
                || m.from_thread(thread_id),
            CredentialIssuanceMessage::Credential(m) => m.thread.thid.is_none() || m.from_thread(
                thread_id,
            ),
            CredentialIssuanceMessage::CredentialAck(m) => m.thread.thid.is_none()
                || m.from_thread(thread_id),
            CredentialIssuanceMessage::ProblemReport(m) => m.thread.thid.is_none()
                || m.from_thread(thread_id),
            _ => true,
        }
    }
}

impl CredentialIssuanceMessage {
    /// The event that an inbound message is to a state machine.
    pub fn from_a2a(message: A2AMessage) -> (r: Self)
        ensures
            r@ == event_of(message@),
    {
        match message {
            A2AMessage::CredentialProposal(m) => CredentialIssuanceMessage::CredentialProposal(m),
            A2AMessage::CredentialOffer(m) => CredentialIssuanceMessage::CredentialOffer(m),
            A2AMessage::CredentialRequest(m) => CredentialIssuanceMessage::CredentialRequest(m),
            A2AMessage::Credential(m) => CredentialIssuanceMessage::Credential(m),
            A2AMessage::CredentialAck(m) => CredentialIssuanceMessage::CredentialAck(m),
            A2AMessage::Ack(m) => CredentialIssuanceMessage::CredentialAck(m),
            A2AMessage::CommonProblemReport(m) => CredentialIssuanceMessage::ProblemReport(m),
            A2AMessage::Generic(_) => CredentialIssuanceMessage::Unknown,
        }
    }
}

/// The thread check that comes before every transition: an inbound message
/// that names a thread must name the interaction's. Fails with
/// `ThreadIdMismatch` where it names another.
pub fn verify_thread_id(thread_id: &str, message: &CredentialIssuanceMessage) -> (r: VcxResult<()>)
    ensures
        match r {
            Ok(_) => message@.thread_id_matches(thread_id@),
            Err(e) => !message@.thread_id_matches(thread_id@) && e@.kind
                == VcxErrorKind::ThreadIdMismatch,
        },
{
    if message.thread_id_matches(thread_id) {
        Ok(())
    } else {
        Err(
            VcxError::from_msg(
                VcxErrorKind::ThreadIdMismatch,
                "Cannot handle message: thread id does not match",
            ),
        )
    }
}

impl From<A2AMessage> for CredentialIssuanceMessage {
    fn from(message: A2AMessage) -> (r: Self) {
        match message {
            A2AMessage::CredentialProposal(m) => CredentialIssuanceMessage::CredentialProposal(m),
            A2AMessage::CredentialOffer(m) => CredentialIssuanceMessage::CredentialOffer(m),
            A2AMessage::CredentialRequest(m) => CredentialIssuanceMessage::CredentialRequest(m),
            A2AMessage::Credential(m) => CredentialIssuanceMessage::Credential(m),
            A2AMessage::CredentialAck(m) => CredentialIssuanceMessage::CredentialAck(m),
            A2AMessage::Ack(m) => CredentialIssuanceMessage::CredentialAck(m),
            A2AMessage::CommonProblemReport(m) => CredentialIssuanceMessage::ProblemReport(m),
            A2AMessage::Generic(_) => CredentialIssuanceMessage::Unknown,
        }
    }
}

impl vstd::std_specs::convert::FromSpecImpl<A2AMessage> for CredentialIssuanceMessage {
    open spec fn obeys_from_spec() -> bool {
        true
    }

    open spec fn from_spec(message: A2AMessage) -> Self {
        match message {
            A2AMessage::CredentialProposal(m) => CredentialIssuanceMessage::CredentialProposal(m),
            A2AMessage::CredentialOffer(m) => CredentialIssuanceMessage::CredentialOffer(m),
            A2AMessage::CredentialRequest(m) => CredentialIssuanceMessage::CredentialRequest(m),
            A2AMessage::Credential(m) => CredentialIssuanceMessage::Credential(m),
            A2AMessage::CredentialAck(m) => CredentialIssuanceMessage::CredentialAck(m),
            A2AMessage::Ack(m) => CredentialIssuanceMessage::CredentialAck(m),
            A2AMessage::CommonProblemReport(m) => CredentialIssuanceMessage::ProblemReport(m),
            A2AMessage::Generic(_) => CredentialIssuanceMessage::Unknown,
        }
    }
}

} // verus!
