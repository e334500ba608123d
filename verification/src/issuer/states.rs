//! What the issuer's state machine holds in each of its states.
use crate::messages::issuance::{
    CredentialProposal, CredentialProposalView, CredentialRequest, CredentialRequestView, OfferInfo,
    OfferInfoView,
};
use crate::messages::notice::{ProblemReport, ProblemReportView, Status, StatusView};
use crate::text::clone_opt;
use vstd::prelude::*;

verus! {

/// The states of an issuer, as callers see them.
#[derive(Clone, Copy, Debug, PartialEq, Eq, Structural)]
pub enum IssuerState {
    Initial,
    ProposalReceived,
    OfferSent,
    RequestReceived,
    CredentialSent,
    Finished,
    Failed,
}

/// Nothing has happened yet.
#[derive(Debug)]
pub struct InitialIssuerState {}

/// A proposal has arrived and waits for the issuer's offer.
#[derive(Debug)]
pub struct ProposalReceivedState {
    pub credential_proposal: CredentialProposal,
    pub offer_info: Option<OfferInfo>,
}

/// What a `ProposalReceivedState` holds.
pub struct ProposalReceivedStateView {
    pub credential_proposal: CredentialProposalView,
    pub offer_info: Option<OfferInfoView>,
}

impl View for ProposalReceivedState {
    type V = ProposalReceivedStateView;

    open spec fn view(&self) -> ProposalReceivedStateView {
        ProposalReceivedStateView {
            credential_proposal: self.credential_proposal@,
            offer_info: match self.offer_info {
                Some(info) => Some(info@),
                None => None,
            },
        }
    }
}

impl Clone for ProposalReceivedState {
    fn clone(&self) -> (r: Self)
        ensures
            r@ == self@,
    {
        ProposalReceivedState {
            credential_proposal: self.credential_proposal.clone(),
            offer_info: match &self.offer_info {
                Some(info) => Some(info.clone()),
                None => None,
            },
        }
    }
}

impl ProposalReceivedState {
    /// The state that holds the given proposal.
    pub fn new(credential_proposal: CredentialProposal, offer_info: Option<OfferInfo>) -> (r: Self)
        ensures
            r@ == (ProposalReceivedStateView {
                credential_proposal: credential_proposal@,
                offer_info: match offer_info {
                    Some(info) => Some(info@),
                    None => None,
                },
            }),
    {
        ProposalReceivedState { credential_proposal, offer_info }
    }
}

/// An offer has been sent and waits for the holder's request.
#[derive(Debug)]
pub struct OfferSentState {
    /// The backend's offer.
    pub offer: String,
    /// The attribute values of the credential, as a JSON document.
    pub cred_data: String,
    pub rev_reg_id: Option<String>,
    pub tails_file: Option<String>,
}

/// What an `OfferSentState` holds.
pub struct OfferSentStateView {
    pub offer: Seq<char>,
    pub cred_data: Seq<char>,
    pub rev_reg_id: Option<Seq<char>>,
    pub tails_file: Option<Seq<char>>,
}

impl View for OfferSentState {
    type V = OfferSentStateView;

    open spec fn view(&self) -> OfferSentStateView {
        OfferSentStateView {
            offer: self.offer@,
            cred_data: self.cred_data@,
            rev_reg_id: self.rev_reg_id.deep_view(),
            tails_file: self.tails_file.deep_view(),
        }
    }
}

impl Clone for OfferSentState {
    fn clone(&self) -> (r: Self)
        ensures
            r@ == self@,
    {
        OfferSentState {
            offer: self.offer.clone(),
            cred_data: self.cred_data.clone(),
            rev_reg_id: clone_opt(&self.rev_reg_id),
            tails_file: clone_opt(&self.tails_file),
        }
    }
}

/// The state after the offer of the given credential was sent.
pub open spec fn offer_sent(info: OfferInfoView, offer: Seq<char>) -> OfferSentStateView {
    OfferSentStateView {
        offer,
        cred_data: info.credential_json,
        rev_reg_id: info.rev_reg_id,
        tails_file: info.tails_file,
    }
}

impl OfferSentState {
    /// The state after the offer of the given credential was sent.
    pub fn new(info: OfferInfo, offer: String) -> (r: Self)
        ensures
            r@ == offer_sent(info@, offer@),
    {
        OfferSentState {
            offer,
            cred_data: info.credential_json,
            rev_reg_id: info.rev_reg_id,
            tails_file: info.tails_file,
        }
    }
}

/// The holder's request has arrived and waits for the credential.
#[derive(Debug)]
pub struct RequestReceivedState {
    pub offer: String,
    pub cred_data: String,
    pub rev_reg_id: Option<String>,
    pub tails_file: Option<String>,
    pub request: CredentialRequest,
}

/// What a `RequestReceivedState` holds.
pub struct RequestReceivedStateView {
    pub offer: Seq<char>,
    pub cred_data: Seq<char>,
    pub rev_reg_id: Option<Seq<char>>,
    pub tails_file: Option<Seq<char>>,
    pub request: CredentialRequestView,
}

impl View for RequestReceivedState {
    type V = RequestReceivedStateView;

    open spec fn view(&self) -> RequestReceivedStateView {
        RequestReceivedStateView {
            offer: self.offer@,
            cred_data: self.cred_data@,
            rev_reg_id: self.rev_reg_id.deep_view(),
            tails_file: self.tails_file.deep_view(),
            request: self.request@,
        }
    }
}

impl Clone for RequestReceivedState {
    fn clone(&self) -> (r: Self)
        ensures
            r@ == self@,
    {
        RequestReceivedState {
            offer: self.offer.clone(),
            cred_data: self.cred_data.clone(),
            rev_reg_id: clone_opt(&self.rev_reg_id),
            tails_file: clone_opt(&self.tails_file),
            request: self.request.clone(),
        }
    }
}

/// The state after the given request arrived for the offer that was sent.
pub open spec fn request_received(
    state: OfferSentStateView,
    request: CredentialRequestView,
) -> RequestReceivedStateView {
    RequestReceivedStateView {
        offer: state.offer,
        cred_data: state.cred_data,
        rev_reg_id: state.rev_reg_id,
        tails_file: state.tails_file,
        request,
    }
}

impl RequestReceivedState {
    /// The state after the given request arrived for the offer that was sent.
    pub fn new(state: OfferSentState, request: CredentialRequest) -> (r: Self)
        ensures
            r@ == request_received(state@, request@),
    {
        RequestReceivedState {
            offer: state.offer,
            cred_data: state.cred_data,
            rev_reg_id: state.rev_reg_id,
            tails_file: state.tails_file,
            request,
        }
    }
}

/// What it takes to revoke an issued credential: its index in the revocation
/// registry, the registry, and the tails file. All three are needed.
#[derive(Debug)]
pub struct RevocationInfoV1 {
    pub cred_rev_id: Option<String>,
    pub rev_reg_id: Option<String>,
    pub tails_file: Option<String>,
}

/// What a `RevocationInfoV1` holds.
pub struct RevocationInfoV1View {
    pub cred_rev_id: Option<Seq<char>>,
    pub rev_reg_id: Option<Seq<char>>,
    pub tails_file: Option<Seq<char>>,
}

impl RevocationInfoV1View {
    /// Whether nothing is missing of what a revocation needs.
    pub open spec fn complete(self) -> bool {
        self.cred_rev_id is Some && self.rev_reg_id is Some && self.tails_file is Some
    }
}

impl View for RevocationInfoV1 {
    type V = RevocationInfoV1View;

    open spec fn view(&self) -> RevocationInfoV1View {
        RevocationInfoV1View {
            cred_rev_id: self.cred_rev_id.deep_view(),
            rev_reg_id: self.rev_reg_id.deep_view(),
            tails_file: self.tails_file.deep_view(),
        }
    }
}

impl Clone for RevocationInfoV1 {
    fn clone(&self) -> (r: Self)
        ensures
            r@ == self@,
    {
        RevocationInfoV1 {
            cred_rev_id: clone_opt(&self.cred_rev_id),
            rev_reg_id: clone_opt(&self.rev_reg_id),
            tails_file: clone_opt(&self.tails_file),
        }
    }
}

/// The revocation details of a credential: there are some exactly where the
/// credential was offered with a revocation registry.
pub open spec fn revocation_info(
    cred_rev_id: Option<Seq<char>>,
    rev_reg_id: Option<Seq<char>>,
    tails_file: Option<Seq<char>>,
) -> Option<RevocationInfoV1View> {
    if rev_reg_id is Some {
        Some(RevocationInfoV1View { cred_rev_id, rev_reg_id, tails_file })
    } else {
        None
    }
}

/// The view of optional revocation details.
pub open spec fn revocation_view(info: Option<RevocationInfoV1>) -> Option<RevocationInfoV1View> {
    match info {
        Some(i) => Some(i@),
        None => None,
    }
}

/// The revocation details of a credential, where it can be revoked.
pub fn make_revocation_info(
    cred_rev_id: Option<String>,
    rev_reg_id: Option<String>,
    tails_file: Option<String>,
) -> (r: Option<RevocationInfoV1>)
    ensures
        revocation_view(r) == revocation_info(
            cred_rev_id.deep_view(),
            rev_reg_id.deep_view(),
            tails_file.deep_view(),
        ),
{
    if rev_reg_id.is_some() {
        Some(RevocationInfoV1 { cred_rev_id, rev_reg_id, tails_file })
    } else {
        None
    }
}

/// The credential has been sent and waits for the holder's acknowledgement.
#[derive(Debug)]
pub struct CredentialSentState {
    pub revocation_info_v1: Option<RevocationInfoV1>,
}

/// What a `CredentialSentState` holds.
pub struct CredentialSentStateView {
    pub revocation_info_v1: Option<RevocationInfoV1View>,
}

impl View for CredentialSentState {
    type V = CredentialSentStateView;

    open spec fn view(&self) -> CredentialSentStateView {
        CredentialSentStateView { revocation_info_v1: revocation_view(self.revocation_info_v1) }
    }
}

impl Clone for CredentialSentState {
    fn clone(&self) -> (r: Self)
        ensures
            r@ == self@,
    {
        CredentialSentState {
            revocation_info_v1: match &self.revocation_info_v1 {
                Some(info) => Some(info.clone()),
                None => None,
            },
        }
    }
}

/// The interaction is over, with success or with failure.
#[derive(Debug)]
pub struct FinishedState {
    pub cred_id: Option<String>,
    pub revocation_info_v1: Option<RevocationInfoV1>,
    pub status: Status,
}

/// What a `FinishedState` holds.
pub struct FinishedStateView {
    pub cred_id: Option<Seq<char>>,
    pub revocation_info_v1: Option<RevocationInfoV1View>,
    pub status: StatusView,
}

impl FinishedStateView {
    /// Whether this is the end of an interaction: an interaction ends with
    /// success or with failure, never with the status of one in progress.
    pub open spec fn valid(self) -> bool {
        !(self.status is Undefined)
    }
}

impl View for FinishedState {
    type V = FinishedStateView;

    open spec fn view(&self) -> FinishedStateView {
        FinishedStateView {
            cred_id: self.cred_id.deep_view(),
            revocation_info_v1: revocation_view(self.revocation_info_v1),
            status: self.status@,
        }
    }
}

impl Clone for FinishedState {
    fn clone(&self) -> (r: Self)
        ensures
            r@ == self@,
    {
        FinishedState {
            cred_id: clone_opt(&self.cred_id),
            revocation_info_v1: match &self.revocation_info_v1 {
                Some(info) => Some(info.clone()),
                None => None,
            },
            status: self.status.clone(),
        }
    }
}

/// The end of an interaction whose offer met a problem report.
pub open spec fn offer_failed(state: OfferSentStateView, report: ProblemReportView)
    -> FinishedStateView {
    FinishedStateView {
        cred_id: None,
        revocation_info_v1: revocation_info(None, state.rev_reg_id, state.tails_file),
        status: StatusView::Failed(report),
    }
}

/// The end of an interaction whose credential was issued and sent.
pub open spec fn issued(state: RequestReceivedStateView, cred_rev_id: Option<Seq<char>>)
    -> FinishedStateView {
    FinishedStateView {
        cred_id: None,
        revocation_info_v1: revocation_info(cred_rev_id, state.rev_reg_id, state.tails_file),
        status: StatusView::Success,
    }
}

/// The end of an interaction whose credential could not be issued.
pub open spec fn issue_failed(state: RequestReceivedStateView, report: ProblemReportView)
    -> FinishedStateView {
    FinishedStateView {
        cred_id: None,
        revocation_info_v1: revocation_info(None, state.rev_reg_id, state.tails_file),
        status: StatusView::Failed(report),
    }
}

/// The end of an interaction whose credential was sent: with success where
/// the holder acknowledged it, with failure where a problem report came.
pub open spec fn closed(state: CredentialSentStateView, report: Option<ProblemReportView>)
    -> FinishedStateView {
    FinishedStateView {
        cred_id: None,
        revocation_info_v1: state.revocation_info_v1,
        status: match report {
            Some(r) => StatusView::Failed(r),
            None => StatusView::Success,
        },
    }
}

impl FinishedState {
    /// The end of an interaction whose offer met a problem report.
    pub fn from_offer_failed(state: OfferSentState, report: ProblemReport) -> (r: Self)
        ensures
            r@ == offer_failed(state@, report@),
            r@.valid(),
    {
        FinishedState {
            cred_id: None,
            revocation_info_v1: make_revocation_info(None, state.rev_reg_id, state.tails_file),
            status: Status::Failed(report),
        }
    }

    /// The end of an interaction whose credential was issued and sent.
    pub fn from_issued(state: RequestReceivedState, cred_rev_id: Option<String>) -> (r: Self)
        ensures
            r@ == issued(state@, cred_rev_id.deep_view()),
            r@.valid(),
    {
        FinishedState {
            cred_id: None,
            revocation_info_v1: make_revocation_info(
                cred_rev_id,
                state.rev_reg_id,
                state.tails_file,
            ),
            status: Status::Success,
        }
    }

    /// The end of an interaction whose credential could not be issued.
    pub fn from_issue_failed(state: RequestReceivedState, report: ProblemReport) -> (r: Self)
        ensures
            r@ == issue_failed(state@, report@),
            r@.valid(),
    {
        FinishedState {
            cred_id: None,
            revocation_info_v1: make_revocation_info(None, state.rev_reg_id, state.tails_file),
            status: Status::Failed(report),
        }
    }

    /// The end of an interaction whose credential was sent.
    pub fn from_closed(state: CredentialSentState, report: Option<ProblemReport>) -> (r: Self)
        ensures
            r@ == closed(
                state@,
                match report {
                    Some(p) => Some(p@),
                    None => None,
                },
            ),
            r@.valid(),
    {
        FinishedState {
            cred_id: None,
            revocation_info_v1: state.revocation_info_v1,
            status: match report {
                Some(p) => Status::Failed(p),
                None => Status::Success,
            },
        }
    }
}

} // verus!
