//! What the holder's state machine holds in each of its states.
use crate::messages::issuance::{
    Credential, CredentialOffer, CredentialOfferView, CredentialProposal, CredentialProposalView,
    CredentialView,
};
use crate::messages::notice::{ProblemReport, ProblemReportView, Status, StatusView};
use crate::text::clone_opt;
use vstd::prelude::*;

verus! {

/// The states of a holder, as callers see them.
#[derive(Clone, Copy, Debug, PartialEq, Eq, Structural)]
pub enum HolderState {
    Initial,
    ProposalSent,
    OfferReceived,
    RequestSent,
    Finished,
    Failed,
}

/// Nothing has happened yet.
#[derive(Debug)]
pub struct InitialHolderState {}

/// A proposal has been sent and waits for the issuer's offer.
#[derive(Debug)]
pub struct ProposalSentState {
    pub credential_proposal: CredentialProposal,
}

/// An offer has arrived and waits for the holder's decision.
#[derive(Debug)]
pub struct OfferReceivedState {
    pub offer: CredentialOffer,
}

/// The request has been sent and waits for the credential.
#[derive(Debug)]
pub struct RequestSentState {
    /// The metadata of the request, which storing the credential needs.
    pub req_meta: String,
    /// The credential definition.
    pub cred_def_json: String,
}

/// What a `RequestSentState` holds.
pub struct RequestSentStateView {
    pub req_meta: Seq<char>,
    pub cred_def_json: Seq<char>,
}

impl View for RequestSentState {
    type V = RequestSentStateView;

    open spec fn view(&self) -> RequestSentStateView {
        RequestSentStateView { req_meta: self.req_meta@, cred_def_json: self.cred_def_json@ }
    }
}

impl Clone for RequestSentState {
    fn clone(&self) -> (r: Self)
        ensures
            r@ == self@,
    {
        RequestSentState {
            req_meta: self.req_meta.clone(),
            cred_def_json: self.cred_def_json.clone(),
        }
    }
}

/// The interaction is over, with success or with failure.
#[derive(Debug)]
pub struct FinishedHolderState {
    /// The id under which the credential is stored.
    pub cred_id: Option<String>,
    pub credential: Option<Credential>,
    pub status: Status,
    /// The definition of the revocation registry, where the credential can be
    /// revoked.
    pub rev_reg_def_json: Option<String>,
}

/// What a `FinishedHolderState` holds.
pub struct FinishedHolderStateView {
    pub cred_id: Option<Seq<char>>,
    pub credential: Option<CredentialView>,
    pub status: StatusView,
    pub rev_reg_def_json: Option<Seq<char>>,
}

impl FinishedHolderStateView {
    /// Whether this is the end of an interaction: an interaction ends with
    /// success or with failure, never with the status of one in progress.
    pub open spec fn valid(self) -> bool {
        !(self.status is Undefined)
    }
}

impl View for FinishedHolderState {
    type V = FinishedHolderStateView;

    open spec fn view(&self) -> FinishedHolderStateView {
        FinishedHolderStateView {
            cred_id: self.cred_id.deep_view(),
            credential: match self.credential {
                Some(c) => Some(c@),
                None => None,
            },
            status: self.status@,
            rev_reg_def_json: self.rev_reg_def_json.deep_view(),
        }
    }
}

impl Clone for FinishedHolderState {
    fn clone(&self) -> (r: Self)
        ensures
            r@ == self@,
    {
        FinishedHolderState {
            cred_id: clone_opt(&self.cred_id),
            credential: match &self.credential {
                Some(c) => Some(c.clone()),
                None => None,
            },
            status: self.status.clone(),
            rev_reg_def_json: clone_opt(&self.rev_reg_def_json),
        }
    }
}

/// The end of an interaction that a problem report closed.
pub open spec fn failed(report: ProblemReportView) -> FinishedHolderStateView {
    FinishedHolderStateView {
        cred_id: None,
        credential: None,
        status: StatusView::Failed(report),
        rev_reg_def_json: None,
    }
}

/// The end of an interaction whose credential was stored.
pub open spec fn stored(
    cred_id: Seq<char>,
    credential: CredentialView,
    rev_reg_def_json: Option<Seq<char>>,
) -> FinishedHolderStateView {
    FinishedHolderStateView {
        cred_id: Some(cred_id),
        credential: Some(credential),
        status: StatusView::Success,
        rev_reg_def_json,
    }
}

impl FinishedHolderState {
    /// The end of an interaction that a problem report closed.
    pub fn from_problem_report(report: ProblemReport) -> (r: Self)
        ensures
            r@ == failed(report@),
            r@.valid(),
    {
        FinishedHolderState {
            cred_id: None,
            credential: None,
            status: Status::Failed(report),
            rev_reg_def_json: None,
        }
    }

    /// The end of an interaction whose credential was stored.
    pub fn from_stored(cred_id: String, credential: Credential, rev_reg_def_json: Option<String>)
        -> (r: Self)
        ensures
            r@ == stored(cred_id@, credential@, rev_reg_def_json.deep_view()),
            r@.valid(),
    {
        FinishedHolderState {
            cred_id: Some(cred_id),
            credential: Some(credential),
            status: Status::Success,
            rev_reg_def_json,
        }
    }
}

/// The state of a holder with what it holds in that state.
#[derive(Debug)]
pub enum HolderFullState {
    Initial(InitialHolderState),
    ProposalSent(ProposalSentState),
    OfferReceived(OfferReceivedState),
    RequestSent(RequestSentState),
    Finished(FinishedHolderState),
}

/// What a `HolderFullState` holds.
pub enum HolderFullStateView {
    Initial,
    ProposalSent(CredentialProposalView),
    OfferReceived(CredentialOfferView),
    RequestSent(RequestSentStateView),
    Finished(FinishedHolderStateView),
}

impl View for HolderFullState {
    type V = HolderFullStateView;

    open spec fn view(&self) -> HolderFullStateView {
        match self {
            HolderFullState::Initial(_) => HolderFullStateView::Initial,
            HolderFullState::ProposalSent(s) => HolderFullStateView::ProposalSent(
                s.credential_proposal@,
            ),
            HolderFullState::OfferReceived(s) => HolderFullStateView::OfferReceived(s.offer@),
            HolderFullState::RequestSent(s) => HolderFullStateView::RequestSent(s@),
            HolderFullState::Finished(s) => HolderFullStateView::Finished(s@),
        }
    }
}

impl Clone for HolderFullState {
    fn clone(&self) -> (r: Self)
        ensures
            r@ == self@,
    {
        match self {
            HolderFullState::Initial(_) => HolderFullState::Initial(InitialHolderState {  }),
            HolderFullState::ProposalSent(s) => HolderFullState::ProposalSent(
                ProposalSentState { credential_proposal: s.credential_proposal.clone() },
            ),
            HolderFullState::OfferReceived(s) => HolderFullState::OfferReceived(
                OfferReceivedState { offer: s.offer.clone() },
            ),
            HolderFullState::RequestSent(s) => HolderFullState::RequestSent(s.clone()),
            HolderFullState::Finished(s) => HolderFullState::Finished(s.clone()),
        }
    }
}

impl Default for HolderFullState {
    fn default() -> (r: Self)
        ensures
            r@ == HolderFullStateView::Initial,
    {
        HolderFullState::Initial(InitialHolderState {  })
    }
}

} // verus!
