//! What holds of every issuer, whatever the backend and the callback do.
use crate::attachment::{attachment_of, AttachmentId};
use crate::backend::AnoncredsBackend;
use crate::error::{VcxError, VcxErrorKind, VcxResult};
use crate::issuer::preview::lemma_preview_keeps_the_rest;
use crate::messages::issuance::{Credential, CredentialOfferView, OfferInfoView};
use crate::issuer::state_machine::{created, issue_inputs, IssuerFullStateView, IssuerSMView};
use crate::issuer::states::{issue_failed, issued, IssuerState, RequestReceivedStateView};
use crate::messages::a2a::{event_of, A2AMessage, A2AMessageView, CredentialIssuanceMessageView};
use crate::messages::notice::ProblemReportView;
use vstd::prelude::*;

verus! {

/// The transition table of the issuer: whether the event may take an issuer
/// from the one state to the other.
pub open spec fn transition(
    from: IssuerState,
    event: CredentialIssuanceMessageView,
    to: IssuerState,
) -> bool {
    match (from, event) {
        (IssuerState::Initial, CredentialIssuanceMessageView::CredentialProposal(_)) => to
            == IssuerState::ProposalReceived,
        (IssuerState::Initial, CredentialIssuanceMessageView::CredentialOfferSend(_, _)) => to
            == IssuerState::OfferSent,
        (
            IssuerState::ProposalReceived,
            CredentialIssuanceMessageView::CredentialOfferSend(_, _),
        ) => to == IssuerState::OfferSent,
        (IssuerState::OfferSent, CredentialIssuanceMessageView::CredentialRequest(_)) => to
            == IssuerState::RequestReceived,
        (IssuerState::OfferSent, CredentialIssuanceMessageView::CredentialProposal(_)) => to
            == IssuerState::ProposalReceived,
        (IssuerState::OfferSent, CredentialIssuanceMessageView::ProblemReport(_)) => to
            == IssuerState::Failed,
        (IssuerState::RequestReceived, CredentialIssuanceMessageView::CredentialSend) => to
            == IssuerState::Finished || to == IssuerState::Failed,
        (IssuerState::CredentialSent, CredentialIssuanceMessageView::CredentialAck(_)) => to
            == IssuerState::Finished,
        (IssuerState::CredentialSent, CredentialIssuanceMessageView::ProblemReport(_)) => to
            == IssuerState::Failed,
        _ => false,
    }
}

/// There are no hidden transitions: an event that is handled with success
/// leaves the issuer as it was, or takes it along a line of the transition
/// table. The caller's name for the interaction never changes.
pub proof fn lemma_only_declared_transitions<
    B: AnoncredsBackend,
    F: Fn(&A2AMessage) -> VcxResult<()>,
>(
    machine: IssuerSMView,
    event: CredentialIssuanceMessageView,
    backend: &B,
    send_message: Option<&F>,
    next: IssuerSMView,
)
    requires
        machine.handled(event, backend, send_message, Ok(next)),
    ensures
        next == machine || transition(machine.state_name(), event, next.state_name()),
        next.source_id == machine.source_id,
{
}

/// The thread of an interaction is set no later than when the issuer leaves the
/// initial state, and never changes afterwards.
pub proof fn lemma_thread_never_changes<
    B: AnoncredsBackend,
    F: Fn(&A2AMessage) -> VcxResult<()>,
>(
    machine: IssuerSMView,
    event: CredentialIssuanceMessageView,
    backend: &B,
    send_message: Option<&F>,
    next: IssuerSMView,
)
    requires
        machine.handled(event, backend, send_message, Ok(next)),
        !(machine.state is Initial) || !(event is CredentialProposal),
    ensures
        next.thread_id == machine.thread_id,
{
}

/// An inbound message that names another thread than the interaction's is
/// refused with `ThreadIdMismatch` in every state but the initial one, where
/// the thread is still to be adopted.
pub proof fn lemma_other_thread_is_refused<
    B: AnoncredsBackend,
    F: Fn(&A2AMessage) -> VcxResult<()>,
>(
    machine: IssuerSMView,
    event: CredentialIssuanceMessageView,
    backend: &B,
    send_message: Option<&F>,
    outcome: Result<IssuerSMView, VcxError>,
)
    requires
        !(machine.state is Initial),
        event.thread_ref() matches Some(named) && named != machine.thread_id,
        machine.handled(event, backend, send_message, outcome),
    ensures
        outcome matches Err(e) && e@.kind == VcxErrorKind::ThreadIdMismatch,
{
}

/// A finished interaction is absorbing: no event changes it.
pub proof fn lemma_terminal_is_absorbing<
    B: AnoncredsBackend,
    F: Fn(&A2AMessage) -> VcxResult<()>,
>(
    machine: IssuerSMView,
    event: CredentialIssuanceMessageView,
    backend: &B,
    send_message: Option<&F>,
    next: IssuerSMView,
)
    requires
        machine.is_terminal(),
        machine.handled(event, backend, send_message, Ok(next)),
    ensures
        next == machine,
{
}

/// A message that the selection hands out passes the thread check when it is
/// handled.
pub proof fn lemma_selected_message_passes_thread_check(
    machine: IssuerSMView,
    message: A2AMessageView,
)
    requires
        machine.accepts(message),
    ensures
        machine.accepts_thread(event_of(message)),
{
}

/// Every offer that an issuer sends belongs to the thread of the interaction,
/// carries the backend's offer as its one attachment, and has the comment of
/// the command.
pub proof fn lemma_offer_names_the_thread(
    machine: IssuerSMView,
    id: Seq<char>,
    info: OfferInfoView,
    comment: Option<Seq<char>>,
    cred_offer: Seq<char>,
)
    ensures
        machine.offer_message(id, info, comment, cred_offer) matches Ok(offer) ==> {
            &&& offer.thread_id() == machine.thread_id
            &&& offer.attach == seq![attachment_of(AttachmentId::CredentialOffer, cred_offer)]
            &&& offer.comment == comment
        },
{
    lemma_preview_keeps_the_rest(
        CredentialOfferView {
            attach: seq![attachment_of(AttachmentId::CredentialOffer, cred_offer)],
            comment,
            ..machine.offer_base(id)
        },
        info.credential_json,
    );
}

/// The end of the interaction follows the attempt to issue: after a
/// credential was issued the issuer has finished with success, and after the
/// attempt failed it has failed.
pub proof fn lemma_issue_ends_as_the_attempt<
    B: AnoncredsBackend,
    F: Fn(&A2AMessage) -> VcxResult<()>,
>(
    machine: IssuerSMView,
    backend: &B,
    send_message: Option<&F>,
    attempt: VcxResult<(Credential, Option<String>)>,
    report_id: Seq<char>,
    next: IssuerSMView,
)
    requires
        machine.issue_handled(backend, send_message, attempt, report_id, Ok(next)),
    ensures
        attempt is Ok ==> next.state_name() == IssuerState::Finished && next.status_code() == 1,
        attempt is Err ==> next.state_name() == IssuerState::Failed && next.status_code() == 2,
{
}

/// Where the request that was received is in order and the backend issues
/// whenever it is asked, a credential is issued: the attempt succeeds.
pub proof fn lemma_issue_succeeds_where_the_backend_issues<B: AnoncredsBackend>(
    backend: &B,
    state: RequestReceivedStateView,
    thread_id: Seq<char>,
    attempt: VcxResult<(Credential, Option<String>)>,
)
    requires
        issue_inputs(state.request, state.cred_data, thread_id) matches Ok(inputs) && forall|
            b: VcxResult<(String, Option<String>)>,
        | #[trigger]
            backend.issue_outcome(
                state.offer,
                inputs.0,
                inputs.1,
                state.rev_reg_id,
                state.tails_file,
                b,
            ) ==> b is Ok,
        created(
            backend,
            state.request,
            state.rev_reg_id,
            state.tails_file,
            state.offer,
            state.cred_data,
            thread_id,
            attempt,
        ),
    ensures
        attempt is Ok,
{
}

/// Without a callback no offer is sent: where the backend made the offer and
/// the attribute values are in order, the command fails with `InvalidState`.
pub proof fn lemma_no_offer_without_callback<
    B: AnoncredsBackend,
    F: Fn(&A2AMessage) -> VcxResult<()>,
>(
    machine: IssuerSMView,
    backend: &B,
    info: OfferInfoView,
    comment: Option<Seq<char>>,
    b: VcxResult<String>,
    id: Seq<char>,
    outcome: Result<IssuerSMView, VcxError>,
)
    requires
        b matches Ok(cred_offer) && machine.offer_message(id, info, comment, cred_offer@) is Ok,
        machine.offer_handled(backend, info, comment, None::<&F>, b, id, outcome),
    ensures
        outcome matches Err(e) && e@.kind == VcxErrorKind::InvalidState,
{
}

/// The transitions keep the machine valid: an interaction that ends, ends
/// with success or with failure, and one that has ended stays as it is.
pub proof fn lemma_handling_keeps_validity<
    B: AnoncredsBackend,
    F: Fn(&A2AMessage) -> VcxResult<()>,
>(
    machine: IssuerSMView,
    event: CredentialIssuanceMessageView,
    backend: &B,
    send_message: Option<&F>,
    next: IssuerSMView,
)
    requires
        machine.valid(),
        machine.handled(event, backend, send_message, Ok(next)),
    ensures
        next.valid(),
{
}

/// In a terminal state the selection hands out nothing.
pub proof fn lemma_terminal_selects_nothing(
    machine: IssuerSMView,
    messages: Seq<(Seq<char>, A2AMessageView)>,
)
    requires
        machine.is_terminal(),
    ensures
        machine.picks_none(messages),
{
}

/// The issuer's issued credential can be revoked exactly where it was offered
/// with a revocation registry: a finished interaction holds revocation
/// details if and only if the request that it answered named a registry.
pub proof fn lemma_revocation_info_iff_registry(
    state: RequestReceivedStateView,
    cred_rev_id: Option<Seq<char>>,
    report: ProblemReportView,
)
    ensures
        issued(state, cred_rev_id).revocation_info_v1 is Some <==> state.rev_reg_id is Some,
        issue_failed(state, report).revocation_info_v1 is Some <==> state.rev_reg_id is Some,
{
}

/// On a finished interaction whose revocation details, if it holds any, name
/// the credential's index and the tails file, the credential is reported as
/// revocable if and only if a revocation gets as far as the backend.
pub proof fn lemma_revokable_iff_revocation_reaches_backend(machine: IssuerSMView)
    requires
        machine.state matches IssuerFullStateView::Finished(s) && (s.revocation_info_v1 matches
            Some(info) ==> info.cred_rev_id is Some && info.tails_file is Some),
    ensures
        machine.rev_reg_id() is Some <==> machine.revocation_call() is Ok,
{
}

} // verus!
