//! What holds of every holder, whatever the backend and the callback do.
use crate::backend::AnoncredsBackend;
use crate::error::{VcxError, VcxErrorKind, VcxResult};
use crate::holder::state_machine::{request_message, HolderSMView};
use crate::holder::states::{HolderFullStateView, HolderState};
use crate::messages::issuance::{CredentialOfferView, CredentialProposalDataView};
use crate::messages::a2a::{event_of, A2AMessage, A2AMessageView, CredentialIssuanceMessageView};
use vstd::prelude::*;

verus! {

/// The transition table of the holder: whether the event may take a holder
/// from the one state to the other.
pub open spec fn transition(
    from: HolderState,
    event: CredentialIssuanceMessageView,
    to: HolderState,
) -> bool {
    match (from, event) {
        (HolderState::Initial, CredentialIssuanceMessageView::CredentialProposalSend(_)) => to
            == HolderState::ProposalSent,
        (HolderState::Initial, CredentialIssuanceMessageView::CredentialOffer(_)) => to
            == HolderState::OfferReceived,
        (HolderState::ProposalSent, CredentialIssuanceMessageView::CredentialOffer(_)) => to
            == HolderState::OfferReceived,
        (HolderState::OfferReceived, CredentialIssuanceMessageView::CredentialProposalSend(_)) => to
            == HolderState::ProposalSent,
        (HolderState::OfferReceived, CredentialIssuanceMessageView::CredentialRequestSend(_)) => to
            == HolderState::RequestSent,
        (HolderState::OfferReceived, CredentialIssuanceMessageView::CredentialOfferReject(_)) => to
            == HolderState::Failed,
        (HolderState::RequestSent, CredentialIssuanceMessageView::Credential(_)) => to
            == HolderState::Finished,
        (HolderState::RequestSent, CredentialIssuanceMessageView::ProblemReport(_)) => to
            == HolderState::Failed,
        _ => false,
    }
}

/// There are no hidden transitions: an event that is handled with success
/// leaves the holder as it was, or takes it along a line of the transition
/// table. The caller's name for the interaction never changes.
pub proof fn lemma_only_declared_transitions<
    B: AnoncredsBackend,
    F: Fn(&A2AMessage) -> VcxResult<()>,
>(
    machine: HolderSMView,
    event: CredentialIssuanceMessageView,
    backend: &B,
    send_message: Option<&F>,
    next: HolderSMView,
)
    requires
        machine.handled(event, backend, send_message, Ok(next)),
    ensures
        next == machine || transition(machine.state_name(), event, next.state_name()),
        next.source_id == machine.source_id,
{
}

/// The thread of an interaction is set no later than when the holder leaves
/// the initial state, and never changes afterwards.
pub proof fn lemma_thread_never_changes<
    B: AnoncredsBackend,
    F: Fn(&A2AMessage) -> VcxResult<()>,
>(
    machine: HolderSMView,
    event: CredentialIssuanceMessageView,
    backend: &B,
    send_message: Option<&F>,
    next: HolderSMView,
)
    requires
        machine.handled(event, backend, send_message, Ok(next)),
        !(machine.state is Initial) || !(event is CredentialOffer),
    ensures
        next.thread_id == machine.thread_id,
{
}

/// An inbound message that names another thread than the interaction's is
/// refused with `ThreadIdMismatch` in every state but the initial one, where
/// the thread is still to be adopted.
pub proof fn lemma_other_thread_is_refused<
    B: AnoncredsBackend,
    F: Fn(&A2AMessage) -> VcxResult<()>,
>(
    machine: HolderSMView,
    event: CredentialIssuanceMessageView,
    backend: &B,
    send_message: Option<&F>,
    outcome: Result<HolderSMView, VcxError>,
)
    requires
        !(machine.state is Initial),
        event.thread_ref() matches Some(named) && named != machine.thread_id,
        machine.handled(event, backend, send_message, outcome),
    ensures
        outcome matches Err(e) && e@.kind == VcxErrorKind::ThreadIdMismatch,
{
}

/// A finished interaction is absorbing: no event changes it.
pub proof fn lemma_terminal_is_absorbing<
    B: AnoncredsBackend,
    F: Fn(&A2AMessage) -> VcxResult<()>,
>(
    machine: HolderSMView,
    event: CredentialIssuanceMessageView,
    backend: &B,
    send_message: Option<&F>,
    next: HolderSMView,
)
    requires
        machine.is_terminal(),
        machine.handled(event, backend, send_message, Ok(next)),
    ensures
        next == machine,
{
}

/// A message that the selection hands out passes the thread check when it is
/// handled.
pub proof fn lemma_selected_message_passes_thread_check(
    machine: HolderSMView,
    message: A2AMessageView,
)
    requires
        machine.accepts(message),
    ensures
        machine.accepts_thread(event_of(message)),
{
}

/// Every proposal and every request that a holder sends belongs to the thread
/// of the interaction.
pub proof fn lemma_sent_messages_name_the_thread(
    machine: HolderSMView,
    data: CredentialProposalDataView,
    id: Seq<char>,
    request: Seq<char>,
)
    ensures
        machine.proposal_message(data, id).thread_id() == machine.thread_id,
        request_message(id, request, machine.thread_id).thread == Some(machine.thread_id),
{
}

/// An offer that an issuer sends in a thread is one that a holder who waits
/// for an offer in that thread takes.
pub proof fn lemma_holder_takes_the_offer_of_its_thread(
    holder: HolderSMView,
    offer: CredentialOfferView,
)
    requires
        holder.state is ProposalSent || holder.state is Initial,
        offer.thread_id() == holder.thread_id,
    ensures
        holder.accepts(A2AMessageView::CredentialOffer(offer)),
        holder.accepts_thread(CredentialIssuanceMessageView::CredentialOffer(offer)),
        holder.received(CredentialIssuanceMessageView::CredentialOffer(offer)).state
            == HolderFullStateView::OfferReceived(offer),
        holder.received(CredentialIssuanceMessageView::CredentialOffer(offer)).thread_id
            == holder.thread_id,
{
}

/// The transitions keep the machine valid: an interaction that ends, ends
/// with success or with failure, and one that has ended stays as it is.
pub proof fn lemma_handling_keeps_validity<
    B: AnoncredsBackend,
    F: Fn(&A2AMessage) -> VcxResult<()>,
>(
    machine: HolderSMView,
    event: CredentialIssuanceMessageView,
    backend: &B,
    send_message: Option<&F>,
    next: HolderSMView,
)
    requires
        machine.valid(),
        machine.handled(event, backend, send_message, Ok(next)),
    ensures
        next.valid(),
{
}

/// A callback that never fails sends every proposal and every rejection: in
/// a state in which the holder acts on the command, the command succeeds.
pub proof fn lemma_sending_succeeds_under_a_callback_that_does<
    B: AnoncredsBackend,
    F: Fn(&A2AMessage) -> VcxResult<()>,
>(
    machine: HolderSMView,
    event: CredentialIssuanceMessageView,
    backend: &B,
    send_message: &F,
    outcome: Result<HolderSMView, VcxError>,
)
    requires
        event is CredentialProposalSend || event is CredentialOfferReject,
        machine.acts(event),
        forall|m: A2AMessage, r: VcxResult<()>| #[trigger]
            call_ensures(*send_message, (&m,), r) ==> r is Ok,
        machine.handled(event, backend, Some(send_message), outcome),
    ensures
        outcome is Ok,
        event is CredentialProposalSend ==> outcome->Ok_0.state_name() == HolderState::ProposalSent,
        event is CredentialOfferReject ==> outcome->Ok_0.state_name() == HolderState::Failed,
{
}

/// In a terminal state, and while an offer waits for the holder's decision,
/// the selection hands out nothing.
pub proof fn lemma_selects_nothing(
    machine: HolderSMView,
    messages: Seq<(Seq<char>, A2AMessageView)>,
)
    requires
        machine.is_terminal() || machine.state is OfferReceived,
    ensures
        machine.picks_none(messages),
{
}

} // verus!
