//! The holder as callers use it: one interaction that is changed in place
//! and stays as it was whenever an operation fails.
use crate::backend::AnoncredsBackend;
use crate::bag::MessageBag;
use crate::error::{outcome_of, VcxError, VcxErrorKind, VcxResult};
use crate::holder::state_machine::{HolderSM, HolderSMView};
use crate::holder::states::{HolderFullStateView, HolderState};
use crate::ids::{fresh_id, is_uuid_text};
use crate::messages::a2a::{event_of, A2AMessage, CredentialIssuanceMessage};
use crate::messages::issuance::{CredentialOffer, CredentialProposalData};
use crate::text::{opt_str_owned, opt_str_view};
use crate::transport::{send_failed, takes_all};
use vstd::prelude::*;

verus! {

/// One interaction in which this agent receives a credential.
#[derive(Debug)]
pub struct Holder {
    holder_sm: HolderSM,
}

impl View for Holder {
    type V = HolderSMView;

    closed spec fn view(&self) -> HolderSMView {
        self.holder_sm@
    }
}

impl Clone for Holder {
    fn clone(&self) -> (r: Self)
        ensures
            r@ == self@,
    {
        Holder { holder_sm: self.holder_sm.clone() }
    }
}

impl Default for Holder {
    /// An interaction in its initial state, without a name and without a
    /// thread.
    fn default() -> (r: Self)
        ensures
            r@ == (HolderSMView {
                source_id: Seq::empty(),
                thread_id: Seq::empty(),
                state: HolderFullStateView::Initial,
            }),
    {
        Holder { holder_sm: HolderSM::default() }
    }
}

/// What handling an event left behind: the machine after a success, the
/// failure after a failure.
pub open spec fn left_by(r: VcxResult<()>, after: HolderSMView) -> Result<HolderSMView, VcxError> {
    match r {
        Ok(_) => Ok(after),
        Err(e) => Err(e),
    }
}

impl Holder {
    /// A new interaction in its initial state, with a fresh thread id: a
    /// random UUID in its hyphenated form.
    pub fn create(source_id: &str) -> (r: VcxResult<Holder>)
        ensures
            r matches Ok(holder) && holder@.source_id == source_id@ && holder@.state
                == HolderFullStateView::Initial && is_uuid_text(holder@.thread_id),
    {
        Ok(Holder::create_with_thread_id(source_id, fresh_id()))
    }

    /// A new interaction in its initial state, in the given thread.
    pub fn create_with_thread_id(source_id: &str, thread_id: String) -> (r: Holder)
        ensures
            r@ == (HolderSMView {
                source_id: source_id@,
                thread_id: thread_id@,
                state: HolderFullStateView::Initial,
            }),
    {
        Holder {
            holder_sm: HolderSM::step(
                crate::holder::states::HolderFullState::default(),
                source_id.to_owned(),
                thread_id,
            ),
        }
    }

    /// A new interaction that starts from a received offer, whose thread is
    /// adopted.
    pub fn create_from_offer(source_id: &str, credential_offer: CredentialOffer) -> (r: VcxResult<
        Holder,
    >)
        ensures
            r matches Ok(holder) && holder@ == (HolderSMView {
                source_id: source_id@,
                thread_id: credential_offer@.thread_id(),
                state: HolderFullStateView::OfferReceived(credential_offer@),
            }),
    {
        Ok(Holder { holder_sm: HolderSM::from_offer(credential_offer, source_id.to_owned()) })
    }

    /// The interaction that the given state machine is.
    pub fn from_state_machine(holder_sm: HolderSM) -> (r: Holder)
        ensures
            r@ == holder_sm@,
    {
        Holder { holder_sm }
    }

    /// The state machine of the interaction.
    pub fn state_machine(&self) -> (r: &HolderSM)
        ensures
            r@ == self@,
    {
        &self.holder_sm
    }

    /// Handles one event. The outcome is one of handling the event in the
    /// state machine; after a failure the interaction is as it was.
    pub fn step<B: AnoncredsBackend, F: Fn(&A2AMessage) -> VcxResult<()>>(
        &mut self,
        message: CredentialIssuanceMessage,
        backend: &B,
        send_message: Option<&F>,
    ) -> (r: VcxResult<()>)
        requires
            takes_all(send_message),
        ensures
            old(self)@.handled(message@, backend, send_message, left_by(r, final(self)@)),
            r is Err ==> final(self)@ == old(self)@,
    {
        match self.holder_sm.clone().handle_message(message, backend, send_message) {
            Ok(next) => {
                self.holder_sm = next;
                Ok(())
            },
            Err(e) => Err(e),
        }
    }

    /// Sends a proposal, in the initial state or in answer to an offer; in
    /// any other state nothing happens. It fails only where the callback
    /// fails, and after a failure the interaction is as it was.
    pub fn send_proposal<F: Fn(&A2AMessage) -> VcxResult<()>>(
        &mut self,
        credential_proposal: CredentialProposalData,
        send_message: F,
    ) -> (r: VcxResult<()>)
        requires
            forall|m: &A2AMessage| call_requires(send_message, (m,)),
        ensures
            r is Err ==> final(self)@ == old(self)@,
            !old(self)@.can_propose() ==> r is Ok && final(self)@ == old(self)@,
            old(self)@.can_propose() && r is Ok ==> exists|id: Seq<char>| #[trigger]
                old(self)@.proposed_with(
                    credential_proposal@,
                    Some(&send_message),
                    final(self)@,
                    id,
                ),
            r matches Err(e) ==> send_failed(Some(&send_message), e),
    {
        match self.holder_sm.clone().propose(credential_proposal, Some(&send_message)) {
            Ok(next) => {
                let ghost after = next@;
                self.holder_sm = next;
                assert(self@ == after);
                Ok(())
            },
            Err(e) => Err(e),
        }
    }

    /// Requests the offered credential under the given pairwise DID; in any
    /// state but `OfferReceived` nothing happens. After a failure the
    /// interaction is as it was.
    pub fn send_request<B: AnoncredsBackend, F: Fn(&A2AMessage) -> VcxResult<()>>(
        &mut self,
        my_pw_did: String,
        backend: &B,
        send_message: F,
    ) -> (r: VcxResult<()>)
        requires
            forall|m: &A2AMessage| call_requires(send_message, (m,)),
        ensures
            r is Err ==> final(self)@ == old(self)@,
            !(old(self)@.state is OfferReceived) ==> r is Ok && final(self)@ == old(self)@,
            old(self)@.state is OfferReceived ==> old(self)@.requesting(
                backend,
                my_pw_did@,
                Some(&send_message),
                left_by(r, final(self)@),
            ),
    {
        match self.holder_sm.clone().request(my_pw_did, backend, Some(&send_message)) {
            Ok(next) => {
                self.holder_sm = next;
                Ok(())
            },
            Err(e) => Err(e),
        }
    }

    /// Declines the received offer, with an optional comment; in any state
    /// but `OfferReceived` nothing happens. It fails only where the callback
    /// fails, and after a failure the interaction is as it was.
    pub fn reject_offer<F: Fn(&A2AMessage) -> VcxResult<()>>(
        &mut self,
        comment: Option<&str>,
        send_message: F,
    ) -> (r: VcxResult<()>)
        requires
            forall|m: &A2AMessage| call_requires(send_message, (m,)),
        ensures
            r is Err ==> final(self)@ == old(self)@,
            !(old(self)@.state is OfferReceived) ==> r is Ok && final(self)@ == old(self)@,
            old(self)@.state is OfferReceived && r is Ok ==> exists|id: Seq<char>| #[trigger]
                old(self)@.declined_with(
                    opt_str_view(comment),
                    Some(&send_message),
                    final(self)@,
                    id,
                ),
            r matches Err(e) ==> send_failed(Some(&send_message), e),
    {
        let comment = opt_str_owned(comment);
        match self.holder_sm.clone().decline(comment, Some(&send_message)) {
            Ok(next) => {
                let ghost after = next@;
                self.holder_sm = next;
                assert(self@ == after);
                Ok(())
            },
            Err(e) => Err(e),
        }
    }

    /// Whether the interaction is over.
    pub fn is_terminal_state(&self) -> (r: bool)
        ensures
            r == self@.is_terminal(),
    {
        self.holder_sm.is_terminal_state()
    }

    /// The first of the pending messages that may be handled now, with its
    /// key, or nothing where none may. The interaction does not change.
    pub fn find_message_to_handle(&self, messages: MessageBag) -> (r: Option<(String, A2AMessage)>)
        ensures
            match r {
                Some((uid, message)) => exists|i: int|
                    #![trigger self@.picks(messages@, i)]
                    self@.picks(messages@, i) && uid@ == messages@[i].0 && message@
                        == messages@[i].1,
                None => self@.picks_none(messages@),
            },
    {
        assert(self@ == self.holder_sm@);
        self.holder_sm.find_message_to_handle(messages)
    }

    /// The state as callers see it.
    pub fn get_state(&self) -> (r: HolderState)
        ensures
            r == self@.state_name(),
    {
        self.holder_sm.get_state()
    }

    /// The caller's name for the interaction.
    pub fn get_source_id(&self) -> (r: String)
        ensures
            r@ == self@.source_id,
    {
        self.holder_sm.get_source_id()
    }

    /// The stored credential, as a message, with the id under which it is
    /// stored. Fails with `InvalidState` where no credential is stored.
    pub fn get_credential(&self) -> (r: VcxResult<(String, A2AMessage)>)
        ensures
            match r {
                Ok((id, message)) => self@.credential() == Some((id@, message@)),
                Err(e) => self@.credential() is None && e@.kind == VcxErrorKind::InvalidState,
            },
    {
        self.holder_sm.get_credential()
    }

    /// The attributes of the received credential or, before the request, of
    /// the received offer's preview, as a JSON object. Fails with
    /// `InvalidState` in a state that holds neither, and with `InvalidJson`
    /// where the credential cannot be read or the object cannot be written.
    pub fn get_attributes(&self) -> (r: VcxResult<String>)
        ensures
            outcome_of(r) == self@.attributes(),
    {
        self.holder_sm.get_attributes()
    }

    /// What is attached to the received credential or, before the request,
    /// to the received offer. Fails with `InvalidState` in a state that holds
    /// neither, and with `InvalidJson` where the attachment cannot be read.
    pub fn get_attachment(&self) -> (r: VcxResult<String>)
        ensures
            outcome_of(r) == self@.attachment(),
    {
        self.holder_sm.get_attachment()
    }

    /// The offer that waits for the holder's decision. Fails with
    /// `InvalidState` in any state but `OfferReceived`.
    pub fn get_offer(&self) -> (r: VcxResult<CredentialOffer>)
        ensures
            match r {
                Ok(offer) => self@.offer() == Some(offer@),
                Err(e) => self@.offer() is None && e@.kind == VcxErrorKind::InvalidState,
            },
    {
        self.holder_sm.get_offer()
    }

    /// Where the tails file of the credential's revocation registry is. Fails
    /// with `InvalidState` where the state holds no definition of a registry,
    /// and with `InvalidJson` where the definition does not say.
    pub fn get_tails_location(&self) -> (r: VcxResult<String>)
        ensures
            outcome_of(r) == self@.tails("tailsLocation"@),
    {
        self.holder_sm.get_tails_location()
    }

    /// The hash of the tails file of the credential's revocation registry.
    /// Fails as `get_tails_location` does.
    pub fn get_tails_hash(&self) -> (r: VcxResult<String>)
        ensures
            outcome_of(r) == self@.tails("tailsHash"@),
    {
        self.holder_sm.get_tails_hash()
    }

    /// The id of the credential's revocation registry. Fails with
    /// `InvalidState` where the state holds no definition of a registry, and
    /// with `InvalidJson` where the definition has no id.
    pub fn get_rev_reg_id(&self) -> (r: VcxResult<String>)
        ensures
            outcome_of(r) == self@.rev_reg_id(),
    {
        self.holder_sm.get_rev_reg_id()
    }

    /// The thread of the interaction.
    pub fn get_thread_id(&self) -> (r: VcxResult<String>)
        ensures
            r matches Ok(id) && id@ == self@.thread_id,
    {
        self.holder_sm.get_thread_id()
    }

    /// Whether the received credential can be revoked. Fails with
    /// `InvalidState` before the interaction is over.
    pub fn is_revokable(&self) -> (r: VcxResult<bool>)
        ensures
            match r {
                Ok(revokable) => self@.is_terminal() && revokable == (self@.rev_reg_def()
                    is Some),
                Err(e) => !self@.is_terminal() && e@.kind == VcxErrorKind::InvalidState,
            },
    {
        self.holder_sm.is_revokable()
    }

    /// Deletes the stored credential through the backend. Fails with
    /// `InvalidState` where none is stored, and then the backend is not
    /// asked; else the backend is asked to delete the credential under the
    /// stored id, and its answer is the result.
    pub fn delete_credential<B: AnoncredsBackend>(&self, backend: &B) -> (r: VcxResult<()>)
        ensures
            match self@.credential_id() {
                None => r matches Err(e) && e@.kind == VcxErrorKind::InvalidState,
                Some(id) => backend.delete_outcome(id, r),
            },
    {
        self.holder_sm.delete_credential(backend)
    }

    /// The number of the interaction's status: 0 in progress, 1 success, any
    /// other failure.
    pub fn get_credential_status(&self) -> (r: VcxResult<u32>)
        ensures
            r matches Ok(code) && code == self@.status_code(),
    {
        Ok(self.holder_sm.credential_status())
    }

    /// Takes one step with the pending messages of the connection: handles
    /// the first of them that may be handled now, if there is one and the
    /// interaction is not over. Hands out the state afterwards and the key of
    /// the message that was handled, which the caller is to mark as read.
    /// After a failure the interaction is as it was.
    pub fn update_state<B: AnoncredsBackend, F: Fn(&A2AMessage) -> VcxResult<()>>(
        &mut self,
        messages: MessageBag,
        backend: &B,
        send_message: Option<&F>,
    ) -> (r: VcxResult<(HolderState, Option<String>)>)
        requires
            takes_all(send_message),
        ensures
            r is Err ==> final(self)@ == old(self)@,
            r matches Ok((state, _)) ==> state == final(self)@.state_name(),
            old(self)@.is_terminal() || old(self)@.picks_none(messages@) ==> (r matches Ok(
                (_, uid),
            ) && uid is None && final(self)@ == old(self)@),
            !old(self)@.is_terminal() && !old(self)@.picks_none(messages@) ==> exists|i: int|
                #![trigger old(self)@.picks(messages@, i)]
                {
                    &&& old(self)@.picks(messages@, i)
                    &&& old(self)@.handled(
                        event_of(messages@[i].1),
                        backend,
                        send_message,
                        match r {
                            Ok(_) => Ok(final(self)@),
                            Err(e) => Err(e),
                        },
                    )
                    &&& r matches Ok((_, uid)) ==> uid.deep_view() == Some(messages@[i].0)
                },
    {
        if self.is_terminal_state() {
            return Ok((self.get_state(), None));
        }
        match self.find_message_to_handle(messages) {
            Some((uid, msg)) => {
                match self.step(CredentialIssuanceMessage::from_a2a(msg), backend, send_message) {
                    Ok(()) => Ok((self.get_state(), Some(uid))),
                    Err(e) => Err(e),
                }
            },
            None => Ok((self.get_state(), None)),
        }
    }
}

} // verus!
