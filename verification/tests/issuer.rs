use credential_issuance::backend::AnoncredsBackend;
use credential_issuance::bag::MessageBag;
use credential_issuance::error::{VcxError, VcxErrorKind, VcxResult};
use credential_issuance::issuer::state_machine::{IssuerFullState, IssuerSM};
use credential_issuance::issuer::states::{
    CredentialSentState, IssuerState, RequestReceivedState, RevocationInfoV1,
};
use credential_issuance::messages::a2a::{A2AMessage, CredentialIssuanceMessage};
use credential_issuance::messages::issuance::{
    Credential, CredentialOffer, CredentialProposal, CredentialProposalData, CredentialRequest,
    OfferInfo,
};
use credential_issuance::messages::notice::{Ack, ProblemReport, Status};
use credential_issuance::messages::preview::{CredentialPreviewData, MimeType};
use std::cell::RefCell;

struct MockBackend;

impl AnoncredsBackend for MockBackend {
    fn create_offer(&self, _cred_def_id: &str) -> VcxResult<String> {
        Ok(String::from(CRED_OFFER))
    }

    fn create_credential(
        &self,
        _offer: &str,
        _request: &str,
        _encoded_values: &str,
        rev_reg_id: &Option<String>,
        _tails_file: &Option<String>,
    ) -> VcxResult<(String, Option<String>)> {
        Ok((String::from(CREDENTIAL), rev_reg_id.as_ref().map(|_| String::from("cred_rev_id"))))
    }

    fn create_credential_request(
        &self,
        _cred_def_id: &str,
        _my_pw_did: &str,
        _offer: &str,
    ) -> VcxResult<(String, String, String)> {
        Ok((String::from(CRED_REQUEST), String::from(REQ_META), String::from(CRED_DEF)))
    }

    fn get_rev_reg_def_json(&self, _rev_reg_id: &str) -> VcxResult<String> {
        Ok(String::from(REV_REG_DEF))
    }

    fn store_credential(
        &self,
        _request_metadata: &str,
        _credential: &str,
        _cred_def: &str,
        _rev_reg_def: &Option<String>,
    ) -> VcxResult<String> {
        Ok(String::from("cred_id"))
    }

    fn delete_credential(&self, _credential_id: &str) -> VcxResult<()> {
        Ok(())
    }

    fn revoke_credential(&self, _t: &str, _r: &str, _c: &str) -> VcxResult<()> {
        Ok(())
    }

    fn revoke_credential_local(&self, _t: &str, _r: &str, _c: &str) -> VcxResult<()> {
        Ok(())
    }
}

struct FailingBackend;

impl AnoncredsBackend for FailingBackend {
    fn create_offer(&self, _cred_def_id: &str) -> VcxResult<String> {
        Err(VcxError::from_msg(VcxErrorKind::Backend, "no offer"))
    }

    fn create_credential(
        &self,
        _offer: &str,
        _request: &str,
        _encoded_values: &str,
        _rev_reg_id: &Option<String>,
        _tails_file: &Option<String>,
    ) -> VcxResult<(String, Option<String>)> {
        Err(VcxError::from_msg(VcxErrorKind::Backend, "no credential"))
    }

    fn create_credential_request(
        &self,
        _cred_def_id: &str,
        _my_pw_did: &str,
        _offer: &str,
    ) -> VcxResult<(String, String, String)> {
        Err(VcxError::from_msg(VcxErrorKind::Backend, "no request"))
    }

    fn get_rev_reg_def_json(&self, _rev_reg_id: &str) -> VcxResult<String> {
        Err(VcxError::from_msg(VcxErrorKind::Backend, "no registry"))
    }

    fn store_credential(
        &self,
        _request_metadata: &str,
        _credential: &str,
        _cred_def: &str,
        _rev_reg_def: &Option<String>,
    ) -> VcxResult<String> {
        Err(VcxError::from_msg(VcxErrorKind::Backend, "not stored"))
    }

    fn delete_credential(&self, _credential_id: &str) -> VcxResult<()> {
        Err(VcxError::from_msg(VcxErrorKind::Backend, "not deleted"))
    }

    fn revoke_credential(&self, _t: &str, _r: &str, _c: &str) -> VcxResult<()> {
        Err(VcxError::from_msg(VcxErrorKind::Backend, "not revoked"))
    }

    fn revoke_credential_local(&self, _t: &str, _r: &str, _c: &str) -> VcxResult<()> {
        Err(VcxError::from_msg(VcxErrorKind::Backend, "not revoked"))
    }
}

const THREAD: &str = "testid";
const CRED_OFFER: &str = "{\"schema_id\":\"2hoqvcwupRTUNkXn6ArYzs:2:test-licence:4.4.4\",\"cred_def_id\":\"2hoqvcwupRTUNkXn6ArYzs:3:CL:1766\",\"nonce\":\"657356313756695593676\"}";
const CRED_REQUEST: &str = "{\"prover_did\":\"2hoqvcwupRTUNkXn6ArYzs\",\"cred_def_id\":\"2hoqvcwupRTUNkXn6ArYzs:3:CL:1766\"}";
const REQ_META: &str = "{\"master_secret_name\":\"main\"}";
const CRED_DEF: &str = "{\"id\":\"2hoqvcwupRTUNkXn6ArYzs:3:CL:1766\"}";
const CREDENTIAL: &str = "{\"schema_id\":\"2hoqvcwupRTUNkXn6ArYzs:2:test-licence:4.4.4\",\"cred_def_id\":\"2hoqvcwupRTUNkXn6ArYzs:3:CL:1766\",\"rev_reg_id\":\"TEST_REV_REG_ID\",\"values\":{\"attribute\":{\"raw\":\"value\",\"encoded\":\"92841189662233984814298766111008590915399869399374994427192681486478367393305\"}}}";
const REV_REG_DEF: &str = "{\"id\":\"TEST_REV_REG_ID\",\"value\":{\"tailsHash\":\"hash\",\"tailsLocation\":\"/tmp/tails\"}}";

fn source_id() -> String {
    String::from("test source id")
}

fn _rev_reg_id() -> String {
    String::from("TEST_REV_REG_ID")
}

fn _tails_file() -> String {
    String::from("TEST_TAILS_FILE")
}

fn _send_message() -> Option<&'static impl Fn(&A2AMessage) -> VcxResult<()>> {
    Some(&|_: &A2AMessage| VcxResult::Ok(()))
}

fn _preview() -> CredentialPreviewData {
    CredentialPreviewData::new().add_value("attribute", "value", MimeType::Plain)
}

fn _offer_info() -> OfferInfo {
    OfferInfo {
        credential_json: String::from("{\"attribute\":\"value\"}"),
        cred_def_id: String::from("2hoqvcwupRTUNkXn6ArYzs:3:CL:1766"),
        rev_reg_id: Some(_rev_reg_id()),
        tails_file: Some(_tails_file()),
    }
}

fn _credential_proposal_data() -> CredentialProposalData {
    CredentialProposalData {
        schema_id: String::from("2hoqvcwupRTUNkXn6ArYzs:2:test-licence:4.4.4"),
        cred_def_id: String::from("2hoqvcwupRTUNkXn6ArYzs:3:CL:1766"),
        comment: Some(String::from("comment")),
        credential_proposal: _preview(),
    }
}

fn _credential_proposal() -> CredentialProposal {
    CredentialProposal::from_data(_credential_proposal_data(), String::from(THREAD))
        .set_thread_id(THREAD)
}

fn _credential_offer() -> CredentialOffer {
    CredentialOffer::create_with_id(String::from(THREAD))
        .set_comment(Some(String::from("comment")))
        .add_credential_preview_data("attribute", "value", MimeType::Plain)
        .set_offers_attach(CRED_OFFER)
}

fn _credential_request() -> CredentialRequest {
    CredentialRequest::create_with_id(String::from(THREAD))
        .set_requests_attach(CRED_REQUEST)
        .set_thread_id(THREAD)
}

fn _credential_request_1() -> CredentialRequest {
    CredentialRequest::create_with_id(String::from(THREAD))
        .set_requests_attach(CRED_REQUEST)
        .set_thread_id("testid_1")
}

fn _credential() -> Credential {
    Credential::create_with_id(String::from(THREAD))
        .set_credential(CREDENTIAL)
        .set_thread_id(THREAD)
}

fn _ack() -> Ack {
    Ack::create_with_id(String::from("ack")).set_thread_id(THREAD)
}

fn _problem_report() -> ProblemReport {
    ProblemReport::create_with_id(String::from("report"))
        .set_comment(Some(String::from("comment")))
        .set_thread_id(THREAD)
}

fn bag(entries: Vec<(&str, A2AMessage)>) -> MessageBag {
    let mut messages = MessageBag::new();
    for (key, message) in entries {
        messages.insert(key.to_string(), message);
    }
    messages
}

fn _issuer_sm() -> IssuerSM {
    IssuerSM::step(source_id(), String::from(THREAD), IssuerFullState::default())
}

fn _issuer_sm_from_proposal() -> IssuerSM {
    IssuerSM::from_proposal(&source_id(), &_credential_proposal())
}

fn to_proposal_received_state(_machine: IssuerSM) -> IssuerSM {
    IssuerSM::from_proposal(&source_id(), &_credential_proposal())
}

fn to_offer_sent_state(machine: IssuerSM) -> IssuerSM {
    machine
        .handle_message(
            CredentialIssuanceMessage::CredentialOfferSend(_offer_info(), None),
            &MockBackend,
            _send_message(),
        )
        .unwrap()
}

fn to_request_received_state(machine: IssuerSM) -> IssuerSM {
    to_offer_sent_state(machine)
        .handle_message(
            CredentialIssuanceMessage::CredentialRequest(_credential_request()),
            &MockBackend,
            _send_message(),
        )
        .unwrap()
}

fn to_finished_state(machine: IssuerSM) -> IssuerSM {
    to_request_received_state(machine)
        .handle_message(CredentialIssuanceMessage::CredentialSend(), &MockBackend, _send_message())
        .unwrap()
}

fn failed_code() -> u32 {
    Status::Failed(ProblemReport::create()).code()
}

fn all_kinds() -> MessageBag {
    bag(vec![
        ("key_1", A2AMessage::CredentialOffer(_credential_offer())),
        ("key_2", A2AMessage::CredentialRequest(_credential_request())),
        ("key_3", A2AMessage::CredentialProposal(_credential_proposal())),
        ("key_4", A2AMessage::Credential(_credential())),
        ("key_5", A2AMessage::CredentialAck(_ack())),
        ("key_6", A2AMessage::CommonProblemReport(_problem_report())),
    ])
}

#[test]
fn test_issuer_new() {
    let issuer_sm = IssuerSM::new(&source_id());

    assert!(matches!(issuer_sm.full_state(), IssuerFullState::Initial(_)));
    assert_eq!(source_id(), issuer_sm.get_source_id());
}

#[test]
fn test_issuer_new_has_a_fresh_thread_each_time() {
    let first = IssuerSM::new(&source_id()).thread_id().unwrap();
    let second = IssuerSM::new(&source_id()).thread_id().unwrap();
    assert_eq!(36, first.len());
    assert_ne!(first, second);
}

#[test]
fn test_issuer_from_proposal() {
    let issuer_sm = _issuer_sm_from_proposal();

    assert!(matches!(issuer_sm.full_state(), IssuerFullState::ProposalReceived(_)));
    assert_eq!(source_id(), issuer_sm.get_source_id());
    assert_eq!(THREAD, issuer_sm.thread_id().unwrap());
}

#[test]
fn test_issuer_handle_credential_proposal_message_from_initial_state() {
    let mut issuer_sm = _issuer_sm();
    issuer_sm = issuer_sm
        .handle_message(
            CredentialIssuanceMessage::CredentialProposal(_credential_proposal()),
            &MockBackend,
            None::<&fn(&A2AMessage) -> VcxResult<()>>,
        )
        .unwrap();

    assert!(matches!(issuer_sm.full_state(), IssuerFullState::ProposalReceived(_)));
}

#[test]
fn test_issuer_adopts_the_thread_of_the_first_proposal() {
    let issuer_sm = IssuerSM::new(&source_id());
    let proposal =
        CredentialProposal::from_data(_credential_proposal_data(), String::from("another"));
    let issuer_sm = issuer_sm
        .handle_message(
            CredentialIssuanceMessage::CredentialProposal(proposal),
            &MockBackend,
            _send_message(),
        )
        .unwrap();
    assert_eq!(IssuerState::ProposalReceived, issuer_sm.get_state());
    assert_eq!("another", issuer_sm.thread_id().unwrap());
    assert_eq!("another", issuer_sm.get_proposal().unwrap().id);
}

#[test]
fn test_issuer_handle_credential_offer_message_from_initial_state() {
    let mut issuer_sm = _issuer_sm();
    issuer_sm = issuer_sm
        .handle_message(
            CredentialIssuanceMessage::CredentialOfferSend(_offer_info(), None),
            &MockBackend,
            _send_message(),
        )
        .unwrap();

    assert!(matches!(issuer_sm.full_state(), IssuerFullState::OfferSent(_)));
}

#[test]
fn test_issuer_handle_other_messages_from_initial_state() {
    let mut issuer_sm = _issuer_sm();

    issuer_sm = issuer_sm
        .handle_message(
            CredentialIssuanceMessage::Credential(_credential()),
            &MockBackend,
            _send_message(),
        )
        .unwrap();
    assert!(matches!(issuer_sm.full_state(), IssuerFullState::Initial(_)));

    issuer_sm = issuer_sm
        .handle_message(
            CredentialIssuanceMessage::CredentialRequest(_credential_request()),
            &MockBackend,
            _send_message(),
        )
        .unwrap();
    assert!(matches!(issuer_sm.full_state(), IssuerFullState::Initial(_)));
}

#[test]
fn test_issuer_handle_credential_offer_send_message_from_proposal_received() {
    let mut issuer_sm = _issuer_sm_from_proposal();
    issuer_sm = issuer_sm
        .handle_message(
            CredentialIssuanceMessage::CredentialOfferSend(_offer_info(), None),
            &MockBackend,
            _send_message(),
        )
        .unwrap();

    assert!(matches!(issuer_sm.full_state(), IssuerFullState::OfferSent(_)));
}

#[test]
fn test_issuer_handle_other_messages_from_proposal_received_state() {
    let mut issuer_sm = _issuer_sm_from_proposal();

    issuer_sm = issuer_sm
        .handle_message(
            CredentialIssuanceMessage::Credential(_credential()),
            &MockBackend,
            _send_message(),
        )
        .unwrap();
    assert!(matches!(issuer_sm.full_state(), IssuerFullState::ProposalReceived(_)));

    issuer_sm = issuer_sm
        .handle_message(
            CredentialIssuanceMessage::CredentialRequest(_credential_request()),
            &MockBackend,
            _send_message(),
        )
        .unwrap();
    assert!(matches!(issuer_sm.full_state(), IssuerFullState::ProposalReceived(_)));
}

#[test]
fn test_issuer_handle_credential_request_message_from_offer_sent_state() {
    let mut issuer_sm = _issuer_sm();
    issuer_sm = issuer_sm
        .handle_message(
            CredentialIssuanceMessage::CredentialOfferSend(_offer_info(), None),
            &MockBackend,
            _send_message(),
        )
        .unwrap();
    issuer_sm = issuer_sm
        .handle_message(
            CredentialIssuanceMessage::CredentialRequest(_credential_request()),
            &MockBackend,
            _send_message(),
        )
        .unwrap();

    assert!(matches!(issuer_sm.full_state(), IssuerFullState::RequestReceived(_)));
}

#[test]
fn test_issuer_handle_credential_proposal_message_from_offer_sent_state() {
    let mut issuer_sm = _issuer_sm();
    issuer_sm = issuer_sm
        .handle_message(
            CredentialIssuanceMessage::CredentialOfferSend(_offer_info(), None),
            &MockBackend,
            _send_message(),
        )
        .unwrap();
    issuer_sm = issuer_sm
        .handle_message(
            CredentialIssuanceMessage::CredentialProposal(_credential_proposal()),
            &MockBackend,
            _send_message(),
        )
        .unwrap();

    assert!(matches!(issuer_sm.full_state(), IssuerFullState::ProposalReceived(_)));
}

#[test]
fn test_issuer_handle_problem_report_message_from_offer_sent_state() {
    let mut issuer_sm = _issuer_sm();
    issuer_sm = issuer_sm
        .handle_message(
            CredentialIssuanceMessage::CredentialOfferSend(_offer_info(), None),
            &MockBackend,
            _send_message(),
        )
        .unwrap();
    issuer_sm = issuer_sm
        .handle_message(
            CredentialIssuanceMessage::ProblemReport(_problem_report()),
            &MockBackend,
            _send_message(),
        )
        .unwrap();

    assert!(matches!(issuer_sm.full_state(), IssuerFullState::Finished(_)));
    assert_eq!(failed_code(), issuer_sm.credential_status());
}

#[test]
fn test_issuer_handle_other_messages_from_offer_sent_state() {
    let mut issuer_sm = _issuer_sm();
    issuer_sm = issuer_sm
        .handle_message(
            CredentialIssuanceMessage::CredentialOfferSend(_offer_info(), None),
            &MockBackend,
            _send_message(),
        )
        .unwrap();
    issuer_sm = issuer_sm
        .handle_message(
            CredentialIssuanceMessage::Credential(_credential()),
            &MockBackend,
            _send_message(),
        )
        .unwrap();

    assert!(matches!(issuer_sm.full_state(), IssuerFullState::OfferSent(_)));
}

#[test]
fn test_issuer_handle_credential_send_message_from_request_received_state() {
    let mut issuer_sm = _issuer_sm();
    issuer_sm = issuer_sm
        .handle_message(
            CredentialIssuanceMessage::CredentialOfferSend(_offer_info(), None),
            &MockBackend,
            _send_message(),
        )
        .unwrap();
    issuer_sm = issuer_sm
        .handle_message(
            CredentialIssuanceMessage::CredentialRequest(_credential_request()),
            &MockBackend,
            _send_message(),
        )
        .unwrap();
    issuer_sm = issuer_sm
        .handle_message(CredentialIssuanceMessage::CredentialSend(), &MockBackend, _send_message())
        .unwrap();

    assert!(matches!(issuer_sm.full_state(), IssuerFullState::Finished(_)));
    assert_eq!(Status::Success.code(), issuer_sm.credential_status());
}

#[test]
fn test_issuer_handle_credential_send_message_from_request_received_state_with_invalid_request() {
    let mut issuer_sm = _issuer_sm();
    issuer_sm = issuer_sm
        .handle_message(
            CredentialIssuanceMessage::CredentialOfferSend(_offer_info(), None),
            &MockBackend,
            _send_message(),
        )
        .unwrap();
    issuer_sm = issuer_sm
        .handle_message(
            CredentialIssuanceMessage::CredentialRequest(CredentialRequest::create()),
            &MockBackend,
            _send_message(),
        )
        .unwrap();
    issuer_sm = issuer_sm
        .handle_message(CredentialIssuanceMessage::CredentialSend(), &MockBackend, _send_message())
        .unwrap();

    assert!(matches!(issuer_sm.full_state(), IssuerFullState::Finished(_)));
    assert_eq!(failed_code(), issuer_sm.credential_status());
}

#[test]
fn test_issuer_handle_other_messages_from_request_received_state() {
    let mut issuer_sm = _issuer_sm();
    issuer_sm = issuer_sm
        .handle_message(
            CredentialIssuanceMessage::CredentialOfferSend(_offer_info(), None),
            &MockBackend,
            _send_message(),
        )
        .unwrap();
    issuer_sm = issuer_sm
        .handle_message(
            CredentialIssuanceMessage::CredentialRequest(_credential_request()),
            &MockBackend,
            _send_message(),
        )
        .unwrap();
    issuer_sm = issuer_sm
        .handle_message(CredentialIssuanceMessage::CredentialSend(), &MockBackend, _send_message())
        .unwrap();

    issuer_sm = issuer_sm
        .handle_message(CredentialIssuanceMessage::CredentialSend(), &MockBackend, _send_message())
        .unwrap();
    assert!(matches!(issuer_sm.full_state(), IssuerFullState::Finished(_)));

    issuer_sm = issuer_sm
        .handle_message(
            CredentialIssuanceMessage::CredentialAck(_ack()),
            &MockBackend,
            _send_message(),
        )
        .unwrap();
    assert!(matches!(issuer_sm.full_state(), IssuerFullState::Finished(_)));
}

#[test]
fn test_issuer_request_received_state_ignores_inbound_messages() {
    let issuer_sm = to_request_received_state(_issuer_sm());
    let issuer_sm = issuer_sm
        .handle_message(
            CredentialIssuanceMessage::CredentialAck(_ack()),
            &MockBackend,
            _send_message(),
        )
        .unwrap();
    assert_eq!(IssuerState::RequestReceived, issuer_sm.get_state());
    let issuer_sm = issuer_sm
        .handle_message(
            CredentialIssuanceMessage::ProblemReport(_problem_report()),
            &MockBackend,
            _send_message(),
        )
        .unwrap();
    assert_eq!(IssuerState::RequestReceived, issuer_sm.get_state());
}

#[test]
fn test_issuer_credential_send_fails_with_incorrect_thread_id() {
    let mut issuer_sm = _issuer_sm();
    issuer_sm = issuer_sm
        .handle_message(
            CredentialIssuanceMessage::CredentialOfferSend(_offer_info(), None),
            &MockBackend,
            _send_message(),
        )
        .unwrap();
    // A request of another thread does not get past the thread check.
    let refused = issuer_sm.clone().handle_message(
        CredentialIssuanceMessage::CredentialRequest(_credential_request_1()),
        &MockBackend,
        _send_message(),
    );
    assert_eq!(VcxErrorKind::ThreadIdMismatch, refused.err().unwrap().kind());
    assert_eq!(IssuerState::OfferSent, issuer_sm.get_state());
    // A machine that holds such a request all the same cannot issue for it.
    let offer_sent = match issuer_sm.full_state() {
        IssuerFullState::OfferSent(state) => state.clone(),
        _ => unreachable!(),
    };
    issuer_sm = IssuerSM::step(
        source_id(),
        String::from(THREAD),
        IssuerFullState::RequestReceived(RequestReceivedState::new(
            offer_sent,
            _credential_request_1(),
        )),
    );
    issuer_sm = issuer_sm
        .handle_message(CredentialIssuanceMessage::CredentialSend(), &MockBackend, _send_message())
        .unwrap();
    assert!(matches!(issuer_sm.full_state(), IssuerFullState::Finished(_)));
    assert_eq!(failed_code(), issuer_sm.credential_status());
}

#[test]
fn test_issuer_handle_messages_from_finished_state() {
    let mut issuer_sm = _issuer_sm();
    issuer_sm = issuer_sm
        .handle_message(
            CredentialIssuanceMessage::CredentialOfferSend(_offer_info(), None),
            &MockBackend,
            _send_message(),
        )
        .unwrap();
    issuer_sm = issuer_sm
        .handle_message(
            CredentialIssuanceMessage::CredentialRequest(_credential_request()),
            &MockBackend,
            _send_message(),
        )
        .unwrap();
    issuer_sm = issuer_sm
        .handle_message(CredentialIssuanceMessage::CredentialSend(), &MockBackend, _send_message())
        .unwrap();

    issuer_sm = issuer_sm
        .handle_message(
            CredentialIssuanceMessage::CredentialOfferSend(_offer_info(), None),
            &MockBackend,
            _send_message(),
        )
        .unwrap();
    assert!(matches!(issuer_sm.full_state(), IssuerFullState::Finished(_)));

    issuer_sm = issuer_sm
        .handle_message(
            CredentialIssuanceMessage::CredentialRequest(_credential_request()),
            &MockBackend,
            _send_message(),
        )
        .unwrap();
    assert!(matches!(issuer_sm.full_state(), IssuerFullState::Finished(_)));

    issuer_sm = issuer_sm
        .handle_message(
            CredentialIssuanceMessage::Credential(_credential()),
            &MockBackend,
            _send_message(),
        )
        .unwrap();
    assert!(matches!(issuer_sm.full_state(), IssuerFullState::Finished(_)));
    assert_eq!(Status::Success.code(), issuer_sm.credential_status());
}

#[test]
fn test_issuer_find_message_to_handle_from_initial_state() {
    let issuer = _issuer_sm();

    let messages = bag(vec![
        ("key_1", A2AMessage::CredentialProposal(_credential_proposal())),
        ("key_2", A2AMessage::CredentialOffer(_credential_offer())),
        ("key_3", A2AMessage::CredentialRequest(_credential_request())),
        ("key_4", A2AMessage::Credential(_credential())),
        ("key_5", A2AMessage::CredentialAck(_ack())),
        ("key_6", A2AMessage::CommonProblemReport(_problem_report())),
    ]);
    let (uid, message) = issuer.find_message_to_handle(messages).unwrap();
    assert_eq!("key_1", uid);
    assert!(matches!(message, A2AMessage::CredentialProposal(_)));
}

#[test]
fn test_issuer_find_message_to_handle_from_offer_sent_state() {
    let issuer = to_offer_sent_state(_issuer_sm());

    // CredentialRequest
    {
        let messages = bag(vec![
            ("key_1", A2AMessage::CredentialOffer(_credential_offer())),
            ("key_2", A2AMessage::Credential(_credential())),
            ("key_3", A2AMessage::CredentialRequest(_credential_request())),
        ]);

        let (uid, message) = issuer.find_message_to_handle(messages).unwrap();
        assert_eq!("key_3", uid);
        assert!(matches!(message, A2AMessage::CredentialRequest(_)));
    }

    // CredentialProposal
    {
        let messages = bag(vec![
            ("key_1", A2AMessage::CredentialOffer(_credential_offer())),
            ("key_2", A2AMessage::CredentialAck(_ack())),
            ("key_3", A2AMessage::Credential(_credential())),
            ("key_4", A2AMessage::CredentialProposal(_credential_proposal())),
        ]);

        let (uid, message) = issuer.find_message_to_handle(messages).unwrap();
        assert_eq!("key_4", uid);
        assert!(matches!(message, A2AMessage::CredentialProposal(_)));
    }

    // Problem Report
    {
        let messages = bag(vec![
            ("key_1", A2AMessage::CredentialOffer(_credential_offer())),
            ("key_2", A2AMessage::CredentialAck(_ack())),
            ("key_3", A2AMessage::CommonProblemReport(_problem_report())),
        ]);

        let (uid, message) = issuer.find_message_to_handle(messages).unwrap();
        assert_eq!("key_3", uid);
        assert!(matches!(message, A2AMessage::CommonProblemReport(_)));
    }

    // No messages for different Thread ID
    {
        let messages = bag(vec![
            ("key_1", A2AMessage::CredentialOffer(_credential_offer().set_thread_id(""))),
            ("key_2", A2AMessage::CredentialRequest(_credential_request().set_thread_id(""))),
            ("key_3", A2AMessage::CredentialProposal(_credential_proposal().set_thread_id(""))),
            ("key_4", A2AMessage::Credential(_credential().set_thread_id(""))),
            ("key_5", A2AMessage::CredentialAck(_ack().set_thread_id(""))),
            ("key_6", A2AMessage::CommonProblemReport(_problem_report().set_thread_id(""))),
        ]);

        assert!(issuer.find_message_to_handle(messages).is_none());
    }

    // No messages
    {
        let messages = bag(vec![
            ("key_1", A2AMessage::CredentialOffer(_credential_offer())),
            ("key_2", A2AMessage::CredentialAck(_ack())),
        ]);

        assert!(issuer.find_message_to_handle(messages).is_none());
    }
}

#[test]
fn test_issuer_find_message_to_handle_from_request_state() {
    let issuer = to_finished_state(_issuer_sm());

    // No messages
    {
        assert!(issuer.find_message_to_handle(all_kinds()).is_none());
    }
}

#[test]
fn test_issuer_find_message_to_handle_from_credential_sent_state() {
    let issuer = to_finished_state(_issuer_sm());

    // No messages
    {
        assert!(issuer.find_message_to_handle(all_kinds()).is_none());
    }
}

#[test]
fn test_issuer_find_message_to_handle_while_waiting_for_the_acknowledgement() {
    let waiting = |state: IssuerFullState| IssuerSM::step(source_id(), String::from(THREAD), state);
    let sent = waiting(IssuerFullState::CredentialSent(CredentialSentState {
        revocation_info_v1: None,
    }));
    let (uid, message) = sent.find_message_to_handle(all_kinds()).unwrap();
    assert_eq!("key_5", uid);
    assert!(matches!(message, A2AMessage::CredentialAck(_)));

    // An acknowledgement of the general kind is handed out as one of this protocol.
    let messages = bag(vec![
        ("key_1", A2AMessage::Ack(_ack().set_thread_id("other"))),
        ("key_2", A2AMessage::Ack(_ack())),
    ]);
    let (uid, message) = sent.find_message_to_handle(messages).unwrap();
    assert_eq!("key_2", uid);
    assert!(matches!(message, A2AMessage::CredentialAck(_)));

    let requested = to_request_received_state(_issuer_sm());
    let messages = bag(vec![
        ("key_1", A2AMessage::CredentialRequest(_credential_request())),
        ("key_2", A2AMessage::CommonProblemReport(_problem_report())),
    ]);
    let (uid, message) = requested.find_message_to_handle(messages).unwrap();
    assert_eq!("key_2", uid);
    assert!(matches!(message, A2AMessage::CommonProblemReport(_)));
}

#[test]
fn test_issuer_closes_on_acknowledgement_and_on_problem_report() {
    let sent = || {
        IssuerSM::step(
            source_id(),
            String::from(THREAD),
            IssuerFullState::CredentialSent(CredentialSentState { revocation_info_v1: None }),
        )
    };
    assert_eq!(IssuerState::CredentialSent, sent().get_state());
    assert_eq!(0, sent().credential_status());
    let acknowledged = sent()
        .handle_message(
            CredentialIssuanceMessage::CredentialAck(_ack()),
            &MockBackend,
            _send_message(),
        )
        .unwrap();
    assert_eq!(IssuerState::Finished, acknowledged.get_state());
    assert_eq!(1, acknowledged.credential_status());
    let reported = sent()
        .handle_message(
            CredentialIssuanceMessage::ProblemReport(_problem_report()),
            &MockBackend,
            _send_message(),
        )
        .unwrap();
    assert_eq!(IssuerState::Failed, reported.get_state());
    assert_eq!(2, reported.credential_status());
    let unchanged = sent()
        .handle_message(
            CredentialIssuanceMessage::CredentialRequest(_credential_request()),
            &MockBackend,
            _send_message(),
        )
        .unwrap();
    assert_eq!(IssuerState::CredentialSent, unchanged.get_state());
}

#[test]
fn test_get_state() {
    assert_eq!(IssuerState::Initial, _issuer_sm().get_state());
    assert_eq!(
        IssuerState::ProposalReceived,
        to_proposal_received_state(_issuer_sm()).get_state()
    );
    assert_eq!(IssuerState::OfferSent, to_offer_sent_state(_issuer_sm()).get_state());
    assert_eq!(IssuerState::RequestReceived, to_request_received_state(_issuer_sm()).get_state());
    assert_eq!(IssuerState::Finished, to_finished_state(_issuer_sm()).get_state());
}

#[test]
fn test_get_rev_reg_id() {
    assert_eq!(VcxErrorKind::InvalidState, _issuer_sm().get_rev_reg_id().unwrap_err().kind());
    assert_eq!(
        VcxErrorKind::InvalidState,
        to_proposal_received_state(_issuer_sm()).get_rev_reg_id().unwrap_err().kind()
    );
    assert_eq!(_rev_reg_id(), to_offer_sent_state(_issuer_sm()).get_rev_reg_id().unwrap());
    assert_eq!(_rev_reg_id(), to_request_received_state(_issuer_sm()).get_rev_reg_id().unwrap());
    assert_eq!(_rev_reg_id(), to_finished_state(_issuer_sm()).get_rev_reg_id().unwrap());
}

#[test]
fn test_is_revokable() {
    assert_eq!(VcxErrorKind::InvalidState, _issuer_sm().is_revokable().unwrap_err().kind());
    // A proposal alone names no revocation registry.
    assert_eq!(false, to_proposal_received_state(_issuer_sm()).is_revokable().unwrap());
    assert_eq!(true, to_offer_sent_state(_issuer_sm()).is_revokable().unwrap());
    assert_eq!(true, to_request_received_state(_issuer_sm()).is_revokable().unwrap());
    assert_eq!(true, to_finished_state(_issuer_sm()).is_revokable().unwrap());
}

#[test]
fn test_is_revokable_without_revocation_registry() {
    let info = OfferInfo { rev_reg_id: None, tails_file: None, .._offer_info() };
    let mut issuer_sm = _issuer_sm()
        .handle_message(
            CredentialIssuanceMessage::CredentialOfferSend(info, None),
            &MockBackend,
            _send_message(),
        )
        .unwrap();
    assert_eq!(false, issuer_sm.is_revokable().unwrap());
    issuer_sm = issuer_sm
        .handle_message(
            CredentialIssuanceMessage::CredentialRequest(_credential_request()),
            &MockBackend,
            _send_message(),
        )
        .unwrap();
    issuer_sm = issuer_sm
        .handle_message(CredentialIssuanceMessage::CredentialSend(), &MockBackend, _send_message())
        .unwrap();
    assert_eq!(IssuerState::Finished, issuer_sm.get_state());
    assert_eq!(false, issuer_sm.is_revokable().unwrap());
    assert_eq!(VcxErrorKind::InvalidState, issuer_sm.get_rev_reg_id().unwrap_err().kind());
    assert_eq!(
        VcxErrorKind::InvalidRevocationDetails,
        issuer_sm.revoke(&MockBackend, true).unwrap_err().kind()
    );
    assert_eq!(
        VcxErrorKind::InvalidRevocationDetails,
        issuer_sm.revocation_details().unwrap_err().kind()
    );
    match issuer_sm.full_state() {
        IssuerFullState::Finished(state) => assert!(state.revocation_info_v1.is_none()),
        _ => unreachable!(),
    }
}

#[test]
fn test_get_proposal() {
    let proposal = _issuer_sm_from_proposal().get_proposal().unwrap();
    assert_eq!(THREAD, proposal.id);
    assert_eq!("2hoqvcwupRTUNkXn6ArYzs:3:CL:1766", proposal.cred_def_id);
    assert_eq!(
        VcxErrorKind::InvalidState,
        _issuer_sm().get_proposal().err().unwrap().kind()
    );
    assert_eq!(
        VcxErrorKind::InvalidState,
        to_offer_sent_state(_issuer_sm()).get_proposal().err().unwrap().kind()
    );
}

#[test]
fn test_is_terminal_state() {
    assert!(!_issuer_sm().is_terminal_state());
    assert!(!to_offer_sent_state(_issuer_sm()).is_terminal_state());
    assert!(!to_request_received_state(_issuer_sm()).is_terminal_state());
    assert!(to_finished_state(_issuer_sm()).is_terminal_state());
}

// The happy path of an issuer: one offer and one credential are sent.
#[test]
fn issuer_happy_path() {
    let sent: RefCell<Vec<A2AMessage>> = RefCell::new(Vec::new());
    let send = |message: &A2AMessage| -> VcxResult<()> {
        sent.borrow_mut().push(message.clone());
        Ok(())
    };
    let info = OfferInfo {
        credential_json: String::from("{\"name\":\"Alice\"}"),
        cred_def_id: String::from("c1"),
        rev_reg_id: None,
        tails_file: None,
    };
    let issuer = IssuerSM::new("issuer");
    let thread = issuer.thread_id().unwrap();
    let issuer = issuer
        .handle_message(
            CredentialIssuanceMessage::CredentialOfferSend(info, Some(String::from("hello"))),
            &MockBackend,
            Some(&send),
        )
        .unwrap();
    assert_eq!(IssuerState::OfferSent, issuer.get_state());
    assert_eq!(thread, issuer.thread_id().unwrap());
    assert_eq!(1, sent.borrow().len());
    let seen_1: Vec<A2AMessage> = sent.borrow().iter().cloned().collect();
    match &seen_1[0] {
        A2AMessage::CredentialOffer(offer) => {
            assert_eq!(thread, offer.id);
            assert!(offer.thread.thid.is_none());
            assert_eq!(Some(String::from("hello")), offer.comment);
            assert_eq!(CRED_OFFER, offer.offers_attach.content().unwrap());
            assert_eq!(1, offer.credential_preview.attributes.len());
            assert_eq!("name", offer.credential_preview.attributes[0].name);
            assert_eq!("\"Alice\"", offer.credential_preview.attributes[0].value);
            assert_eq!(MimeType::Plain, offer.credential_preview.attributes[0].mime_type);
        }
        _ => panic!("an offer was to be sent"),
    }

    let request = CredentialRequest::create().set_requests_attach(CRED_REQUEST).set_thread_id(&thread);
    let (uid, message) = issuer
        .find_message_to_handle(bag(vec![("k1", A2AMessage::CredentialRequest(request))]))
        .unwrap();
    assert_eq!("k1", uid);
    let issuer = issuer.handle_message(message.into(), &MockBackend, Some(&send)).unwrap();
    assert_eq!(IssuerState::RequestReceived, issuer.get_state());
    assert_eq!(1, sent.borrow().len());

    let issuer = issuer
        .handle_message(CredentialIssuanceMessage::CredentialSend(), &MockBackend, Some(&send))
        .unwrap();
    assert_eq!(IssuerState::Finished, issuer.get_state());
    assert_eq!(1, issuer.credential_status());
    assert_eq!(2, sent.borrow().len());
    let seen_2: Vec<A2AMessage> = sent.borrow().iter().cloned().collect();
    match &seen_2[1] {
        A2AMessage::Credential(credential) => {
            assert_eq!(Some(thread.clone()), credential.thread.thid);
            assert_eq!(CREDENTIAL, credential.credentials_attach.content().unwrap());
        }
        _ => panic!("a credential was to be sent"),
    }
}

// A request of another thread is not selected, and the issuer stays where it is.
#[test]
fn issuer_refuses_a_request_of_another_thread() {
    let issuer = to_offer_sent_state(_issuer_sm());
    let messages = bag(vec![("k1", A2AMessage::CredentialRequest(_credential_request_1()))]);
    assert!(issuer.find_message_to_handle(messages).is_none());
    assert_eq!(IssuerState::OfferSent, issuer.get_state());
    let refused = issuer.clone().handle_message(
        CredentialIssuanceMessage::CredentialRequest(_credential_request_1()),
        &MockBackend,
        _send_message(),
    );
    assert_eq!(VcxErrorKind::ThreadIdMismatch, refused.err().unwrap().kind());
    for message in [
        CredentialIssuanceMessage::CredentialProposal(_credential_proposal().set_thread_id("x")),
        CredentialIssuanceMessage::CredentialOffer(_credential_offer().set_thread_id("x")),
        CredentialIssuanceMessage::Credential(_credential().set_thread_id("x")),
        CredentialIssuanceMessage::CredentialAck(_ack().set_thread_id("x")),
        CredentialIssuanceMessage::ProblemReport(_problem_report().set_thread_id("x")),
    ] {
        let refused = issuer.clone().handle_message(message, &MockBackend, _send_message());
        assert_eq!(VcxErrorKind::ThreadIdMismatch, refused.err().unwrap().kind());
    }
    // A finished machine refuses it as well, and stays finished.
    let finished = to_finished_state(_issuer_sm());
    let refused = finished.clone().handle_message(
        CredentialIssuanceMessage::CredentialAck(_ack().set_thread_id("x")),
        &MockBackend,
        _send_message(),
    );
    assert_eq!(VcxErrorKind::ThreadIdMismatch, refused.err().unwrap().kind());
    assert_eq!(IssuerState::Finished, finished.get_state());
}

// The backend cannot issue: a problem report is sent and the issuer has failed.
#[test]
fn issuer_fails_where_the_backend_cannot_issue() {
    let sent: RefCell<Vec<A2AMessage>> = RefCell::new(Vec::new());
    let send = |message: &A2AMessage| -> VcxResult<()> {
        sent.borrow_mut().push(message.clone());
        Ok(())
    };
    let issuer = to_request_received_state(_issuer_sm());
    let issuer = issuer
        .handle_message(CredentialIssuanceMessage::CredentialSend(), &FailingBackend, Some(&send))
        .unwrap();
    assert_eq!(IssuerState::Failed, issuer.get_state());
    assert!(issuer.is_terminal_state());
    assert_ne!(1, issuer.credential_status());
    assert_eq!(2, issuer.credential_status());
    assert_eq!(1, sent.borrow().len());
    let seen_3: Vec<A2AMessage> = sent.borrow().iter().cloned().collect();
    match &seen_3[0] {
        A2AMessage::CommonProblemReport(report) => {
            assert_eq!(Some(String::from(THREAD)), report.thread.thid);
            assert_eq!(Some(String::from("no credential")), report.comment);
        }
        _ => panic!("a problem report was to be sent"),
    }
}

#[test]
fn issuer_does_not_revoke_before_it_has_finished() {
    let issuer = to_request_received_state(_issuer_sm());
    assert_eq!(VcxErrorKind::NotReady, issuer.revoke(&MockBackend, true).unwrap_err().kind());
    assert_eq!(VcxErrorKind::NotReady, issuer.revoke(&MockBackend, false).unwrap_err().kind());
    assert_eq!(IssuerState::RequestReceived, issuer.get_state());
    assert_eq!(VcxErrorKind::NotReady, _issuer_sm().revoke(&MockBackend, true).unwrap_err().kind());
}

#[test]
fn test_revoke() {
    let issuer = to_finished_state(_issuer_sm());
    assert!(issuer.revoke(&MockBackend, true).is_ok());
    assert!(issuer.revoke(&MockBackend, false).is_ok());
    assert_eq!(VcxErrorKind::Backend, issuer.revoke(&FailingBackend, true).unwrap_err().kind());
    let (tails_file, rev_reg_id, cred_rev_id) = issuer.revocation_details().unwrap();
    assert_eq!(_tails_file(), tails_file);
    assert_eq!(_rev_reg_id(), rev_reg_id);
    assert_eq!("cred_rev_id", cred_rev_id);

    // The offer met a problem report: no index in the registry is known.
    let failed = to_offer_sent_state(_issuer_sm())
        .handle_message(
            CredentialIssuanceMessage::ProblemReport(_problem_report()),
            &MockBackend,
            _send_message(),
        )
        .unwrap();
    assert_eq!(true, failed.is_revokable().unwrap());
    assert_eq!(
        VcxErrorKind::InvalidRevocationDetails,
        failed.revoke(&MockBackend, true).unwrap_err().kind()
    );
    let incomplete = IssuerSM::step(
        source_id(),
        String::from(THREAD),
        IssuerFullState::CredentialSent(CredentialSentState {
            revocation_info_v1: Some(RevocationInfoV1 {
                cred_rev_id: Some(String::from("1")),
                rev_reg_id: Some(_rev_reg_id()),
                tails_file: None,
            }),
        }),
    )
    .handle_message(CredentialIssuanceMessage::CredentialAck(_ack()), &MockBackend, _send_message())
    .unwrap();
    assert_eq!(IssuerState::Finished, incomplete.get_state());
    assert_eq!(
        VcxErrorKind::InvalidRevocationDetails,
        incomplete.revoke(&MockBackend, false).unwrap_err().kind()
    );
}

#[test]
fn test_issuer_offer_fails_and_leaves_no_trace() {
    let sent: RefCell<Vec<A2AMessage>> = RefCell::new(Vec::new());
    let send = |message: &A2AMessage| -> VcxResult<()> {
        sent.borrow_mut().push(message.clone());
        Ok(())
    };
    let offer = |info: OfferInfo| CredentialIssuanceMessage::CredentialOfferSend(info, None);
    // the backend fails
    let refused = _issuer_sm().handle_message(offer(_offer_info()), &FailingBackend, Some(&send));
    assert_eq!(VcxErrorKind::Backend, refused.err().unwrap().kind());
    // the attribute values are not JSON
    let info = OfferInfo { credential_json: String::from("{not json"), .._offer_info() };
    let refused = _issuer_sm().handle_message(offer(info), &MockBackend, Some(&send));
    assert_eq!(VcxErrorKind::InvalidJson, refused.err().unwrap().kind());
    // an attribute lacks its value
    let info = OfferInfo { credential_json: String::from("[{\"name\":\"a\"}]"), .._offer_info() };
    let refused = _issuer_sm().handle_message(offer(info), &MockBackend, Some(&send));
    assert_eq!(VcxErrorKind::InvalidAttributesStructure, refused.err().unwrap().kind());
    assert_eq!(0, sent.borrow().len());
    // there is no callback
    let refused = _issuer_sm().handle_message(
        offer(_offer_info()),
        &MockBackend,
        None::<&fn(&A2AMessage) -> VcxResult<()>>,
    );
    assert_eq!(VcxErrorKind::InvalidState, refused.err().unwrap().kind());
    // the callback fails
    let fail = |_: &A2AMessage| -> VcxResult<()> {
        Err(VcxError::from_msg(VcxErrorKind::Backend, "connection lost"))
    };
    let refused = _issuer_sm().handle_message(offer(_offer_info()), &MockBackend, Some(&fail));
    assert_eq!("connection lost", refused.err().unwrap().to_string());
    let refused = to_request_received_state(_issuer_sm()).handle_message(
        CredentialIssuanceMessage::CredentialSend(),
        &MockBackend,
        Some(&fail),
    );
    assert_eq!("connection lost", refused.err().unwrap().to_string());
}

#[test]
fn test_issuer_offer_in_answer_to_a_proposal_replies_to_the_thread() {
    let sent: RefCell<Vec<A2AMessage>> = RefCell::new(Vec::new());
    let send = |message: &A2AMessage| -> VcxResult<()> {
        sent.borrow_mut().push(message.clone());
        Ok(())
    };
    let info = OfferInfo {
        credential_json: String::from("[{\"name\":\"age\",\"value\":25}]"),
        .._offer_info()
    };
    let issuer = _issuer_sm_from_proposal()
        .handle_message(
            CredentialIssuanceMessage::CredentialOfferSend(info, None),
            &MockBackend,
            Some(&send),
        )
        .unwrap();
    assert_eq!(THREAD, issuer.thread_id().unwrap());
    let seen_4: Vec<A2AMessage> = sent.borrow().iter().cloned().collect();
    match &seen_4[0] {
        A2AMessage::CredentialOffer(offer) => {
            assert_ne!(THREAD, offer.id);
            assert_eq!(Some(String::from(THREAD)), offer.thread.thid);
            assert_eq!(None, offer.comment);
            assert_eq!(1, offer.credential_preview.attributes.len());
            assert_eq!("\"age\"", offer.credential_preview.attributes[0].name);
            assert_eq!("25", offer.credential_preview.attributes[0].value);
        }
        _ => panic!("an offer was to be sent"),
    }
}

#[test]
fn test_issuer_default() {
    let issuer_sm = IssuerSM::default();
    assert_eq!(IssuerState::Initial, issuer_sm.get_state());
    assert_eq!("", issuer_sm.get_source_id());
    assert_eq!("", issuer_sm.thread_id().unwrap());
    assert_eq!(0, issuer_sm.credential_status());
}

struct Logging {
    asked: RefCell<Vec<String>>,
}

impl Logging {
    fn new() -> Self {
        Logging { asked: RefCell::new(Vec::new()) }
    }

    fn note(&self, question: String) {
        self.asked.borrow_mut().push(question);
    }

    fn asked(&self) -> Vec<String> {
        self.asked.borrow().clone()
    }
}

impl AnoncredsBackend for Logging {
    fn create_offer(&self, cred_def_id: &str) -> VcxResult<String> {
        self.note(format!("offer {}", cred_def_id));
        MockBackend.create_offer(cred_def_id)
    }

    fn create_credential(
        &self,
        offer: &str,
        request: &str,
        encoded_values: &str,
        rev_reg_id: &Option<String>,
        tails_file: &Option<String>,
    ) -> VcxResult<(String, Option<String>)> {
        self.note(format!(
            "issue {} {} {} {:?} {:?}",
            offer, request, encoded_values, rev_reg_id, tails_file
        ));
        MockBackend.create_credential(offer, request, encoded_values, rev_reg_id, tails_file)
    }

    fn create_credential_request(
        &self,
        cred_def_id: &str,
        my_pw_did: &str,
        offer: &str,
    ) -> VcxResult<(String, String, String)> {
        MockBackend.create_credential_request(cred_def_id, my_pw_did, offer)
    }

    fn get_rev_reg_def_json(&self, rev_reg_id: &str) -> VcxResult<String> {
        MockBackend.get_rev_reg_def_json(rev_reg_id)
    }

    fn store_credential(
        &self,
        request_metadata: &str,
        credential: &str,
        cred_def: &str,
        rev_reg_def: &Option<String>,
    ) -> VcxResult<String> {
        MockBackend.store_credential(request_metadata, credential, cred_def, rev_reg_def)
    }

    fn delete_credential(&self, credential_id: &str) -> VcxResult<()> {
        MockBackend.delete_credential(credential_id)
    }

    fn revoke_credential(&self, t: &str, r: &str, c: &str) -> VcxResult<()> {
        self.note(format!("revoke and publish {} {} {}", t, r, c));
        Ok(())
    }

    fn revoke_credential_local(&self, t: &str, r: &str, c: &str) -> VcxResult<()> {
        self.note(format!("revoke {} {} {}", t, r, c));
        Err(VcxError::from_msg(VcxErrorKind::Backend, "the registry is full"))
    }
}

#[test]
fn test_issuer_asks_the_backend_with_what_the_state_holds() {
    let backend = Logging::new();
    let issuer = _issuer_sm()
        .handle_message(
            CredentialIssuanceMessage::CredentialOfferSend(_offer_info(), None),
            &backend,
            _send_message(),
        )
        .unwrap();
    assert_eq!(vec![String::from("offer 2hoqvcwupRTUNkXn6ArYzs:3:CL:1766")], backend.asked());
    let issuer = issuer
        .handle_message(
            CredentialIssuanceMessage::CredentialRequest(_credential_request()),
            &backend,
            _send_message(),
        )
        .unwrap();
    let issuer = issuer
        .handle_message(CredentialIssuanceMessage::CredentialSend(), &backend, _send_message())
        .unwrap();
    assert_eq!(IssuerState::Finished, issuer.get_state());
    let expected = format!(
        "issue {} {} {} {:?} {:?}",
        CRED_OFFER,
        CRED_REQUEST,
        "{\"attribute\":{\"encoded\":\"92841189662233984814298766111008590915399869399374994427192681486478367393305\",\"raw\":\"value\"}}",
        Some(_rev_reg_id()),
        Some(_tails_file())
    );
    assert_eq!(expected, backend.asked()[1]);
    assert_eq!(2, backend.asked().len());

    // the revocation asks the operation that `publish` chooses, once, and hands back its answer
    assert!(issuer.revoke(&backend, true).is_ok());
    assert_eq!(
        "revoke and publish TEST_TAILS_FILE TEST_REV_REG_ID cred_rev_id",
        backend.asked()[2]
    );
    let failure = issuer.revoke(&backend, false).unwrap_err();
    assert_eq!("the registry is full", failure.to_string());
    assert_eq!("revoke TEST_TAILS_FILE TEST_REV_REG_ID cred_rev_id", backend.asked()[3]);
    assert_eq!(4, backend.asked().len());

    // before the interaction is over the backend is not asked
    let early = to_request_received_state(_issuer_sm());
    assert!(early.revoke(&backend, true).is_err());
    assert_eq!(4, backend.asked().len());
}

#[test]
fn test_issuer_offer_without_callback_fails_with_invalid_state() {
    let none = None::<&fn(&A2AMessage) -> VcxResult<()>>;
    for issuer in [_issuer_sm(), _issuer_sm_from_proposal()] {
        let refused = issuer.handle_message(
            CredentialIssuanceMessage::CredentialOfferSend(_offer_info(), None),
            &MockBackend,
            none,
        );
        assert_eq!(VcxErrorKind::InvalidState, refused.err().unwrap().kind());
    }
    let refused = to_request_received_state(_issuer_sm()).handle_message(
        CredentialIssuanceMessage::CredentialSend(),
        &MockBackend,
        none,
    );
    assert_eq!(VcxErrorKind::InvalidState, refused.err().unwrap().kind());
}
