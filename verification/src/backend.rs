//! The anoncreds backend: the wallet and ledger operations that the state
//! machines ask for. The caller hands an implementation to each operation of a
//! machine that needs one.
use crate::error::VcxResult;
use vstd::prelude::*;

verus! {

/// What the state machines need of the anoncreds backend.
///
/// Each operation has a relation that says which answers the backend may give
/// to which question. An implementation chooses its relations, and one that
/// chooses none admits every answer. The machines are ready for every answer,
/// and their contracts say what was asked and what follows from the answer
/// that came.
pub trait AnoncredsBackend {
    /// Whether `r` is an answer to the question for the offer of a credential
    /// of the given definition.
    open spec fn offer_outcome(&self, cred_def_id: Seq<char>, r: VcxResult<String>) -> bool {
        true
    }

    /// Whether `r` is an answer to the question for a credential.
    open spec fn issue_outcome(
        &self,
        offer: Seq<char>,
        request: Seq<char>,
        encoded_values: Seq<char>,
        rev_reg_id: Option<Seq<char>>,
        tails_file: Option<Seq<char>>,
        r: VcxResult<(String, Option<String>)>,
    ) -> bool {
        true
    }

    /// Whether `r` is an answer to the question for a credential request.
    open spec fn request_outcome(
        &self,
        cred_def_id: Seq<char>,
        my_pw_did: Seq<char>,
        offer: Seq<char>,
        r: VcxResult<(String, String, String)>,
    ) -> bool {
        true
    }

    /// Whether `r` is an answer to the question for the definition of a
    /// revocation registry.
    open spec fn registry_outcome(&self, rev_reg_id: Seq<char>, r: VcxResult<String>) -> bool {
        true
    }

    /// Whether `r` is an answer to the request to store a credential.
    open spec fn store_outcome(
        &self,
        request_metadata: Seq<char>,
        credential: Seq<char>,
        cred_def: Seq<char>,
        rev_reg_def: Option<Seq<char>>,
        r: VcxResult<String>,
    ) -> bool {
        true
    }

    /// Whether `r` is an answer to the request to delete a stored credential.
    open spec fn delete_outcome(&self, credential_id: Seq<char>, r: VcxResult<()>) -> bool {
        true
    }

    /// Whether `r` is an answer to the request to revoke a credential, with
    /// the revocation published or not.
    open spec fn revoke_outcome(
        &self,
        tails_file: Seq<char>,
        rev_reg_id: Seq<char>,
        cred_rev_id: Seq<char>,
        publish: bool,
        r: VcxResult<()>,
    ) -> bool {
        true
    }

    /// Creates the offer of a credential of the given definition.
    fn create_offer(&self, cred_def_id: &str) -> (r: VcxResult<String>)
        ensures
            self.offer_outcome(cred_def_id@, r),
    ;

    /// Issues a credential for the given offer and request, with the encoded
    /// attribute values, in the given revocation registry if there is one.
    /// Hands out the credential and, where it can be revoked, its index in the
    /// registry.
    fn create_credential(
        &self,
        offer: &str,
        request: &str,
        encoded_values: &str,
        rev_reg_id: &Option<String>,
        tails_file: &Option<String>,
    ) -> (r: VcxResult<(String, Option<String>)>)
        ensures
            self.issue_outcome(
                offer@,
                request@,
                encoded_values@,
                rev_reg_id.deep_view(),
                tails_file.deep_view(),
                r,
            ),
    ;

    /// Creates the request for the offered credential under the holder's
    /// pairwise DID. Hands out the request, its metadata, and the credential
    /// definition.
    fn create_credential_request(&self, cred_def_id: &str, my_pw_did: &str, offer: &str) -> (r:
        VcxResult<(String, String, String)>)
        ensures
            self.request_outcome(cred_def_id@, my_pw_did@, offer@, r),
    ;

    /// Fetches the definition of a revocation registry.
    fn get_rev_reg_def_json(&self, rev_reg_id: &str) -> (r: VcxResult<String>)
        ensures
            self.registry_outcome(rev_reg_id@, r),
    ;

    /// Stores a received credential and hands out the id under which it is
    /// stored.
    fn store_credential(
        &self,
        request_metadata: &str,
        credential: &str,
        cred_def: &str,
        rev_reg_def: &Option<String>,
    ) -> (r: VcxResult<String>)
        ensures
            self.store_outcome(
                request_metadata@,
                credential@,
                cred_def@,
                rev_reg_def.deep_view(),
                r,
            ),
    ;

    /// Deletes a stored credential.
    fn delete_credential(&self, credential_id: &str) -> (r: VcxResult<()>)
        ensures
            self.delete_outcome(credential_id@, r),
    ;

    /// Revokes a credential and publishes the revocation.
    fn revoke_credential(&self, tails_file: &str, rev_reg_id: &str, cred_rev_id: &str) -> (r:
        VcxResult<()>)
        ensures
            self.revoke_outcome(tails_file@, rev_reg_id@, cred_rev_id@, true, r),
    ;

    /// Revokes a credential without publishing the revocation.
    fn revoke_credential_local(&self, tails_file: &str, rev_reg_id: &str, cred_rev_id: &str) -> (r:
        VcxResult<()>)
        ensures
            self.revoke_outcome(tails_file@, rev_reg_id@, cred_rev_id@, false, r),
    ;
}

} // verus!
