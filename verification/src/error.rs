//! The failures that the protocol engine reports.
use vstd::prelude::*;

verus! {

/// The kind of a failure.
#[derive(Clone, Copy, Debug, PartialEq, Eq, Structural)]
pub enum VcxErrorKind {
    /// The operation has no meaning in the current state.
    InvalidState,
    /// A payload could not be read or lacked a required field.
    InvalidJson,
    /// The attribute document was read but does not have the expected shape.
    InvalidAttributesStructure,
    /// Revocation was asked for but the revocation details are incomplete.
    InvalidRevocationDetails,
    /// The interaction has not reached the state that the operation needs.
    NotReady,
    /// An inbound message names another thread than the interaction's.
    ThreadIdMismatch,
    /// The anoncreds backend reported a failure of its own.
    Backend,
}

/// A failure: its kind and a message for people.
#[derive(Debug)]
pub struct VcxError {
    kind: VcxErrorKind,
    msg: String,
}

/// What a `VcxError` holds.
pub struct VcxErrorView {
    pub kind: VcxErrorKind,
    pub msg: Seq<char>,
}

pub type VcxResult<T> = Result<T, VcxError>;

impl View for VcxError {
    type V = VcxErrorView;

    closed spec fn view(&self) -> VcxErrorView {
        VcxErrorView { kind: self.kind, msg: self.msg@ }
    }
}

/// What a result holds: the view of its value, or the kind of its failure.
pub open spec fn outcome_of<T: View>(r: VcxResult<T>) -> Result<T::V, VcxErrorKind> {
    match r {
        Ok(value) => Ok(value@),
        Err(e) => Err(e@.kind),
    }
}

impl Clone for VcxError {
    fn clone(&self) -> (r: Self)
        ensures
            r@ == self@,
    {
        VcxError { kind: self.kind, msg: self.msg.clone() }
    }
}

impl VcxError {
    /// A failure of the given kind with the given message.
    pub fn from_msg(kind: VcxErrorKind, msg: &str) -> (r: Self)
        ensures
            r@ == (VcxErrorView { kind, msg: msg@ }),
    {
        VcxError { kind, msg: msg.to_owned() }
    }

    /// The kind of this failure.
    pub fn kind(&self) -> (r: VcxErrorKind)
        ensures
            r == self@.kind,
    {
        self.kind
    }

    /// The message of this failure.
    pub fn to_string(&self) -> (r: String)
        ensures
            r@ == self@.msg,
    {
        self.msg.clone()
    }
}

} // verus!
