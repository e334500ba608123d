//! The callback by which a state machine sends a message to the other agent.
use crate::error::{VcxError, VcxErrorKind, VcxResult};
use crate::messages::a2a::{A2AMessage, A2AMessageView};
use vstd::prelude::*;

verus! {

/// Whether handing a message of the given content to the callback may have had
/// the given outcome. Without a callback the only outcome is the failure
/// `InvalidState`.
pub open spec fn delivered<F: Fn(&A2AMessage) -> VcxResult<()>>(
    send_message: Option<&F>,
    message: A2AMessageView,
    outcome: VcxResult<()>,
) -> bool {
    match send_message {
        Some(f) => exists|m: A2AMessage|
            m@ == message && #[trigger] call_ensures(*f, (&m,), outcome),
        None => outcome matches Err(e) && e@.kind == VcxErrorKind::InvalidState,
    }
}

/// Whether a message of the given content went through the callback: the
/// callback took it and reported success.
pub open spec fn sent_through<F: Fn(&A2AMessage) -> VcxResult<()>>(
    send_message: Option<&F>,
    message: A2AMessageView,
) -> bool {
    exists|outcome: VcxResult<()>|
        outcome is Ok && #[trigger] delivered(send_message, message, outcome)
}

/// Whether the failure is one of sending: that of a missing callback, or one
/// that the callback returned for some message.
pub open spec fn send_failed<F: Fn(&A2AMessage) -> VcxResult<()>>(
    send_message: Option<&F>,
    failure: VcxError,
) -> bool {
    match send_message {
        Some(f) => exists|m: A2AMessage| #[trigger] call_ensures(*f, (&m,), Err(failure)),
        None => failure@.kind == VcxErrorKind::InvalidState,
    }
}

/// Whether the callback, if there is one, takes every message.
pub open spec fn takes_all<F: Fn(&A2AMessage) -> VcxResult<()>>(send_message: Option<&F>) -> bool {
    send_message matches Some(f) ==> forall|m: &A2AMessage| call_requires(*f, (m,))
}

/// Hands the message to the callback, once. Fails with `InvalidState` where
/// there is no callback, and as the callback does where it fails.
pub fn deliver<F: Fn(&A2AMessage) -> VcxResult<()>>(send_message: Option<&F>, message: A2AMessage)
    -> (r: VcxResult<()>)
    requires
        takes_all(send_message),
    ensures
        delivered(send_message, message@, r),
        r is Ok ==> sent_through(send_message, message@),
        r matches Err(e) ==> send_failed(send_message, e),
{
    match send_message {
        Some(f) => {
            f(&message)
        },
        None => Err(
            VcxError::from_msg(
                VcxErrorKind::InvalidState,
                "Attempted to call undefined send_message callback",
            ),
        ),
    }
}

} // verus!
