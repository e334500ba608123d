//! Attachments of protocol messages: a text, carried as base64.
use crate::error::{VcxError, VcxErrorKind, VcxResult};
use vstd::prelude::*;
use vstd::utf8::{decode_utf8, encode_utf8, valid_utf8};

verus! {

/// The base64 text, in the standard alphabet and padded, that stands for the
/// given bytes.
pub uninterp spec fn base64_text(bytes: Seq<u8>) -> Seq<char>;

/// The bytes that a base64 text stands for, where it stands for any.
pub uninterp spec fn base64_bytes(text: Seq<char>) -> Option<Seq<u8>>;

/// `base64::encode`: the standard, padded base64 text of the bytes. The
/// contract gives that text a name and claims no more.
#[verifier::external_body]
pub(crate) fn base64_encode(bytes: &[u8]) -> (r: String)
    ensures
        r@ == base64_text(bytes@),
{
    base64::encode(bytes)
}

/// `base64::decode`: the bytes of a standard, padded base64 text, or nothing
/// where the text is not one. The contract gives the outcome a name and
/// claims no more.
#[verifier::external_body]
pub(crate) fn base64_decode(text: &str) -> (r: Option<Vec<u8>>)
    ensures
        r matches Some(b) ==> base64_bytes(text@) == Some(b@),
        r is None ==> base64_bytes(text@) is None,
{
    base64::decode(text).ok()
}

/// `String::from_utf8`: the text that the bytes encode, where they are valid
/// UTF-8, and nothing where they are not.
#[verifier::external_body]
pub(crate) fn utf8_text(bytes: Vec<u8>) -> (r: Option<String>)
    ensures
        r matches Some(s) ==> valid_utf8(bytes@) && s@ == decode_utf8(bytes@),
        r is None ==> !valid_utf8(bytes@),
{
    String::from_utf8(bytes).ok()
}

/// What an attachment stands for in its message.
#[derive(Clone, Copy, Debug, PartialEq, Eq, Structural)]
pub enum AttachmentId {
    CredentialOffer,
    CredentialRequest,
    Credential,
}

/// One attachment: its role and its base64 text.
#[derive(Debug)]
pub struct Attachment {
    pub id: AttachmentId,
    pub data: String,
}

/// What an `Attachment` holds.
pub struct AttachmentView {
    pub id: AttachmentId,
    pub data: Seq<char>,
}

impl View for Attachment {
    type V = AttachmentView;

    open spec fn view(&self) -> AttachmentView {
        AttachmentView { id: self.id, data: self.data@ }
    }
}

impl Clone for Attachment {
    fn clone(&self) -> (r: Self)
        ensures
            r@ == self@,
    {
        Attachment { id: self.id, data: self.data.clone() }
    }
}

/// The attachments of one message, in order.
#[derive(Debug)]
pub struct Attachments {
    pub items: Vec<Attachment>,
}

impl View for Attachments {
    type V = Seq<AttachmentView>;

    open spec fn view(&self) -> Seq<AttachmentView> {
        self.items@.map_values(|a: Attachment| a@)
    }
}

/// The attachment that carries the given text.
pub open spec fn attachment_of(id: AttachmentId, text: Seq<char>) -> AttachmentView {
    AttachmentView { id, data: base64_text(encode_utf8(text)) }
}

/// The text that a base64 attachment carries, where it carries one.
pub open spec fn attachment_text(data: Seq<char>) -> Option<Seq<char>> {
    match base64_bytes(data) {
        Some(bytes) => if valid_utf8(bytes) {
            Some(decode_utf8(bytes))
        } else {
            None
        },
        None => None,
    }
}

/// The text that the first attachment carries, where there is one and it
/// carries a text.
pub open spec fn content_of(attachments: Seq<AttachmentView>) -> Option<Seq<char>> {
    if attachments.len() == 0 {
        None
    } else {
        attachment_text(attachments[0].data)
    }
}

impl Clone for Attachments {
    fn clone(&self) -> (r: Self)
        ensures
            r@ == self@,
    {
        let mut items: Vec<Attachment> = Vec::new();
        let mut i: usize = 0;
        while i < self.items.len()
            invariant
                i <= self.items@.len(),
                items@.len() == i,
                forall|j: int| 0 <= j < i ==> items@[j]@ == self.items@[j]@,
            decreases self.items@.len() - i,
        {
            items.push(self.items[i].clone());
            i += 1;
        }
        Attachments { items }
    }
}

impl Attachments {
    /// No attachment.
    pub fn new() -> (r: Self)
        ensures
            r@ == Seq::<AttachmentView>::empty(),
    {
        Attachments { items: Vec::new() }
    }

    /// Adds the text as a base64 attachment, behind those already there.
    pub fn add_base64_encoded_json_attachment(&mut self, id: AttachmentId, text: &str)
        ensures
            final(self)@ == old(self)@.push(attachment_of(id, text@)),
    {
        let data = base64_encode(text.as_bytes());
        self.items.push(Attachment { id, data });
    }

    /// The text that the first attachment carries. Fails with `InvalidJson`
    /// where there is no attachment or the first one carries no text.
    pub fn content(&self) -> (r: VcxResult<String>)
        ensures
            match r {
                Ok(text) => content_of(self@) == Some(text@),
                Err(e) => content_of(self@) is None && e@.kind == VcxErrorKind::InvalidJson,
            },
    {
        if self.items.len() == 0 {
            return Err(VcxError::from_msg(VcxErrorKind::InvalidJson, "No attachment to read"));
        }
        let first = &self.items[0];
        match base64_decode(first.data.as_str()) {
            Some(bytes) => match utf8_text(bytes) {
                Some(text) => Ok(text),
                None => Err(
                    VcxError::from_msg(VcxErrorKind::InvalidJson, "Attachment is not a text"),
                ),
            },
            None => Err(VcxError::from_msg(VcxErrorKind::InvalidJson, "Attachment is not base64")),
        }
    }
}

} // verus!
