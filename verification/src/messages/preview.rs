//! The preview of a credential's attributes, as proposals and offers carry it.
use vstd::prelude::*;

verus! {

/// The media type of an attribute's value.
#[derive(Clone, Copy, Debug, PartialEq, Eq, Structural)]
pub enum MimeType {
    /// `text/plain`
    Plain,
}

/// One attribute of the preview.
#[derive(Debug)]
pub struct CredentialValue {
    pub name: String,
    pub value: String,
    pub mime_type: MimeType,
}

/// What a `CredentialValue` holds.
pub struct CredentialValueView {
    pub name: Seq<char>,
    pub value: Seq<char>,
    pub mime_type: MimeType,
}

impl View for CredentialValue {
    type V = CredentialValueView;

    open spec fn view(&self) -> CredentialValueView {
        CredentialValueView { name: self.name@, value: self.value@, mime_type: self.mime_type }
    }
}

impl Clone for CredentialValue {
    fn clone(&self) -> (r: Self)
        ensures
            r@ == self@,
    {
        CredentialValue {
            name: self.name.clone(),
            value: self.value.clone(),
            mime_type: self.mime_type,
        }
    }
}

/// The attributes of a preview, in the order in which they were added.
#[derive(Debug)]
pub struct CredentialPreviewData {
    pub attributes: Vec<CredentialValue>,
}

impl View for CredentialPreviewData {
    type V = Seq<CredentialValueView>;

    open spec fn view(&self) -> Seq<CredentialValueView> {
        self.attributes@.map_values(|a: CredentialValue| a@)
    }
}

impl Clone for CredentialPreviewData {
    fn clone(&self) -> (r: Self)
        ensures
            r@ == self@,
    {
        let mut attributes: Vec<CredentialValue> = Vec::new();
        let mut i: usize = 0;
        while i < self.attributes.len()
            invariant
                i <= self.attributes@.len(),
                attributes@.len() == i,
                forall|j: int| 0 <= j < i ==> attributes@[j]@ == self.attributes@[j]@,
            decreases self.attributes@.len() - i,
        {
            attributes.push(self.attributes[i].clone());
            i += 1;
        }
        CredentialPreviewData { attributes }
    }
}

impl CredentialPreviewData {
    /// A preview without attributes.
    pub fn new() -> (r: Self)
        ensures
            r@ == Seq::<CredentialValueView>::empty(),
    {
        CredentialPreviewData { attributes: Vec::new() }
    }

    /// This preview with one more attribute at its end.
    pub fn add_value(self, name: &str, value: &str, mime_type: MimeType) -> (r: Self)
        ensures
            r@ == self@.push(CredentialValueView { name: name@, value: value@, mime_type }),
    {
        let mut attributes = self.attributes;
        attributes.push(
            CredentialValue { name: name.to_owned(), value: value.to_owned(), mime_type },
        );
        CredentialPreviewData { attributes }
    }
}

} // verus!
