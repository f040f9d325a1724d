//! Direct messages: the point-to-point exchange between two agents.

use crate::address::Address;
use vstd::prelude::*;

verus! {

/// What a peer needs to verify an entry on its own before it accepts it.
///
/// This layer carries a package from the reply to the command it submits and
/// never looks inside: the package is kept in its interchange encoding.
#[derive(Debug, PartialEq, Eq)]
pub struct ValidationPackage {
    pub content: String,
}

impl View for ValidationPackage {
    type V = Seq<char>;

    open spec fn view(&self) -> Seq<char> {
        self.content@
    }
}

impl ValidationPackage {
    /// Wraps an encoded validation package.
    pub fn new(content: String) -> (package: ValidationPackage)
        ensures
            package.content == content,
            package@ == content@,
    {
        ValidationPackage { content }
    }
}

impl Clone for ValidationPackage {
    fn clone(&self) -> (copy: ValidationPackage)
        ensures
            copy == *self,
    {
        ValidationPackage { content: self.content.clone() }
    }
}

/// The payload of a direct message.
#[derive(Debug, PartialEq, Eq)]
pub enum DirectMessage {
    /// An application-defined message; its payload is not interpreted here.
    Custom(String),
    /// Asks the receiver for the validation package of the entry at the address.
    RequestValidationPackage(Address),
    /// Answers a `RequestValidationPackage`; `None` when the responder has no
    /// package to give.
    ValidationPackage(Option<ValidationPackage>),
}

/// The mathematical value of a [`DirectMessage`].
pub enum DirectMessageView {
    Custom(Seq<char>),
    RequestValidationPackage(Seq<char>),
    ValidationPackage(Option<Seq<char>>),
}

/// The value of an optional validation package.
pub open spec fn package_view(package: Option<ValidationPackage>) -> Option<Seq<char>> {
    match package {
        Some(p) => Some(p@),
        None => None,
    }
}

impl View for DirectMessage {
    type V = DirectMessageView;

    open spec fn view(&self) -> DirectMessageView {
        match *self {
            DirectMessage::Custom(payload) => DirectMessageView::Custom(payload@),
            DirectMessage::RequestValidationPackage(address) => {
                DirectMessageView::RequestValidationPackage(address@)
            },
            DirectMessage::ValidationPackage(package) => {
                DirectMessageView::ValidationPackage(package_view(package))
            },
        }
    }
}

impl Clone for DirectMessage {
    fn clone(&self) -> (copy: DirectMessage)
        ensures
            copy == *self,
    {
        match self {
            DirectMessage::Custom(payload) => DirectMessage::Custom(payload.clone()),
            DirectMessage::RequestValidationPackage(address) => {
                DirectMessage::RequestValidationPackage(address.clone())
            },
            DirectMessage::ValidationPackage(Some(package)) => {
                DirectMessage::ValidationPackage(Some(package.clone()))
            },
            DirectMessage::ValidationPackage(None) => DirectMessage::ValidationPackage(None),
        }
    }
}

} // verus!
