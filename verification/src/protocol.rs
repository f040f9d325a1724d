//! The events that the transport layer delivers, after their payload has been
//! decoded.
//!
//! A payload arrives in an interchange encoding. Whoever receives it decodes
//! it into the typed value that the event calls for and hands the handlers the
//! result, a failure included: what to do about a payload that does not decode
//! is the handlers' decision.

use crate::address::Address;
use crate::direct_message::{DirectMessage, DirectMessageView};
use crate::entry::{CrudStatus, EntryWithHeader, EntryWithHeaderView};
use vstd::prelude::*;

verus! {

/// The attribute of a link attached to an entry.
pub const LINK_ATTRIBUTE: &'static str = "link";

/// The attribute of the life-cycle state of an entry.
pub const STATUS_NAME: &'static str = "status";

/// The attribute of the address that replaces a modified entry.
pub const LINK_NAME: &'static str = "crud-link";

/// A payload did not decode into the value that its event calls for.
#[derive(Debug, Clone, Copy, PartialEq, Eq)]
pub struct DecodeError {}

/// A direct message, as delivered: who sent it, the id that ties a request to
/// its reply, and the message itself.
#[derive(Debug, PartialEq, Eq)]
pub struct MessageData {
    pub msg_id: String,
    pub from_agent_id: String,
    pub data: Result<DirectMessage, DecodeError>,
}

/// The mathematical value of a [`MessageData`].
pub struct MessageDataView {
    pub msg_id: Seq<char>,
    pub from_agent_id: Seq<char>,
    pub data: Result<DirectMessageView, DecodeError>,
}

impl View for MessageData {
    type V = MessageDataView;

    open spec fn view(&self) -> MessageDataView {
        MessageDataView {
            msg_id: self.msg_id@,
            from_agent_id: self.from_agent_id@,
            data: match self.data {
                Ok(message) => Ok(message@),
                Err(e) => Err(e),
            },
        }
    }
}

/// An instruction to hold an entry.
#[derive(Debug, PartialEq, Eq)]
pub struct DhtData {
    pub content: Result<EntryWithHeader, DecodeError>,
}

/// The mathematical value of a [`DhtData`].
pub struct DhtDataView {
    pub content: Result<EntryWithHeaderView, DecodeError>,
}

impl View for DhtData {
    type V = DhtDataView;

    open spec fn view(&self) -> DhtDataView {
        DhtDataView {
            content: match self.content {
                Ok(entry) => Ok(entry@),
                Err(e) => Err(e),
            },
        }
    }
}

/// What the content of a metadata instruction is to be decoded as.
#[derive(Debug, Clone, Copy, PartialEq, Eq)]
pub enum MetaContentKind {
    /// An entry with its header.
    EntryWithHeader,
    /// The life-cycle state of an entry.
    CrudStatus,
    /// An address.
    Address,
    /// Nothing: the content is not to be decoded at all.
    Nothing,
}

/// The content of a metadata instruction, after decoding.
#[derive(Debug, PartialEq, Eq)]
pub enum MetaContent {
    /// No decoding was attempted.
    Undecoded,
    /// The content did not decode into what was asked for.
    Malformed(DecodeError),
    EntryWithHeader(EntryWithHeader),
    CrudStatus(CrudStatus),
    Address(Address),
}

/// The mathematical value of a [`MetaContent`].
pub enum MetaContentView {
    Undecoded,
    Malformed(DecodeError),
    EntryWithHeader(EntryWithHeaderView),
    CrudStatus(CrudStatus),
    Address(Seq<char>),
}

impl View for MetaContent {
    type V = MetaContentView;

    open spec fn view(&self) -> MetaContentView {
        match *self {
            MetaContent::Undecoded => MetaContentView::Undecoded,
            MetaContent::Malformed(e) => MetaContentView::Malformed(e),
            MetaContent::EntryWithHeader(entry) => MetaContentView::EntryWithHeader(entry@),
            MetaContent::CrudStatus(status) => MetaContentView::CrudStatus(status),
            MetaContent::Address(address) => MetaContentView::Address(address@),
        }
    }
}

/// An instruction to attach metadata to an entry that is already held. The
/// attribute says how the content is to be read.
#[derive(Debug, PartialEq, Eq)]
pub struct DhtMetaData {
    pub attribute: String,
    pub content: MetaContent,
}

/// The mathematical value of a [`DhtMetaData`].
pub struct DhtMetaDataView {
    pub attribute: Seq<char>,
    pub content: MetaContentView,
}

impl View for DhtMetaData {
    type V = DhtMetaDataView;

    open spec fn view(&self) -> DhtMetaDataView {
        DhtMetaDataView { attribute: self.attribute@, content: self.content@ }
    }
}

} // verus!
