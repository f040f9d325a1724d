//! Entries: the content-addressed units of data that the table of the
//! distributed hash table holds.

use crate::address::Address;
use vstd::prelude::*;

verus! {

/// A directed link from one address to another.
#[derive(Debug, PartialEq, Eq)]
pub struct Link {
    pub base: Address,
    pub target: Address,
    pub tag: String,
}

/// The mathematical value of a [`Link`].
pub struct LinkView {
    pub base: Seq<char>,
    pub target: Seq<char>,
    pub tag: Seq<char>,
}

impl View for Link {
    type V = LinkView;

    open spec fn view(&self) -> LinkView {
        LinkView { base: self.base@, target: self.target@, tag: self.tag@ }
    }
}

impl Clone for Link {
    fn clone(&self) -> (copy: Link)
        ensures
            copy == *self,
    {
        Link { base: self.base.clone(), target: self.target.clone(), tag: self.tag.clone() }
    }
}

/// An entry, by kind.
#[derive(Debug, PartialEq, Eq)]
pub enum Entry {
    /// Application data: the name of its entry type and its encoded value.
    App(String, String),
    /// Marks the entry at the address as deleted.
    Deletion(Address),
    /// Attaches a link to the entry at the link's base.
    LinkAdd(Link),
    /// Detaches a link from the entry at the link's base.
    LinkRemove(Link),
}

/// The mathematical value of an [`Entry`].
pub enum EntryView {
    App(Seq<char>, Seq<char>),
    Deletion(Seq<char>),
    LinkAdd(LinkView),
    LinkRemove(LinkView),
}

impl View for Entry {
    type V = EntryView;

    open spec fn view(&self) -> EntryView {
        match *self {
            Entry::App(entry_type, value) => EntryView::App(entry_type@, value@),
            Entry::Deletion(address) => EntryView::Deletion(address@),
            Entry::LinkAdd(link) => EntryView::LinkAdd(link@),
            Entry::LinkRemove(link) => EntryView::LinkRemove(link@),
        }
    }
}

impl Clone for Entry {
    fn clone(&self) -> (copy: Entry)
        ensures
            copy == *self,
    {
        match self {
            Entry::App(entry_type, value) => Entry::App(entry_type.clone(), value.clone()),
            Entry::Deletion(address) => Entry::Deletion(address.clone()),
            Entry::LinkAdd(link) => Entry::LinkAdd(link.clone()),
            Entry::LinkRemove(link) => Entry::LinkRemove(link.clone()),
        }
    }
}

/// The provenance of an entry: who wrote it, when, and what it follows.
///
/// This layer requires a header with every entry it is asked to store and
/// never looks inside: the header is kept in its interchange encoding.
#[derive(Debug, PartialEq, Eq)]
pub struct ChainHeader {
    pub content: String,
}

impl View for ChainHeader {
    type V = Seq<char>;

    open spec fn view(&self) -> Seq<char> {
        self.content@
    }
}

impl ChainHeader {
    /// Wraps an encoded header.
    pub fn new(content: String) -> (header: ChainHeader)
        ensures
            header.content == content,
            header@ == content@,
    {
        ChainHeader { content }
    }
}

impl Clone for ChainHeader {
    fn clone(&self) -> (copy: ChainHeader)
        ensures
            copy == *self,
    {
        ChainHeader { content: self.content.clone() }
    }
}

/// An entry together with its header, as peers send it for storage.
#[derive(Debug, PartialEq, Eq)]
pub struct EntryWithHeader {
    pub entry_body: Entry,
    pub header: ChainHeader,
}

/// The mathematical value of an [`EntryWithHeader`].
pub struct EntryWithHeaderView {
    pub entry_body: EntryView,
    pub header: Seq<char>,
}

impl View for EntryWithHeader {
    type V = EntryWithHeaderView;

    open spec fn view(&self) -> EntryWithHeaderView {
        EntryWithHeaderView { entry_body: self.entry_body@, header: self.header@ }
    }
}

impl Clone for EntryWithHeader {
    fn clone(&self) -> (copy: EntryWithHeader)
        ensures
            copy == *self,
    {
        EntryWithHeader { entry_body: self.entry_body.clone(), header: self.header.clone() }
    }
}

/// The state of an entry in its life cycle.
#[derive(Debug, Clone, Copy, PartialEq, Eq)]
pub enum CrudStatus {
    Live,
    Rejected,
    Deleted,
    Modified,
    Locked,
}

} // verus!
