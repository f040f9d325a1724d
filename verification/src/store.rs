//! Replication instructions that arrive: to hold an entry, and to attach
//! metadata to an entry that is already held.

use crate::action::{outcome_view, Workflow, WorkflowView};
use crate::context::Context;
use crate::entry::{CrudStatus, Entry, EntryView, EntryWithHeaderView};
use crate::error::HandlerError;
use crate::protocol::{
    DhtData, DhtDataView, DhtMetaData, DhtMetaDataView, MetaContent, MetaContentKind,
    MetaContentView, LINK_ATTRIBUTE, LINK_NAME, STATUS_NAME,
};
use crate::send::log;
use vstd::prelude::*;

verus! {

/// The diagnostic for an entry that could not be held; the reason follows it.
pub const HOLD_ENTRY_FAILED: &'static str = "Holding an entry failed: ";

/// The diagnostic for a link that could not be attached; the reason follows it.
pub const ADD_LINK_FAILED: &'static str = "Adding a link failed: ";

/// What the content of metadata with this attribute is to be decoded as.
///
/// Three attributes are recognized. The content under any other is not to be
/// decoded at all: an attribute that a later version of the protocol adds
/// passes through a node that does not know it.
pub open spec fn content_kind_for(attribute: Seq<char>) -> MetaContentKind {
    if attribute == LINK_ATTRIBUTE@ {
        MetaContentKind::EntryWithHeader
    } else if attribute == STATUS_NAME@ {
        MetaContentKind::CrudStatus
    } else if attribute == LINK_NAME@ {
        MetaContentKind::Address
    } else {
        MetaContentKind::Nothing
    }
}

/// Says what the content of metadata with this attribute is to be decoded as,
/// before the metadata is handed to [`handle_store_dht_meta`].
pub fn expected_content_kind(attribute: &str) -> (kind: MetaContentKind)
    ensures
        kind == content_kind_for(attribute@),
{
    let attribute = attribute.to_owned();
    if attribute == LINK_ATTRIBUTE.to_owned() {
        MetaContentKind::EntryWithHeader
    } else if attribute == STATUS_NAME.to_owned() {
        MetaContentKind::CrudStatus
    } else if attribute == LINK_NAME.to_owned() {
        MetaContentKind::Address
    } else {
        MetaContentKind::Nothing
    }
}

/// What [`handle_store_dht`] returns for an instruction: the entry is to be
/// held, unless the payload did not decode.
pub open spec fn store_outcome(dht_data: DhtDataView) -> Result<WorkflowView, HandlerError> {
    match dht_data.content {
        Ok(entry_with_header) => Ok(WorkflowView::HoldEntry(entry_with_header.entry_body)),
        Err(_) => Err(HandlerError::CorruptPayload),
    }
}

/// The network asks this node to hold an entry.
pub fn handle_store_dht(dht_data: DhtData) -> (outcome: Result<Workflow, HandlerError>)
    ensures
        match outcome {
            Ok(workflow) => store_outcome(dht_data@) == Ok::<WorkflowView, HandlerError>(workflow@),
            Err(e) => store_outcome(dht_data@) == Err::<WorkflowView, HandlerError>(e),
        },
{
    match dht_data.content {
        Ok(entry_with_header) => Ok(Workflow::HoldEntry(entry_with_header.entry_body)),
        Err(_) => Err(HandlerError::CorruptPayload),
    }
}

/// What [`handle_store_dht_meta`] returns for an instruction.
///
/// The attribute decides how the content is read, and content that was not
/// decoded as its attribute calls for is refused. A link is attached only
/// where the content is an entry that adds a link. The other attributes that
/// are recognized have their content checked and change nothing. Under an
/// attribute that is not recognized the content is not looked at.
pub open spec fn store_meta_outcome(dht_meta_data: DhtMetaDataView) -> Result<
    Option<WorkflowView>,
    HandlerError,
> {
    match content_kind_for(dht_meta_data.attribute) {
        MetaContentKind::EntryWithHeader => match dht_meta_data.content {
            MetaContentView::EntryWithHeader(entry) => match entry.entry_body {
                EntryView::LinkAdd(link) => Ok(Some(WorkflowView::AddLink(link))),
                _ => Err(HandlerError::NotALink),
            },
            _ => Err(HandlerError::CorruptPayload),
        },
        MetaContentKind::CrudStatus => match dht_meta_data.content {
            MetaContentView::CrudStatus(_) => Ok(None),
            _ => Err(HandlerError::CorruptPayload),
        },
        MetaContentKind::Address => match dht_meta_data.content {
            MetaContentView::Address(_) => Ok(None),
            _ => Err(HandlerError::CorruptPayload),
        },
        MetaContentKind::Nothing => Ok(None),
    }
}

/// The network asks this node to store metadata for an entry that it holds.
pub fn handle_store_dht_meta(dht_meta_data: DhtMetaData) -> (outcome: Result<
    Option<Workflow>,
    HandlerError,
>)
    ensures
        outcome_view(outcome) == store_meta_outcome(dht_meta_data@),
{
    let DhtMetaData { attribute, content } = dht_meta_data;
    match expected_content_kind(attribute.as_str()) {
        MetaContentKind::EntryWithHeader => match content {
            MetaContent::EntryWithHeader(entry) => match entry.entry_body {
                Entry::LinkAdd(link) => Ok(Some(Workflow::AddLink(link))),
                _ => Err(HandlerError::NotALink),
            },
            _ => Err(HandlerError::CorruptPayload),
        },
        MetaContentKind::CrudStatus => match content {
            MetaContent::CrudStatus(_) => Ok(None),
            _ => Err(HandlerError::CorruptPayload),
        },
        MetaContentKind::Address => match content {
            MetaContent::Address(_) => Ok(None),
            _ => Err(HandlerError::CorruptPayload),
        },
        MetaContentKind::Nothing => Ok(None),
    }
}

/// Holding an entry has failed. The failure is recorded and goes no further:
/// the entry is not held, holding it is not tried again, and the peer that
/// sent it is not told.
pub fn hold_entry_failed(reason: &str, context: &mut Context)
    ensures
        final(context)@ == old(context)@.log(HOLD_ENTRY_FAILED@ + reason@),
{
    let mut msg = HOLD_ENTRY_FAILED.to_owned();
    msg.append(reason);
    log(context, msg.as_str());
}

/// Attaching a link has failed. The failure is recorded and goes no further:
/// the link is not attached, attaching it is not tried again, and the peer
/// that sent it is not told.
pub fn add_link_failed(reason: &str, context: &mut Context)
    ensures
        final(context)@ == old(context)@.log(ADD_LINK_FAILED@ + reason@),
{
    let mut msg = ADD_LINK_FAILED.to_owned();
    msg.append(reason);
    log(context, msg.as_str());
}

/// Metadata under the attribute of a link whose content is an entry that adds
/// a link has exactly that link attached, whatever header the entry comes
/// with.
pub proof fn link_is_attached(entry_with_header: EntryWithHeaderView)
    requires
        entry_with_header.entry_body is LinkAdd,
    ensures
        content_kind_for(LINK_ATTRIBUTE@) == MetaContentKind::EntryWithHeader,
        store_meta_outcome(
            DhtMetaDataView {
                attribute: LINK_ATTRIBUTE@,
                content: MetaContentView::EntryWithHeader(entry_with_header),
            },
        ) == Ok::<Option<WorkflowView>, HandlerError>(
            Some(WorkflowView::AddLink(entry_with_header.entry_body->LinkAdd_0)),
        ),
{
}

/// Metadata under the attribute of a link whose content is an entry of any
/// other kind is refused, and no link is attached.
pub proof fn other_entry_is_no_link(entry_with_header: EntryWithHeaderView)
    requires
        !(entry_with_header.entry_body is LinkAdd),
    ensures
        store_meta_outcome(
            DhtMetaDataView {
                attribute: LINK_ATTRIBUTE@,
                content: MetaContentView::EntryWithHeader(entry_with_header),
            },
        ) == Err::<Option<WorkflowView>, HandlerError>(HandlerError::NotALink),
{
}

/// Only the attribute of a link ever has a workflow run: under every other
/// attribute, whatever the content, the instruction changes nothing.
pub proof fn other_attributes_change_nothing(dht_meta_data: DhtMetaDataView)
    requires
        dht_meta_data.attribute != LINK_ATTRIBUTE@,
    ensures
        !(store_meta_outcome(dht_meta_data) matches Ok(Some(_))),
{
}

/// The two attributes of an entry's life cycle are recognized, and content
/// that decoded as they call for is accepted.
pub proof fn life_cycle_attributes_are_checked(status: CrudStatus, address: Seq<char>)
    ensures
        content_kind_for(STATUS_NAME@) == MetaContentKind::CrudStatus,
        content_kind_for(LINK_NAME@) == MetaContentKind::Address,
        store_meta_outcome(
            DhtMetaDataView {
                attribute: STATUS_NAME@,
                content: MetaContentView::CrudStatus(status),
            },
        ) == Ok::<Option<WorkflowView>, HandlerError>(None),
        store_meta_outcome(
            DhtMetaDataView { attribute: LINK_NAME@, content: MetaContentView::Address(address) },
        ) == Ok::<Option<WorkflowView>, HandlerError>(None),
{
    reveal_strlit("link");
    reveal_strlit("status");
    reveal_strlit("crud-link");
    assert(LINK_ATTRIBUTE@.len() == 4);
    assert(STATUS_NAME@.len() == 6);
    assert(LINK_NAME@.len() == 9);
}

/// Metadata under the attribute `status` is read as the life-cycle state of
/// an entry. A state that decoded is accepted and changes nothing: no
/// workflow is run and nothing is refused. Content that did not decode as a
/// state, or was not decoded as one at all, is refused as corrupt.
pub proof fn status_is_checked_and_changes_nothing(content: MetaContentView)
    ensures
        STATUS_NAME@ == "status"@,
        content_kind_for("status"@) == MetaContentKind::CrudStatus,
        content is CrudStatus ==> store_meta_outcome(
            DhtMetaDataView { attribute: "status"@, content },
        ) == Ok::<Option<WorkflowView>, HandlerError>(None),
        !(content is CrudStatus) ==> store_meta_outcome(
            DhtMetaDataView { attribute: "status"@, content },
        ) == Err::<Option<WorkflowView>, HandlerError>(HandlerError::CorruptPayload),
{
    reveal_strlit("link");
    reveal_strlit("status");
    assert(LINK_ATTRIBUTE@.len() == 4);
    assert("status"@.len() == 6);
}

/// Under an attribute that is not recognized the content is not to be decoded,
/// and whatever content is handed over, the instruction is accepted and
/// changes nothing.
pub proof fn unknown_attribute_is_ignored(dht_meta_data: DhtMetaDataView)
    requires
        dht_meta_data.attribute != LINK_ATTRIBUTE@,
        dht_meta_data.attribute != STATUS_NAME@,
        dht_meta_data.attribute != LINK_NAME@,
    ensures
        content_kind_for(dht_meta_data.attribute) == MetaContentKind::Nothing,
        store_meta_outcome(dht_meta_data) == Ok::<Option<WorkflowView>, HandlerError>(None),
{
}

} // verus!
