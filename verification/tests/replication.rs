use network_handler::action::Workflow;
use network_handler::address::Address;
use network_handler::entry::{ChainHeader, CrudStatus, Entry, EntryWithHeader, Link};
use network_handler::error::HandlerError;
use network_handler::protocol::{
    DecodeError, DhtData, DhtMetaData, MetaContent, MetaContentKind, LINK_ATTRIBUTE, LINK_NAME,
    STATUS_NAME,
};
use network_handler::context::Context;
use network_handler::store::{
    add_link_failed, expected_content_kind, handle_store_dht, handle_store_dht_meta,
    hold_entry_failed, ADD_LINK_FAILED, HOLD_ENTRY_FAILED,
};

fn link(base: &str, target: &str, tag: &str) -> Link {
    Link {
        base: Address::new(base.to_string()),
        target: Address::new(target.to_string()),
        tag: tag.to_string(),
    }
}

fn with_header(entry_body: Entry) -> EntryWithHeader {
    EntryWithHeader { entry_body, header: ChainHeader::new("{\"timestamp\":\"now\"}".to_string()) }
}

fn app_entry() -> Entry {
    Entry::App("post".to_string(), "\"hello\"".to_string())
}

fn meta(attribute: &str, content: MetaContent) -> DhtMetaData {
    DhtMetaData { attribute: attribute.to_string(), content }
}

fn every_content() -> Vec<MetaContent> {
    vec![
        MetaContent::Undecoded,
        MetaContent::Malformed(DecodeError {}),
        MetaContent::EntryWithHeader(with_header(Entry::LinkAdd(link("b", "t", "tag")))),
        MetaContent::EntryWithHeader(with_header(app_entry())),
        MetaContent::CrudStatus(CrudStatus::Live),
        MetaContent::Address(Address::new("addrX".to_string())),
    ]
}

#[test]
fn attribute_names() {
    assert_eq!(LINK_ATTRIBUTE, "link");
    assert_eq!(STATUS_NAME, "status");
    assert_eq!(LINK_NAME, "crud-link");
}

#[test]
fn entry_is_held() {
    let outcome = handle_store_dht(DhtData { content: Ok(with_header(app_entry())) });
    assert_eq!(outcome, Ok(Workflow::HoldEntry(app_entry())));
}

#[test]
fn entry_of_every_kind_is_held() {
    let entries = vec![
        app_entry(),
        Entry::Deletion(Address::new("gone".to_string())),
        Entry::LinkAdd(link("b", "t", "tag")),
        Entry::LinkRemove(link("b", "t", "tag")),
    ];
    for entry in entries {
        let outcome = handle_store_dht(DhtData { content: Ok(with_header(entry.clone())) });
        assert_eq!(outcome, Ok(Workflow::HoldEntry(entry)));
    }
}

#[test]
fn undecodable_entry_is_corrupt() {
    let outcome = handle_store_dht(DhtData { content: Err(DecodeError {}) });
    assert_eq!(outcome, Err(HandlerError::CorruptPayload));
}

#[test]
fn content_kind_follows_attribute() {
    assert_eq!(expected_content_kind("link"), MetaContentKind::EntryWithHeader);
    assert_eq!(expected_content_kind("status"), MetaContentKind::CrudStatus);
    assert_eq!(expected_content_kind("crud-link"), MetaContentKind::Address);
    assert_eq!(expected_content_kind("Status"), MetaContentKind::Nothing);
    assert_eq!(expected_content_kind("statu"), MetaContentKind::Nothing);
    assert_eq!(expected_content_kind("status "), MetaContentKind::Nothing);
    assert_eq!(expected_content_kind(""), MetaContentKind::Nothing);
    assert_eq!(expected_content_kind("Link"), MetaContentKind::Nothing);
    assert_eq!(expected_content_kind("link "), MetaContentKind::Nothing);
    assert_eq!(expected_content_kind("crud"), MetaContentKind::Nothing);
}

#[test]
fn link_is_added() {
    let outcome = handle_store_dht_meta(meta(
        "link",
        MetaContent::EntryWithHeader(with_header(Entry::LinkAdd(link("base", "target", "likes")))),
    ));
    assert_eq!(outcome, Ok(Some(Workflow::AddLink(link("base", "target", "likes")))));
}

#[test]
fn app_entry_under_link_attribute_is_refused() {
    let outcome =
        handle_store_dht_meta(meta("link", MetaContent::EntryWithHeader(with_header(app_entry()))));
    assert_eq!(outcome, Err(HandlerError::NotALink));
}

#[test]
fn other_entries_under_link_attribute_are_refused() {
    let removal = handle_store_dht_meta(meta(
        "link",
        MetaContent::EntryWithHeader(with_header(Entry::LinkRemove(link("b", "t", "tag")))),
    ));
    assert_eq!(removal, Err(HandlerError::NotALink));
    let deletion = handle_store_dht_meta(meta(
        "link",
        MetaContent::EntryWithHeader(with_header(Entry::Deletion(Address::new("x".to_string())))),
    ));
    assert_eq!(deletion, Err(HandlerError::NotALink));
}

#[test]
fn undecodable_link_is_corrupt() {
    let outcome = handle_store_dht_meta(meta("link", MetaContent::Malformed(DecodeError {})));
    assert_eq!(outcome, Err(HandlerError::CorruptPayload));
}

#[test]
fn content_of_another_kind_is_corrupt() {
    let under_link = vec![
        MetaContent::Undecoded,
        MetaContent::CrudStatus(CrudStatus::Live),
        MetaContent::Address(Address::new("addrX".to_string())),
    ];
    for content in under_link {
        assert_eq!(handle_store_dht_meta(meta("link", content)), Err(HandlerError::CorruptPayload));
    }
    let under_status = vec![
        MetaContent::Undecoded,
        MetaContent::Malformed(DecodeError {}),
        MetaContent::EntryWithHeader(with_header(Entry::LinkAdd(link("b", "t", "tag")))),
        MetaContent::Address(Address::new("addrX".to_string())),
    ];
    for content in under_status {
        assert_eq!(
            handle_store_dht_meta(meta("status", content)),
            Err(HandlerError::CorruptPayload)
        );
    }
    let under_crud_link = vec![
        MetaContent::Undecoded,
        MetaContent::Malformed(DecodeError {}),
        MetaContent::EntryWithHeader(with_header(Entry::LinkAdd(link("b", "t", "tag")))),
        MetaContent::CrudStatus(CrudStatus::Deleted),
    ];
    for content in under_crud_link {
        assert_eq!(
            handle_store_dht_meta(meta("crud-link", content)),
            Err(HandlerError::CorruptPayload)
        );
    }
}

#[test]
fn every_status_is_checked_and_changes_nothing() {
    let statuses = vec![
        CrudStatus::Live,
        CrudStatus::Rejected,
        CrudStatus::Deleted,
        CrudStatus::Modified,
        CrudStatus::Locked,
    ];
    for status in statuses {
        let outcome = handle_store_dht_meta(meta(STATUS_NAME, MetaContent::CrudStatus(status)));
        assert_eq!(outcome, Ok(None));
    }
}

#[test]
fn crud_link_is_checked_and_changes_nothing() {
    let outcome = handle_store_dht_meta(meta(
        LINK_NAME,
        MetaContent::Address(Address::new("addrX".to_string())),
    ));
    assert_eq!(outcome, Ok(None));
}

#[test]
fn status_metadata_is_accepted_without_workflow() {
    assert_eq!(expected_content_kind("status"), MetaContentKind::CrudStatus);
    assert_eq!(
        handle_store_dht_meta(meta("status", MetaContent::CrudStatus(CrudStatus::Deleted))),
        Ok(None)
    );
}

#[test]
fn undecodable_status_is_corrupt() {
    assert_eq!(
        handle_store_dht_meta(meta("status", MetaContent::Malformed(DecodeError {}))),
        Err(HandlerError::CorruptPayload)
    );
    assert_eq!(
        handle_store_dht_meta(meta("status", MetaContent::Undecoded)),
        Err(HandlerError::CorruptPayload)
    );
}

#[test]
fn unknown_attribute_is_ignored_whatever_the_content() {
    for attribute in ["", "Status", "links", "LINK", "state", "future-attribute"] {
        assert_eq!(expected_content_kind(attribute), MetaContentKind::Nothing);
        for content in every_content() {
            assert_eq!(handle_store_dht_meta(meta(attribute, content)), Ok(None));
        }
    }
}

#[test]
fn only_link_attribute_runs_a_workflow() {
    for attribute in ["status", "crud-link", "state", ""] {
        for content in every_content() {
            let outcome = handle_store_dht_meta(meta(attribute, content));
            assert!(!matches!(outcome, Ok(Some(_))));
        }
    }
}

#[test]
fn clone_keeps_every_entry() {
    let entry = with_header(Entry::LinkAdd(link("b", "t", "tag")));
    assert_eq!(entry.clone(), entry);
    assert_eq!(entry.header.clone().content, "{\"timestamp\":\"now\"}");
    assert_eq!(link("b", "t", "tag").clone(), link("b", "t", "tag"));
    assert_ne!(link("b", "t", "tag"), link("b", "t", "other"));
}

#[test]
fn failed_workflows_are_recorded() {
    let mut context = Context::new();
    hold_entry_failed("disk full", &mut context);
    add_link_failed("base is not held", &mut context);
    hold_entry_failed("", &mut context);
    assert_eq!(
        context.logger,
        vec![
            "Holding an entry failed: disk full".to_string(),
            "Adding a link failed: base is not held".to_string(),
            "Holding an entry failed: ".to_string(),
        ]
    );
    assert_eq!(HOLD_ENTRY_FAILED, "Holding an entry failed: ");
    assert_eq!(ADD_LINK_FAILED, "Adding a link failed: ");
    assert!(context.action_channel.is_empty());
    assert!(context.direct_message_connections.is_empty());
}
