//! What the handlers ask of the rest of the node: commands for the reducer,
//! and workflows to run.

use crate::address::Address;
use crate::direct_message::{package_view, ValidationPackage};
use crate::entry::{Entry, EntryView, Link, LinkView};
use crate::error::HandlerError;
use vstd::prelude::*;

verus! {

/// A command for the reducer, which applies commands to the node's state one
/// after another.
#[derive(Debug, PartialEq, Eq)]
pub enum Action {
    /// A request for a validation package has been answered: the address of
    /// the entry that the request was about, and the package, if one came.
    HandleGetValidationPackage((Address, Option<ValidationPackage>)),
}

/// The mathematical value of an [`Action`].
pub enum ActionView {
    HandleGetValidationPackage((Seq<char>, Option<Seq<char>>)),
}

impl View for Action {
    type V = ActionView;

    open spec fn view(&self) -> ActionView {
        match *self {
            Action::HandleGetValidationPackage((address, package)) => {
                ActionView::HandleGetValidationPackage((address@, package_view(package)))
            },
        }
    }
}

/// A workflow that a handler wants run. The handler has decided; running the
/// workflow, and waiting for it where that is called for, is the caller's part.
#[derive(Debug, PartialEq, Eq)]
pub enum Workflow {
    /// Compose the validation package of the entry at `requested_entry_address`
    /// and send it to `to_agent_id` as the reply to the request `msg_id`.
    RespondValidationPackageRequest {
        to_agent_id: Address,
        msg_id: String,
        requested_entry_address: Address,
    },
    /// Hold the entry, and wait until that is done.
    HoldEntry(Entry),
    /// Attach the link to the entry at its base, and wait until that is done.
    AddLink(Link),
}

/// The mathematical value of a [`Workflow`].
pub enum WorkflowView {
    RespondValidationPackageRequest {
        to_agent_id: Seq<char>,
        msg_id: Seq<char>,
        requested_entry_address: Seq<char>,
    },
    HoldEntry(EntryView),
    AddLink(LinkView),
}

impl View for Workflow {
    type V = WorkflowView;

    open spec fn view(&self) -> WorkflowView {
        match *self {
            Workflow::RespondValidationPackageRequest {
                to_agent_id,
                msg_id,
                requested_entry_address,
            } => WorkflowView::RespondValidationPackageRequest {
                to_agent_id: to_agent_id@,
                msg_id: msg_id@,
                requested_entry_address: requested_entry_address@,
            },
            Workflow::HoldEntry(entry) => WorkflowView::HoldEntry(entry@),
            Workflow::AddLink(link) => WorkflowView::AddLink(link@),
        }
    }
}

/// The mathematical value of what a handler returns: the workflow that it
/// wants run, if any, or why it refused the event.
pub open spec fn outcome_view(outcome: Result<Option<Workflow>, HandlerError>) -> Result<
    Option<WorkflowView>,
    HandlerError,
> {
    match outcome {
        Ok(Some(workflow)) => Ok(Some(workflow@)),
        Ok(None) => Ok(None),
        Err(e) => Err(e),
    }
}

} // verus!
