//! Direct messages that arrive: requests that a peer starts, and replies to
//! requests that this node has sent.

use crate::action::{outcome_view, Action, ActionView, Workflow, WorkflowView};
use crate::address::Address;
use crate::context::{dispatch_action, Context, ContextView};
use crate::direct_message::{DirectMessage, DirectMessageView};
use crate::error::HandlerError;
use crate::protocol::{MessageData, MessageDataView};
use vstd::prelude::*;

verus! {

/// The diagnostic for an application-defined message: this layer does not
/// handle them.
pub const CUSTOM_NOT_IMPLEMENTED: &'static str = "DirectMessage::Custom not implemented";

/// The diagnostic for a validation package that comes as a request.
pub const VALIDATION_PACKAGE_AS_REQUEST: &'static str =
    "Got DirectMessage::ValidationPackage as initial message. This should not happen.";

/// The diagnostic for a request for a validation package that comes as a reply.
pub const REQUEST_AS_RESPONSE: &'static str =
    "Got DirectMessage::RequestValidationPackage as a response. This should not happen.";

/// The diagnostic for a validation package that answers no pending request.
pub const ORPHANED_VALIDATION_PACKAGE: &'static str =
    "Received a validation package but could not find message ID in history. Not able to process.";

/// Records a diagnostic.
pub fn log(context: &mut Context, msg: &str)
    ensures
        final(context)@ == old(context)@.log(msg@),
{
    context.logger.push(msg.to_owned());
    assert(context@.logger =~= old(context)@.logger.push(msg@));
}

/// What [`handle_send`] returns for a message.
///
/// A request for a validation package is passed on to the responder, with the
/// sender and the id of the request, so that the reply finds its way back.
/// Every other message that decodes asks for nothing.
pub open spec fn send_outcome(message_data: MessageDataView) -> Result<
    Option<WorkflowView>,
    HandlerError,
> {
    match message_data.data {
        Err(_) => Err(HandlerError::CorruptPayload),
        Ok(DirectMessageView::RequestValidationPackage(address)) => Ok(
            Some(
                WorkflowView::RespondValidationPackageRequest {
                    to_agent_id: message_data.from_agent_id,
                    msg_id: message_data.msg_id,
                    requested_entry_address: address,
                },
            ),
        ),
        Ok(_) => Ok(None),
    }
}

/// The state that [`handle_send`] leaves behind.
///
/// Only a diagnostic is ever added: for a message that is not handled, and for
/// a reply that comes where a request is expected.
pub open spec fn send_context(context: ContextView, message_data: MessageDataView) -> ContextView {
    match message_data.data {
        Ok(DirectMessageView::Custom(_)) => context.log(CUSTOM_NOT_IMPLEMENTED@),
        Ok(DirectMessageView::ValidationPackage(_)) => context.log(
            VALIDATION_PACKAGE_AS_REQUEST@,
        ),
        _ => context,
    }
}

/// A peer starts an exchange: it has sent this node a direct message.
pub fn handle_send(message_data: MessageData, context: &mut Context) -> (outcome: Result<
    Option<Workflow>,
    HandlerError,
>)
    ensures
        outcome_view(outcome) == send_outcome(message_data@),
        final(context)@ == send_context(old(context)@, message_data@),
{
    let MessageData { msg_id, from_agent_id, data } = message_data;
    match data {
        Err(_) => Err(HandlerError::CorruptPayload),
        Ok(DirectMessage::Custom(_)) => {
            log(context, CUSTOM_NOT_IMPLEMENTED);
            Ok(None)
        },
        Ok(DirectMessage::RequestValidationPackage(address)) => Ok(
            Some(
                Workflow::RespondValidationPackageRequest {
                    to_agent_id: Address::new(from_agent_id),
                    msg_id,
                    requested_entry_address: address,
                },
            ),
        ),
        Ok(DirectMessage::ValidationPackage(_)) => {
            log(context, VALIDATION_PACKAGE_AS_REQUEST);
            Ok(None)
        },
    }
}

/// What [`handle_send_result`] returns for a reply.
///
/// Only one thing is refused besides a payload that does not decode: a
/// validation package whose id leads to a pending request of another kind.
pub open spec fn send_result_outcome(context: ContextView, message_data: MessageDataView) -> Result<
    (),
    HandlerError,
> {
    match message_data.data {
        Err(_) => Err(HandlerError::CorruptPayload),
        Ok(DirectMessageView::ValidationPackage(_)) => {
            if context.direct_message_connections.contains_key(message_data.msg_id)
                && !(context.direct_message_connections[message_data.msg_id]
                is RequestValidationPackage) {
                Err(HandlerError::UnexpectedPendingRequest)
            } else {
                Ok(())
            }
        },
        Ok(_) => Ok(()),
    }
}

/// The state that [`handle_send_result`] leaves behind.
///
/// A validation package that answers a pending request for one is submitted to
/// the reducer, with the address that the request was about. One that answers
/// nothing is dropped with a diagnostic, and so is every reply of another
/// kind. A refused reply changes nothing. The table of pending requests is
/// never changed.
pub open spec fn send_result_context(
    context: ContextView,
    message_data: MessageDataView,
) -> ContextView {
    match message_data.data {
        Err(_) => context,
        Ok(DirectMessageView::Custom(_)) => context.log(CUSTOM_NOT_IMPLEMENTED@),
        Ok(DirectMessageView::RequestValidationPackage(_)) => context.log(REQUEST_AS_RESPONSE@),
        Ok(DirectMessageView::ValidationPackage(package)) => {
            if !context.direct_message_connections.contains_key(message_data.msg_id) {
                context.log(ORPHANED_VALIDATION_PACKAGE@)
            } else {
                match context.direct_message_connections[message_data.msg_id] {
                    DirectMessageView::RequestValidationPackage(address) => context.dispatch(
                        ActionView::HandleGetValidationPackage((address, package)),
                    ),
                    _ => context,
                }
            }
        },
    }
}

/// A peer has answered: this is the reply to a message that this node sent.
pub fn handle_send_result(message_data: MessageData, context: &mut Context) -> (outcome: Result<
    (),
    HandlerError,
>)
    ensures
        outcome == send_result_outcome(old(context)@, message_data@),
        final(context)@ == send_result_context(old(context)@, message_data@),
{
    let MessageData { msg_id, from_agent_id: _, data } = message_data;
    match data {
        Err(_) => Err(HandlerError::CorruptPayload),
        Ok(DirectMessage::Custom(_)) => {
            log(context, CUSTOM_NOT_IMPLEMENTED);
            Ok(())
        },
        Ok(DirectMessage::RequestValidationPackage(_)) => {
            log(context, REQUEST_AS_RESPONSE);
            Ok(())
        },
        Ok(DirectMessage::ValidationPackage(maybe_validation_package)) => {
            let initial_message = match context.direct_message_connections.get(msg_id.as_str()) {
                Some(message) => Some(message.clone()),
                None => None,
            };
            match initial_message {
                None => {
                    log(context, ORPHANED_VALIDATION_PACKAGE);
                    Ok(())
                },
                Some(DirectMessage::RequestValidationPackage(address)) => {
                    dispatch_action(
                        context,
                        Action::HandleGetValidationPackage((address, maybe_validation_package)),
                    );
                    Ok(())
                },
                Some(_) => Err(HandlerError::UnexpectedPendingRequest),
            }
        },
    }
}

/// A validation package that answers a pending request for one is submitted
/// to the reducer exactly once, together with the address that the request
/// was about: the two are brought together by the id of the message alone,
/// whoever sends the reply and whatever else is pending.
pub proof fn validation_package_reaches_reducer(
    context: ContextView,
    msg_id: Seq<char>,
    from_agent_id: Seq<char>,
    address: Seq<char>,
    package: Option<Seq<char>>,
)
    requires
        context.direct_message_connections.contains_key(msg_id),
        context.direct_message_connections[msg_id]
            == DirectMessageView::RequestValidationPackage(address),
    ensures
        ({
            let reply = MessageDataView {
                msg_id,
                from_agent_id,
                data: Ok(DirectMessageView::ValidationPackage(package)),
            };
            &&& send_result_outcome(context, reply) == Ok::<(), HandlerError>(())
            &&& send_result_context(context, reply) == context.dispatch(
                ActionView::HandleGetValidationPackage((address, package)),
            )
            &&& send_result_context(context, reply).action_channel.len()
                == context.action_channel.len() + 1
        }),
{
}

/// A request for a validation package that is recorded in the table of
/// pending requests, under any id and in place of whatever stood there, has
/// its answer submitted to the reducer when the answer comes.
pub proof fn recorded_request_is_answered(
    context: ContextView,
    msg_id: Seq<char>,
    from_agent_id: Seq<char>,
    address: Seq<char>,
    package: Option<Seq<char>>,
)
    ensures
        ({
            let waiting = ContextView {
                direct_message_connections: context.direct_message_connections.insert(
                    msg_id,
                    DirectMessageView::RequestValidationPackage(address),
                ),
                ..context
            };
            let reply = MessageDataView {
                msg_id,
                from_agent_id,
                data: Ok(DirectMessageView::ValidationPackage(package)),
            };
            &&& send_result_outcome(waiting, reply) == Ok::<(), HandlerError>(())
            &&& send_result_context(waiting, reply) == waiting.dispatch(
                ActionView::HandleGetValidationPackage((address, package)),
            )
        }),
{
}

/// A reply whose id is not in the table of pending requests submits nothing
/// to the reducer, whatever it holds, and is accepted if only it decodes.
pub proof fn orphaned_reply_submits_nothing(context: ContextView, reply: MessageDataView)
    requires
        !context.direct_message_connections.contains_key(reply.msg_id),
    ensures
        send_result_context(context, reply).action_channel == context.action_channel,
        reply.data is Ok ==> send_result_outcome(context, reply) == Ok::<(), HandlerError>(()),
        reply.data is Err ==> send_result_outcome(context, reply) == Err::<(), HandlerError>(
            HandlerError::CorruptPayload,
        ),
{
}

/// A validation package whose id leads to a pending request of another kind
/// is refused as a fault of this node, and nothing is submitted or recorded.
pub proof fn unexpected_pending_request_is_reported(context: ContextView, reply: MessageDataView)
    requires
        context.direct_message_connections.contains_key(reply.msg_id),
        !(context.direct_message_connections[reply.msg_id] is RequestValidationPackage),
        reply.data matches Ok(message) && message is ValidationPackage,
    ensures
        send_result_outcome(context, reply) == Err::<(), HandlerError>(
            HandlerError::UnexpectedPendingRequest,
        ),
        send_result_context(context, reply) == context,
{
}

/// Neither handler of direct messages changes the table of pending requests,
/// and a message that starts an exchange submits nothing to the reducer.
pub proof fn pending_requests_are_only_read(context: ContextView, message_data: MessageDataView)
    ensures
        send_context(context, message_data).direct_message_connections
            == context.direct_message_connections,
        send_context(context, message_data).action_channel == context.action_channel,
        send_result_context(context, message_data).direct_message_connections
            == context.direct_message_connections,
{
}

/// A reply is judged by the table of pending requests and by nothing else
/// that the handlers write: after any message and any reply have been
/// handled, a reply fares as it would have fared before. A duplicate of a
/// reply is therefore handled as the first was.
pub proof fn earlier_events_do_not_change_the_verdict(
    context: ContextView,
    earlier: MessageDataView,
    reply: MessageDataView,
)
    ensures
        send_result_outcome(send_context(context, earlier), reply) == send_result_outcome(
            context,
            reply,
        ),
        send_result_outcome(send_result_context(context, earlier), reply) == send_result_outcome(
            context,
            reply,
        ),
{
}

} // verus!
