//! The part of a node's state that the handlers read and write.

use crate::action::{Action, ActionView};
use crate::direct_message::DirectMessageView;
use crate::pending::PendingRequestTable;
use vstd::prelude::*;

verus! {

/// The part of a node's state that the handlers read and write.
pub struct Context {
    /// The diagnostics recorded so far, oldest first.
    pub logger: Vec<String>,
    /// The requests that this node has sent and that wait for their reply.
    /// The handlers only read it.
    pub direct_message_connections: PendingRequestTable,
    /// The commands submitted for reduction and not yet taken by the reducer,
    /// oldest first.
    pub action_channel: Vec<Action>,
}

/// The mathematical value of a [`Context`].
pub struct ContextView {
    pub logger: Seq<Seq<char>>,
    pub direct_message_connections: Map<Seq<char>, DirectMessageView>,
    pub action_channel: Seq<ActionView>,
}

impl ContextView {
    /// This state with one more diagnostic recorded.
    pub open spec fn log(self, msg: Seq<char>) -> ContextView {
        ContextView { logger: self.logger.push(msg), ..self }
    }

    /// This state with one more command submitted.
    pub open spec fn dispatch(self, action: ActionView) -> ContextView {
        ContextView { action_channel: self.action_channel.push(action), ..self }
    }
}

impl View for Context {
    type V = ContextView;

    open spec fn view(&self) -> ContextView {
        ContextView {
            logger: self.logger@.map_values(|msg: String| msg@),
            direct_message_connections: self.direct_message_connections@,
            action_channel: self.action_channel@.map_values(|action: Action| action@),
        }
    }
}

impl Context {
    /// A state with nothing recorded, nothing pending and nothing submitted.
    pub fn new() -> (context: Context)
        ensures
            context@ == (ContextView {
                logger: Seq::empty(),
                direct_message_connections: Map::empty(),
                action_channel: Seq::empty(),
            }),
    {
        let context = Context {
            logger: Vec::new(),
            direct_message_connections: PendingRequestTable::new(),
            action_channel: Vec::new(),
        };
        assert(context@.logger =~= Seq::empty());
        assert(context@.action_channel =~= Seq::empty());
        context
    }
}

/// Submits a command for reduction. The command is queued; nothing waits for
/// the reducer.
pub fn dispatch_action(context: &mut Context, action: Action)
    ensures
        final(context)@ == old(context)@.dispatch(action@),
{
    context.action_channel.push(action);
    assert(context@.action_channel =~= old(context)@.action_channel.push(action@));
}

} // verus!
