//! The actor discipline's worker side: one logical owner of a store,
//! executing commands in arrival order.
//!
//! The worker thread itself is spawned by the program around this library;
//! its loop is one [`serve_next`] call per command, and it stops once
//! [`serve_next`] reports that every sender is gone. The work done per
//! command — the store operation and the reply — is verified here.

use vstd::prelude::*;

use crate::channel;
use crate::data::{Status, Ticket, TicketDraft, TicketId, TicketPatch};
use crate::store::{add_effect, patched, NotFoundError, TicketStore};

verus! {

/// A request to the worker, carrying the private channel on which the one
/// answer to it is sent back.
#[allow(inconsistent_fields)]
pub enum Command {
    Insert { draft: TicketDraft, response_channel: std::sync::mpsc::SyncSender<TicketId> },
    Get { id: TicketId, response_channel: std::sync::mpsc::SyncSender<Option<Ticket>> },
    Update {
        patch: TicketPatch,
        response_channel: std::sync::mpsc::SyncSender<Result<(), NotFoundError>>,
    },
}

/// How executing one command changes the store's contents: an insert
/// appends under the next identifier, a get changes nothing, and an update
/// patches the named ticket or, if the identifier is unknown, changes
/// nothing.
pub open spec fn command_effect(pre: Seq<Ticket>, cmd: Command, post: Seq<Ticket>) -> bool {
    match cmd {
        Command::Insert { draft, .. } => exists|id: TicketId| add_effect(pre, draft, post, id),
        Command::Get { .. } => post == pre,
        Command::Update { patch, .. } => {
            if patch.id.0 < pre.len() {
                post == pre.update(patch.id.0 as int, post[patch.id.0 as int]) && patched(
                    pre[patch.id.0 as int],
                    post[patch.id.0 as int],
                    patch,
                )
            } else {
                post == pre
            }
        },
    }
}

/// Executes one command against the store and answers on the command's
/// private reply channel. A caller that hung up before the answer is
/// ignored: the reply is dropped and the worker keeps serving.
pub fn handle_command(store: &mut TicketStore, cmd: Command)
    ensures
        command_effect(old(store)@, cmd, final(store)@),
{
    match cmd {
        Command::Insert { draft, response_channel } => {
            let id = store.add_ticket(draft);
            let _ = channel::send(&response_channel, id);
        },
        Command::Get { id, response_channel } => {
            let reply = match store.get(id) {
                Some(t) => Some(t.clone()),
                None => None,
            };
            let _ = channel::send(&response_channel, reply);
        },
        Command::Update { patch, response_channel } => {
            let r = store.patch(patch);
            let _ = channel::send(&response_channel, r);
        },
    }
}

/// Blocks for the next command, executes it, and says whether more can
/// come: false only once every sender is gone and the queue is drained,
/// which is the worker's sole termination condition.
pub fn serve_next(store: &mut TicketStore, receiver: &std::sync::mpsc::Receiver<Command>) -> (more:
    bool)
    ensures
        !more ==> final(store)@ == old(store)@,
        more ==> exists|cmd: Command| command_effect(old(store)@, cmd, final(store)@),
{
    match channel::recv(receiver) {
        Some(cmd) => {
            handle_command(store, cmd);
            true
        },
        None => false,
    }
}

/// Whether a command leaves the ticket under `id` untouched: anything but
/// an update that names that very ticket.
pub open spec fn spares_ticket(cmd: Command, id: TicketId) -> bool {
    match cmd {
        Command::Update { patch, .. } => patch.id != id,
        _ => true,
    }
}

/// One command leaves every ticket it does not target exactly as it was:
/// an insert only appends, a get changes nothing, and an update rewrites
/// only the ticket its patch names.
pub proof fn lemma_command_preserves_spared_ticket(
    pre: Seq<Ticket>,
    cmd: Command,
    post: Seq<Ticket>,
    id: TicketId,
)
    requires
        command_effect(pre, cmd, post),
        spares_ticket(cmd, id),
        id.0 < pre.len(),
    ensures
        pre.len() <= post.len(),
        post[id.0 as int] == pre[id.0 as int],
{
    match cmd {
        Command::Insert { draft, .. } => {
            let new_id = choose|new_id: TicketId| add_effect(pre, draft, post, new_id);
            assert(add_effect(pre, draft, post, new_id));
        },
        Command::Get { .. } => {},
        Command::Update { .. } => {},
    }
}

/// A ticket fetched any time after it was added still shows exactly the
/// draft's fields, the returned identifier, and the `ToDo` status,
/// however many commands were applied in between, as long as none of them
/// was an update naming that very ticket. `states` is the chain of store
/// contents after the add: `states[k]` before the `k`-th later command,
/// `states[k + 1]` after it.
pub proof fn lemma_added_ticket_survives(
    pre: Seq<Ticket>,
    draft: TicketDraft,
    id: TicketId,
    states: Seq<Seq<Ticket>>,
    cmds: Seq<Command>,
)
    requires
        states.len() == cmds.len() + 1,
        add_effect(pre, draft, states[0], id),
        forall|k: int|
            0 <= k < cmds.len() ==> command_effect(states[k], #[trigger] cmds[k], states[k + 1]),
        forall|k: int| 0 <= k < cmds.len() ==> spares_ticket(#[trigger] cmds[k], id),
    ensures
        id.0 < states.last().len(),
        states.last()[id.0 as int] == (Ticket {
            id,
            title: draft.title,
            description: draft.description,
            status: Status::ToDo,
        }),
    decreases cmds.len(),
{
    if cmds.len() > 0 {
        let n = cmds.len() as int;
        assert forall|k: int| 0 <= k < n - 1 implies command_effect(
            states.drop_last()[k],
            #[trigger] cmds.drop_last()[k],
            states.drop_last()[k + 1],
        ) by {
            assert(command_effect(states[k], cmds[k], states[k + 1]));
        }
        lemma_added_ticket_survives(pre, draft, id, states.drop_last(), cmds.drop_last());
        assert(states.drop_last().last() == states[n - 1]);
        lemma_command_preserves_spared_ticket(states[n - 1], cmds[n - 1], states[n], id);
    }
}

} // verus!
