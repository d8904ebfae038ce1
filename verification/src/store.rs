//! The sequential ticket store: identifier allocation, lookup, patching.
//!
//! The store owns the mapping from identifiers to tickets. Identifiers are
//! the positions at which tickets were inserted, so they are dense, unique,
//! and strictly increasing across `add_ticket` calls; no ticket is ever
//! removed.

use vstd::prelude::*;

use crate::data::{Status, Ticket, TicketDraft, TicketId, TicketPatch};

verus! {

/// The error returned when an operation names an identifier that the store
/// does not hold. Recoverable: the store itself is left untouched.
#[derive(Clone, Copy, Debug, PartialEq, Eq, Structural)]
pub struct NotFoundError;

/// Every ticket's identifier equals its position in the sequence.
pub open spec fn ids_match(tickets: Seq<Ticket>) -> bool {
    forall|i: int| 0 <= i < tickets.len() ==> (#[trigger] tickets[i]).id.0 == i
}

/// What one `add_ticket` call does: the draft becomes a `ToDo` ticket under
/// the next free identifier, appended to the store's contents.
pub open spec fn add_effect(
    pre: Seq<Ticket>,
    draft: TicketDraft,
    post: Seq<Ticket>,
    id: TicketId,
) -> bool {
    &&& id.0 == pre.len()
    &&& post == pre.push(
        (Ticket { id, title: draft.title, description: draft.description, status: Status::ToDo }),
    )
}

/// How a patched ticket relates to the ticket it replaces: a present field
/// replaces the old value, an absent field leaves it unchanged, and the
/// identifier never moves.
pub open spec fn patched(before: Ticket, after: Ticket, p: TicketPatch) -> bool {
    &&& after.id == before.id
    &&& after.title == (match p.title {
        Some(t) => t,
        None => before.title,
    })
    &&& after.description == (match p.description {
        Some(d) => d,
        None => before.description,
    })
    &&& after.status == (match p.status {
        Some(s) => s,
        None => before.status,
    })
}

/// An in-memory collection of tickets, keyed by [`TicketId`].
///
/// Tickets live at the position their identifier names, so the view is the
/// sequence of tickets in allocation order.
pub struct TicketStore {
    tickets: Vec<Ticket>,
}

impl View for TicketStore {
    type V = Seq<Ticket>;

    closed spec fn view(&self) -> Seq<Ticket> {
        self.tickets@
    }
}

impl TicketStore {
    /// An empty store; the first allocated identifier will be 0.
    pub fn new() -> (s: Self)
        ensures
            s@ == Seq::<Ticket>::empty(),
    {
        TicketStore { tickets: Vec::new() }
    }

    /// All tickets the store holds, in identifier order.
    pub fn tickets(&self) -> (r: &Vec<Ticket>)
        ensures
            r@ == self@,
    {
        &self.tickets
    }

    /// How many tickets the store holds; also the next identifier.
    pub fn len(&self) -> (n: usize)
        ensures
            n == self@.len(),
    {
        self.tickets.len()
    }

    /// Allocates the next identifier, inserts the draft as a `ToDo` ticket
    /// under it, and returns it. Never fails.
    pub fn add_ticket(&mut self, draft: TicketDraft) -> (id: TicketId)
        ensures
            add_effect(old(self)@, draft, final(self)@, id),
    {
        let id = TicketId(self.tickets.len() as u64);
        let ticket = Ticket {
            id,
            title: draft.title,
            description: draft.description,
            status: Status::ToDo,
        };
        self.tickets.push(ticket);
        id
    }

    /// A read view of the ticket under `id`, if the store holds one.
    pub fn get(&self, id: TicketId) -> (r: Option<&Ticket>)
        ensures
            r is Some <==> id.0 < self@.len(),
            r matches Some(t) ==> *t == self@[id.0 as int],
    {
        if id.0 < self.tickets.len() as u64 {
            let i = id.0 as usize;
            Some(&self.tickets[i])
        } else {
            None
        }
    }

    /// Applies the present fields of `p` to the ticket under `p.id`, leaving
    /// absent fields untouched. Fails with [`NotFoundError`], and changes
    /// nothing, when the store holds no such ticket.
    pub fn patch(&mut self, p: TicketPatch) -> (r: Result<(), NotFoundError>)
        ensures
            r is Ok <==> p.id.0 < old(self)@.len(),
            r is Err ==> final(self)@ == old(self)@,
            r is Ok ==> final(self)@ == old(self)@.update(
                p.id.0 as int,
                final(self)@[p.id.0 as int],
            ) && patched(old(self)@[p.id.0 as int], final(self)@[p.id.0 as int], p),
    {
        let TicketPatch { id, title, description, status } = p;
        if id.0 < self.tickets.len() as u64 {
            let i = id.0 as usize;
            let t = &mut self.tickets[i];
            if let Some(new_title) = title {
                t.title = new_title;
            }
            if let Some(new_description) = description {
                t.description = new_description;
            }
            if let Some(new_status) = status {
                t.status = new_status;
            }
            Ok(())
        } else {
            Err(NotFoundError)
        }
    }
}

/// The by-value form of patching, for callers that hold a ticket outside
/// a store: present fields of `p` replace the ticket's, absent fields and
/// the identifier stay.
pub fn apply_patch(before: Ticket, p: TicketPatch) -> (after: Ticket)
    ensures
        patched(before, after, p),
{
    let Ticket { id, title, description, status } = before;
    let TicketPatch { id: _, title: new_title, description: new_description, status: new_status } =
        p;
    Ticket {
        id,
        title: match new_title {
            Some(t) => t,
            None => title,
        },
        description: match new_description {
            Some(d) => d,
            None => description,
        },
        status: match new_status {
            Some(s) => s,
            None => status,
        },
    }
}

/// Adding a ticket keeps identifiers equal to positions.
pub proof fn lemma_add_preserves_ids_match(
    pre: Seq<Ticket>,
    draft: TicketDraft,
    post: Seq<Ticket>,
    id: TicketId,
)
    requires
        ids_match(pre),
        add_effect(pre, draft, post, id),
    ensures
        ids_match(post),
{
}

/// Patching a ticket keeps identifiers equal to positions.
pub proof fn lemma_patch_preserves_ids_match(
    pre: Seq<Ticket>,
    post: Seq<Ticket>,
    i: int,
    p: TicketPatch,
)
    requires
        ids_match(pre),
        0 <= i < pre.len(),
        post == pre.update(i, post[i]),
        patched(pre[i], post[i], p),
    ensures
        ids_match(post),
{
}

/// In a well-formed store, no identifier appears twice.
pub proof fn lemma_ids_unique(tickets: Seq<Ticket>)
    requires
        ids_match(tickets),
    ensures
        forall|i: int, j: int|
            0 <= i < j < tickets.len() ==> #[trigger] tickets[i].id != #[trigger] tickets[j].id,
{
}

/// Across any sequence of `add_ticket` calls on one store, the returned
/// identifiers grow strictly, so they are also unique among each other.
///
/// `states` is the chain of store contents: `states[k]` before the `k`-th
/// add, `states[k + 1]` after it.
pub proof fn lemma_add_ids_strictly_increasing(
    states: Seq<Seq<Ticket>>,
    drafts: Seq<TicketDraft>,
    ids: Seq<TicketId>,
)
    requires
        states.len() == ids.len() + 1,
        drafts.len() == ids.len(),
        forall|k: int|
            0 <= k < ids.len() ==> add_effect(states[k], drafts[k], states[k + 1], #[trigger] ids[k]),
    ensures
        forall|j: int, k: int| 0 <= j < k < ids.len() ==> ids[j].0 < ids[k].0,
{
    assert forall|j: int, k: int| 0 <= j < k < ids.len() implies ids[j].0 < ids[k].0 by {
        lemma_store_len_after_adds(states, drafts, ids, j);
        lemma_store_len_after_adds(states, drafts, ids, k);
    }
}

/// After `k` adds the store holds `k` more tickets than it started with.
pub proof fn lemma_store_len_after_adds(
    states: Seq<Seq<Ticket>>,
    drafts: Seq<TicketDraft>,
    ids: Seq<TicketId>,
    k: int,
)
    requires
        states.len() == ids.len() + 1,
        drafts.len() == ids.len(),
        forall|i: int|
            0 <= i < ids.len() ==> add_effect(states[i], drafts[i], states[i + 1], #[trigger] ids[i]),
        0 <= k < ids.len(),
    ensures
        ids[k].0 == states[0].len() + k,
    decreases k,
{
    if k > 0 {
        lemma_store_len_after_adds(states, drafts, ids, k - 1);
    }
}

/// Fetching a ticket right after adding it shows exactly the draft's title
/// and description, the returned identifier, and the `ToDo` status.
pub proof fn lemma_add_then_get(
    pre: Seq<Ticket>,
    draft: TicketDraft,
    post: Seq<Ticket>,
    id: TicketId,
)
    requires
        add_effect(pre, draft, post, id),
    ensures
        id.0 < post.len(),
        post[id.0 as int] == (Ticket {
            id,
            title: draft.title,
            description: draft.description,
            status: Status::ToDo,
        }),
{
}

/// A patch that carries only a status changes only the status: the title
/// and the description stay exactly as they were, as does the identifier.
pub proof fn lemma_status_only_patch(before: Ticket, after: Ticket, p: TicketPatch)
    requires
        p.title is None,
        p.description is None,
        patched(before, after, p),
    ensures
        after.title == before.title,
        after.description == before.description,
        after.id == before.id,
        p.status matches Some(s) ==> after.status == s,
        p.status is None ==> after.status == before.status,
{
}

/// Two `add_ticket` calls from two callers, serialized in either order by
/// the store's owner: both succeed, the identifiers differ, and afterwards
/// each ticket is retrievable with its own draft's fields.
pub proof fn lemma_two_adds_both_retrievable(
    pre: Seq<Ticket>,
    d1: TicketDraft,
    mid: Seq<Ticket>,
    id1: TicketId,
    d2: TicketDraft,
    post: Seq<Ticket>,
    id2: TicketId,
)
    requires
        add_effect(pre, d1, mid, id1),
        add_effect(mid, d2, post, id2),
    ensures
        id1 != id2,
        id1.0 < post.len() && post[id1.0 as int] == (Ticket {
            id: id1,
            title: d1.title,
            description: d1.description,
            status: Status::ToDo,
        }),
        id2.0 < post.len() && post[id2.0 as int] == (Ticket {
            id: id2,
            title: d2.title,
            description: d2.description,
            status: Status::ToDo,
        }),
{
}

} // verus!
