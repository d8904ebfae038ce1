//! The entity model: tickets, drafts, patches, and their identifiers.

use vstd::prelude::*;

use crate::description::TicketDescription;
use crate::title::TicketTitle;

verus! {

/// The identifier of a ticket, allocated by the store.
///
/// Identifiers are unique for the lifetime of one store instance, allocated
/// in strictly increasing order, and never reused.
#[derive(Clone, Copy, Debug, PartialEq, Eq, PartialOrd, Ord, Hash, Structural)]
pub struct TicketId(pub u64);

/// The workflow state of a ticket. Any status may follow any other.
#[derive(Clone, Copy, Debug, PartialEq, Eq, Structural)]
pub enum Status {
    ToDo,
    InProgress,
    Done,
}

/// A ticket held by the store.
#[derive(Debug)]
pub struct Ticket {
    pub id: TicketId,
    pub title: TicketTitle,
    pub description: TicketDescription,
    pub status: Status,
}

/// The creation payload: the store assigns the identifier and the initial
/// `ToDo` status itself.
#[derive(Debug)]
pub struct TicketDraft {
    pub title: TicketTitle,
    pub description: TicketDescription,
}

/// A sparse update: an absent field leaves the corresponding ticket field
/// unchanged, a present field replaces it unconditionally.
#[derive(Debug)]
pub struct TicketPatch {
    pub id: TicketId,
    pub title: Option<TicketTitle>,
    pub description: Option<TicketDescription>,
    pub status: Option<Status>,
}

impl Clone for Ticket {
    fn clone(&self) -> (r: Self)
        ensures
            r == *self,
    {
        Ticket {
            id: self.id,
            title: self.title.clone(),
            description: self.description.clone(),
            status: self.status,
        }
    }
}

impl Clone for TicketDraft {
    fn clone(&self) -> (r: Self)
        ensures
            r == *self,
    {
        TicketDraft { title: self.title.clone(), description: self.description.clone() }
    }
}

impl PartialEq for Ticket {
    fn eq(&self, other: &Ticket) -> (r: bool) {
        self.id == other.id && self.title == other.title && self.description
            == other.description && self.status == other.status
    }
}

impl vstd::std_specs::cmp::PartialEqSpecImpl for Ticket {
    open spec fn obeys_eq_spec() -> bool {
        true
    }

    open spec fn eq_spec(&self, other: &Ticket) -> bool {
        self.id == other.id && self.title@ == other.title@ && self.description@
            == other.description@ && self.status == other.status
    }
}

} // verus!
