//! The shared-lock discipline: the store behind a multi-reader
//! single-writer lock, and every ticket behind a further lock of its own.
//!
//! Lock granularity is per entity: mutating one ticket takes that ticket's
//! write lock only, never the structural lock in write mode, so it cannot
//! block readers or writers of other tickets. The structural lock is held
//! exclusively only while inserting, and in read mode only long enough to
//! hand out a per-ticket lock; handles returned to callers never retain
//! it. No operation holds a ticket lock while acquiring the structural
//! lock, and none acquires two ticket locks at once, so no lock-ordering
//! cycle can arise.
//!
//! Each per-ticket lock carries the invariant that the guarded ticket
//! keeps the identifier its cell was created under; the structural lock
//! carries the invariant that cell `i` is exactly the lock for identifier
//! `i`. Both are checked by the verifier at every acquire and release.

use vstd::prelude::*;
use vstd::rwlock::{RwLock, RwLockPredicate};

use crate::data::{Status, Ticket, TicketDraft, TicketId, TicketPatch};
use crate::store::{apply_patch, NotFoundError};

verus! {


/// The per-ticket lock invariant: the guarded ticket always carries the
/// identifier the cell was created under.
pub struct TicketCellPred {
    pub id: u64,
}

impl RwLockPredicate<Ticket> for TicketCellPred {
    open spec fn inv(self, t: Ticket) -> bool {
        t.id.0 == self.id
    }
}

/// One ticket behind its own multi-reader single-writer lock.
pub type TicketCell = RwLock<Ticket, TicketCellPred>;

/// The structural contents: one independently lockable cell per ticket,
/// in identifier order.
pub struct StoreCells {
    pub cells: Vec<std::sync::Arc<TicketCell>>,
}

/// The structural lock invariant: cell `i` is the lock whose invariant
/// pins identifier `i`.
pub struct StoreCellsPred {}

impl RwLockPredicate<StoreCells> for StoreCellsPred {
    open spec fn inv(self, c: StoreCells) -> bool {
        forall|i: int|
            0 <= i < c.cells@.len() ==> (*#[trigger] c.cells@[i]).pred() == (TicketCellPred {
                id: i as u64,
            })
    }
}

/// Relies on std::sync::Arc::clone: one more owner of the same shared
/// cell, pointing at the very same lock.
#[verifier::external_body]
fn clone_cell(cell: &std::sync::Arc<TicketCell>) -> (r: std::sync::Arc<TicketCell>)
    ensures
        r == *cell,
{
    std::sync::Arc::clone(cell)
}

/// The ticket store for the shared-state model: safely callable from many
/// concurrently executing threads through plain shared references, with no
/// further synchronization by the caller.
pub struct SharedTicketStore {
    inner: RwLock<StoreCells, StoreCellsPred>,
}

impl SharedTicketStore {
    /// An empty store; the first allocated identifier will be 0.
    pub fn new() -> (s: SharedTicketStore) {
        SharedTicketStore {
            inner: RwLock::new(StoreCells { cells: Vec::new() }, Ghost(StoreCellsPred {  })),
        }
    }

    /// Allocates the next identifier and inserts the draft as a `ToDo`
    /// ticket under it, holding the structural lock exclusively only for
    /// the insertion itself. Never fails; which identifier comes back
    /// depends on how many concurrent inserts were serialized before this
    /// one.
    pub fn add_ticket(&self, draft: TicketDraft) -> (id: TicketId) {
        let (mut cells, write_handle) = self.inner.acquire_write();
        let id = TicketId(cells.cells.len() as u64);
        let ticket = Ticket {
            id,
            title: draft.title,
            description: draft.description,
            status: Status::ToDo,
        };
        let cell = std::sync::Arc::new(RwLock::new(ticket, Ghost(TicketCellPred { id: id.0 })));
        cells.cells.push(cell);
        write_handle.release_write(cells);
        id
    }

    /// The further-lockable handle for the ticket under `id`, if the store
    /// held one at the moment of the lookup. The structural lock is
    /// released before the handle is returned, so the caller's later reads
    /// and writes of this ticket contend only with that ticket's own lock.
    pub fn get(&self, id: TicketId) -> (r: Option<std::sync::Arc<TicketCell>>)
        ensures
            r matches Some(cell) ==> (*cell).pred() == (TicketCellPred { id: id.0 }),
    {
        let read_handle = self.inner.acquire_read();
        let cells = read_handle.borrow();
        let r = if id.0 < cells.cells.len() as u64 {
            let i = id.0 as usize;
            Some(clone_cell(&cells.cells[i]))
        } else {
            None
        };
        read_handle.release_read();
        r
    }

    /// A point-in-time clone of the ticket under `id`, taken under that
    /// ticket's read lock alone.
    pub fn read_ticket(&self, id: TicketId) -> (r: Option<Ticket>)
        ensures
            r matches Some(t) ==> t.id == id,
    {
        match self.get(id) {
            Some(cell) => {
                let read_handle = cell.acquire_read();
                let ticket = read_handle.borrow().clone();
                read_handle.release_read();
                Some(ticket)
            },
            None => None,
        }
    }

    /// Applies the present fields of `p` to the ticket under `p.id`,
    /// holding that ticket's write lock for the field assignments and
    /// never a write hold on the whole store. Fails with
    /// [`NotFoundError`], changing nothing, when no such ticket exists at
    /// the moment of the lookup. Atomic against concurrent patches of the
    /// same ticket; patches of other tickets are not blocked.
    pub fn patch(&self, p: TicketPatch) -> (r: Result<(), NotFoundError>) {
        match self.get(p.id) {
            Some(cell) => {
                let (ticket, write_handle) = cell.acquire_write();
                let updated = apply_patch(ticket, p);
                write_handle.release_write(updated);
                Ok(())
            },
            None => Err(NotFoundError),
        }
    }
}

} // verus!
