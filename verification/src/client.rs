//! The actor discipline's caller side: a typed handle over the command
//! queue.
//!
//! Each operation builds a command around a fresh one-shot reply channel,
//! enqueues it without blocking — shedding load with
//! [`OverloadedError`] when the bounded queue is full — and then blocks
//! until the worker answers on the reply channel.

use vstd::prelude::*;

use crate::actor::Command;
use crate::channel;
use crate::channel::SendOutcome;
use crate::data::{Ticket, TicketDraft, TicketId, TicketPatch};
use crate::store::NotFoundError;

verus! {

/// Admission-control rejection: the bounded command queue was full at
/// enqueue time. The request was not queued; the caller may retry.
#[derive(Clone, Copy, Debug, PartialEq, Eq, Structural)]
pub struct OverloadedError;

impl OverloadedError {
    /// The human-readable description of the rejection.
    pub fn message(&self) -> (r: String)
        ensures
            r@ == "The store is overloaded"@,
    {
        "The store is overloaded".to_owned()
    }
}

/// Why a facade operation failed. Every variant is a failure of that one
/// request alone: the worker and the store live on.
#[derive(Clone, Copy, Debug, PartialEq, Eq, Structural)]
pub enum ClientError {
    /// The bounded command queue was full at enqueue time.
    Overloaded(OverloadedError),
    /// The worker is gone, or hung up before answering.
    WorkerGone,
    /// The store holds no ticket under the named identifier.
    NotFound(NotFoundError),
}

/// A caller's handle to one worker's command queue. Cloning the handle
/// gives another caller to the same worker.
#[derive(Clone)]
pub struct TicketStoreClient {
    sender: std::sync::mpsc::SyncSender<Command>,
}

impl TicketStoreClient {
    /// A handle speaking over `sender` to the worker that holds the
    /// receiving end.
    pub fn new(sender: std::sync::mpsc::SyncSender<Command>) -> (c: TicketStoreClient) {
        TicketStoreClient { sender }
    }

    /// Asks the worker to add a ticket for `draft` and blocks for the
    /// allocated identifier. Adding never fails at the store, so a failure
    /// here is only ever the queue's admission control or a gone worker.
    pub fn insert(&self, draft: TicketDraft) -> (r: Result<TicketId, ClientError>)
        ensures
            r matches Err(e) ==> e is Overloaded || e is WorkerGone,
    {
        let (response_sender, response_receiver) = channel::bounded_channel(1);
        let outcome = channel::try_send(
            &self.sender,
            Command::Insert { draft, response_channel: response_sender },
        );
        match outcome {
            SendOutcome::Sent => {},
            SendOutcome::Full => {
                return Err(ClientError::Overloaded(OverloadedError));
            },
            SendOutcome::Closed => {
                return Err(ClientError::WorkerGone);
            },
        }
        match channel::recv(&response_receiver) {
            Some(id) => Ok(id),
            None => Err(ClientError::WorkerGone),
        }
    }

    /// Asks the worker for a point-in-time clone of the ticket under `id`
    /// and blocks for the answer. A missing ticket is `Ok(None)`, never an
    /// error, so a failure here is only ever the queue's admission control
    /// or a gone worker.
    pub fn get(&self, id: TicketId) -> (r: Result<Option<Ticket>, ClientError>)
        ensures
            r matches Err(e) ==> e is Overloaded || e is WorkerGone,
    {
        let (response_sender, response_receiver) = channel::bounded_channel(1);
        let outcome = channel::try_send(
            &self.sender,
            Command::Get { id, response_channel: response_sender },
        );
        match outcome {
            SendOutcome::Sent => {},
            SendOutcome::Full => {
                return Err(ClientError::Overloaded(OverloadedError));
            },
            SendOutcome::Closed => {
                return Err(ClientError::WorkerGone);
            },
        }
        match channel::recv(&response_receiver) {
            Some(ticket) => Ok(ticket),
            None => Err(ClientError::WorkerGone),
        }
    }

    /// Asks the worker to apply `ticket_patch` and blocks for the answer;
    /// an unknown identifier comes back as [`ClientError::NotFound`].
    ///
    /// No `ensures` narrows the result: every outcome is reachable —
    /// success, `NotFound` from the store's answer, `Overloaded` at the
    /// queue, and `WorkerGone` — and which one comes back is channel
    /// state.
    pub fn update(&self, ticket_patch: TicketPatch) -> (r: Result<(), ClientError>) {
        let (response_sender, response_receiver) = channel::bounded_channel(1);
        let outcome = channel::try_send(
            &self.sender,
            Command::Update { patch: ticket_patch, response_channel: response_sender },
        );
        match outcome {
            SendOutcome::Sent => {},
            SendOutcome::Full => {
                return Err(ClientError::Overloaded(OverloadedError));
            },
            SendOutcome::Closed => {
                return Err(ClientError::WorkerGone);
            },
        }
        match channel::recv(&response_receiver) {
            Some(Ok(())) => Ok(()),
            Some(Err(e)) => Err(ClientError::NotFound(e)),
            None => Err(ClientError::WorkerGone),
        }
    }
}

} // verus!
