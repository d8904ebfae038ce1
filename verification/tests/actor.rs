use std::sync::mpsc::sync_channel;

use ticket_store::actor::{serve_next, Command};
use ticket_store::client::{ClientError, TicketStoreClient};
use ticket_store::data::{Status, TicketDraft, TicketId, TicketPatch};
use ticket_store::description::TicketDescription;
use ticket_store::store::TicketStore;
use ticket_store::title::TicketTitle;

fn draft(title: &str, description: &str) -> TicketDraft {
    TicketDraft {
        title: TicketTitle::try_from(title).unwrap(),
        description: TicketDescription::try_from(description).unwrap(),
    }
}

#[test]
fn ready() {
    let move_forward = true;

    assert!(move_forward);
}

#[test]
fn worker_applies_queued_commands_in_order() {
    let (sender, receiver) = sync_channel::<Command>(8);
    let mut store = TicketStore::new();

    let (insert_reply, insert_answer) = sync_channel(1);
    sender
        .try_send(Command::Insert {
            draft: draft("A ticket title", "A ticket description"),
            response_channel: insert_reply,
        })
        .unwrap();

    let (update_reply, update_answer) = sync_channel(1);
    sender
        .try_send(Command::Update {
            patch: TicketPatch {
                id: TicketId(0),
                title: None,
                description: None,
                status: Some(Status::InProgress),
            },
            response_channel: update_reply,
        })
        .unwrap();

    let (get_reply, get_answer) = sync_channel(1);
    sender
        .try_send(Command::Get { id: TicketId(0), response_channel: get_reply })
        .unwrap();

    assert!(serve_next(&mut store, &receiver));
    assert_eq!(insert_answer.recv().unwrap(), TicketId(0));

    assert!(serve_next(&mut store, &receiver));
    assert!(update_answer.recv().unwrap().is_ok());

    assert!(serve_next(&mut store, &receiver));
    let ticket = get_answer.recv().unwrap().unwrap();
    assert_eq!(ticket.id, TicketId(0));
    assert_eq!(ticket.status, Status::InProgress);

    drop(sender);
    assert!(!serve_next(&mut store, &receiver));
}

#[test]
fn worker_reports_unknown_id() {
    let (sender, receiver) = sync_channel::<Command>(1);
    let mut store = TicketStore::new();

    let (update_reply, update_answer) = sync_channel(1);
    sender
        .try_send(Command::Update {
            patch: TicketPatch {
                id: TicketId(3),
                title: None,
                description: None,
                status: Some(Status::Done),
            },
            response_channel: update_reply,
        })
        .unwrap();

    assert!(serve_next(&mut store, &receiver));
    assert!(update_answer.recv().unwrap().is_err());
    assert_eq!(store.len(), 0);
}

#[test]
fn worker_ignores_abandoned_callers() {
    let (sender, receiver) = sync_channel::<Command>(1);
    let mut store = TicketStore::new();

    let (insert_reply, insert_answer) = sync_channel(1);
    drop(insert_answer);
    sender
        .try_send(Command::Insert {
            draft: draft("A ticket title", "A ticket description"),
            response_channel: insert_reply,
        })
        .unwrap();

    assert!(serve_next(&mut store, &receiver));
    assert_eq!(store.len(), 1);
}

#[test]
fn full_queue_is_overloaded() {
    let (sender, _receiver) = sync_channel::<Command>(1);
    let client = TicketStoreClient::new(sender.clone());

    let (occupier_reply, _occupier_answer) = sync_channel(1);
    sender
        .try_send(Command::Get { id: TicketId(0), response_channel: occupier_reply })
        .unwrap();

    let result = client.insert(draft("A ticket title", "A ticket description"));
    assert!(matches!(result, Err(ClientError::Overloaded(_))));

    let result = client.get(TicketId(0));
    assert!(matches!(result, Err(ClientError::Overloaded(_))));

    let result = client.update(TicketPatch {
        id: TicketId(0),
        title: None,
        description: None,
        status: Some(Status::Done),
    });
    assert!(matches!(result, Err(ClientError::Overloaded(_))));
}

#[test]
fn gone_worker_is_reported() {
    let (sender, receiver) = sync_channel::<Command>(4);
    drop(receiver);
    let client = TicketStoreClient::new(sender);

    let result = client.insert(draft("A ticket title", "A ticket description"));
    assert!(matches!(result, Err(ClientError::WorkerGone)));
}
