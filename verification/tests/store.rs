use ticket_store::data::{Status, Ticket, TicketDraft, TicketId, TicketPatch};
use ticket_store::description::TicketDescription;
use ticket_store::store::TicketStore;
use ticket_store::title::TicketTitle;

fn draft(title: &str, description: &str) -> TicketDraft {
    TicketDraft {
        title: TicketTitle::try_from(title).unwrap(),
        description: TicketDescription::try_from(description).unwrap(),
    }
}

#[test]
fn lib_add_ticket() {
    let mut store = TicketStore::new();

    store.add_ticket(draft("A ticket title", "A ticket description"));
    store.add_ticket(draft("A ticket title", "A ticket description"));

    let tickets: Vec<&Ticket> = store.tickets().iter().collect();
    assert_eq!(tickets.len(), 2);
    assert_eq!(tickets[0], store.get(TicketId(0)).unwrap());
    assert_eq!(tickets[1], store.get(TicketId(1)).unwrap());
}

#[test]
fn ids_strictly_increase() {
    let mut store = TicketStore::new();
    let mut previous: Option<TicketId> = None;
    for k in 0..5u64 {
        let id = store.add_ticket(draft("A ticket title", "A ticket description"));
        assert_eq!(id, TicketId(k));
        if let Some(p) = previous {
            assert!(p < id);
        }
        previous = Some(id);
    }
}

#[test]
fn add_then_get() {
    let mut store = TicketStore::new();
    let id = store.add_ticket(draft("Launch checklist", "Cover the rollout steps"));

    let ticket = store.get(id).unwrap();
    assert_eq!(ticket.id, id);
    assert_eq!(ticket.title.as_str(), "Launch checklist");
    assert_eq!(ticket.description.as_str(), "Cover the rollout steps");
    assert_eq!(ticket.status, Status::ToDo);
}

#[test]
fn patch_status_only() {
    let mut store = TicketStore::new();
    let id = store.add_ticket(draft("Launch checklist", "Cover the rollout steps"));

    let result = store.patch(TicketPatch {
        id,
        title: None,
        description: None,
        status: Some(Status::Done),
    });
    assert!(result.is_ok());

    let ticket = store.get(id).unwrap();
    assert_eq!(ticket.status, Status::Done);
    assert_eq!(ticket.title.as_str(), "Launch checklist");
    assert_eq!(ticket.description.as_str(), "Cover the rollout steps");
}

#[test]
fn patch_replaces_present_fields() {
    let mut store = TicketStore::new();
    let id = store.add_ticket(draft("Old title", "Old description"));

    let result = store.patch(TicketPatch {
        id,
        title: Some(TicketTitle::try_from("New title").unwrap()),
        description: Some(TicketDescription::try_from("New description").unwrap()),
        status: None,
    });
    assert!(result.is_ok());

    let ticket = store.get(id).unwrap();
    assert_eq!(ticket.title.as_str(), "New title");
    assert_eq!(ticket.description.as_str(), "New description");
    assert_eq!(ticket.status, Status::ToDo);
}

#[test]
fn empty_patch_is_a_noop_success() {
    let mut store = TicketStore::new();
    let id = store.add_ticket(draft("A ticket title", "A ticket description"));

    let result = store.patch(TicketPatch { id, title: None, description: None, status: None });
    assert!(result.is_ok());

    let ticket = store.get(id).unwrap();
    assert_eq!(ticket.title.as_str(), "A ticket title");
    assert_eq!(ticket.description.as_str(), "A ticket description");
    assert_eq!(ticket.status, Status::ToDo);
}

#[test]
fn patch_unknown_id_changes_nothing() {
    let mut store = TicketStore::new();
    let id0 = store.add_ticket(draft("First", "First description"));
    let id1 = store.add_ticket(draft("Second", "Second description"));
    let before0 = store.get(id0).unwrap().clone();
    let before1 = store.get(id1).unwrap().clone();

    let result = store.patch(TicketPatch {
        id: TicketId(99),
        title: None,
        description: None,
        status: Some(Status::Done),
    });
    assert!(result.is_err());

    assert_eq!(store.get(id0).unwrap(), &before0);
    assert_eq!(store.get(id1).unwrap(), &before1);
    assert_eq!(store.len(), 2);
}

#[test]
fn scenario_two_adds_patch_and_misses() {
    let mut store = TicketStore::new();

    let id0 = store.add_ticket(draft("T1", "D1"));
    assert_eq!(id0, TicketId(0));
    let id1 = store.add_ticket(draft("T2", "D2"));
    assert_eq!(id1, TicketId(1));

    let t0 = store.get(TicketId(0)).unwrap();
    assert_eq!(t0.id, TicketId(0));
    assert_eq!(t0.title.as_str(), "T1");
    assert_eq!(t0.description.as_str(), "D1");
    assert_eq!(t0.status, Status::ToDo);

    let result = store.patch(TicketPatch {
        id: TicketId(0),
        title: None,
        description: None,
        status: Some(Status::InProgress),
    });
    assert!(result.is_ok());

    let t0 = store.get(TicketId(0)).unwrap();
    assert_eq!(t0.id, TicketId(0));
    assert_eq!(t0.title.as_str(), "T1");
    assert_eq!(t0.description.as_str(), "D1");
    assert_eq!(t0.status, Status::InProgress);

    assert!(store.get(TicketId(5)).is_none());
}

#[test]
fn earlier_ticket_survives_later_commands() {
    let mut store = TicketStore::new();
    let first = store.add_ticket(draft("Keep me", "Untouched description"));
    store.add_ticket(draft("Another", "Another description"));
    let second = store.add_ticket(draft("Patch me", "To be patched"));
    store
        .patch(TicketPatch {
            id: second,
            title: None,
            description: None,
            status: Some(Status::Done),
        })
        .unwrap();

    let ticket = store.get(first).unwrap();
    assert_eq!(ticket.id, first);
    assert_eq!(ticket.title.as_str(), "Keep me");
    assert_eq!(ticket.description.as_str(), "Untouched description");
    assert_eq!(ticket.status, Status::ToDo);
}
