use ticket_store::items::{Item, ItemStore};

#[test]
fn items_add_and_list() {
    let mut store = ItemStore::new();
    store.add_item(Item { id: 1, name: "foo".to_string() });
    store.add_item(Item { id: 2, name: "bar".to_string() });

    let listed = store.list_items();
    assert_eq!(listed.len(), 2);
    assert_eq!(listed[0], Item { id: 1, name: "foo".to_string() });
    assert_eq!(listed[1], Item { id: 2, name: "bar".to_string() });
}

#[test]
fn items_get_by_id() {
    let mut store = ItemStore::new();
    store.add_item(Item { id: 1, name: "foo".to_string() });
    store.add_item(Item { id: 7, name: "bar".to_string() });

    let found = store.get_item(7).unwrap();
    assert_eq!(found.name, "bar");
    assert!(store.get_item(3).is_none());
}

#[test]
fn items_get_returns_first_match() {
    let mut store = ItemStore::new();
    store.add_item(Item { id: 5, name: "first".to_string() });
    store.add_item(Item { id: 5, name: "second".to_string() });

    let found = store.get_item(5).unwrap();
    assert_eq!(found.name, "first");
}
