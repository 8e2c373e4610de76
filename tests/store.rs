use twitch_tui::store::{Data, MessageStore};

fn entry(n: usize) -> Data {
    Data::new(format!("t{n}"), "user".to_string(), format!("message {n}"))
}

#[test]
fn truncation_keeps_most_recent_first() {
    let mut store = MessageStore::new();
    for n in 0..10 {
        store.push_front(entry(n));
    }
    assert_eq!(store.len(), 10);
    store.truncate(4);
    assert_eq!(store.len(), 4);
    for i in 0..4 {
        assert_eq!(store.get(i).message, format!("message {}", 9 - i));
    }
}

#[test]
fn truncation_under_capacity_changes_nothing() {
    let mut store = MessageStore::new();
    store.push_front(entry(0));
    store.push_front(entry(1));
    store.truncate(5);
    assert_eq!(store.len(), 2);
    assert_eq!(store.get(0).message, "message 1");
    store.truncate(0);
    assert!(store.is_empty());
}

#[test]
fn clear_empties_the_store() {
    let mut store = MessageStore::new();
    store.push_front(entry(0));
    store.clear();
    assert!(store.is_empty());
}
