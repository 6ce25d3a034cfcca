use scalar_surreal::store::{DocTables, Item, ItemState};
use serde_json::Value;

fn text(s: &str) -> Value {
    Value::String(s.to_string())
}

fn item(id: &str, inner: Value, published_at: Option<i64>) -> Item {
    Item { id: id.to_string(), created_at: 0, modified_at: 0, published_at, inner }
}

#[test]
fn draft_twice_shows_second_payload() {
    let mut t = DocTables::new();
    t.draft("x", text("p1"), 10);
    let r = t.draft("x", text("p2"), 20);
    assert_eq!(r.inner, text("p2"));
    let got = t.get_by_id("x").unwrap();
    assert_eq!(got.inner, text("p2"));
    assert_eq!(got.created_at, 10);
    assert_eq!(got.modified_at, 20);
    assert_eq!(got.published_at, None);
}

#[test]
fn draft_then_delete_draft_leaves_nothing() {
    let mut t = DocTables::new();
    t.draft("x", text("p"), 1);
    assert!(t.delete_draft("x").is_none());
    assert!(t.get_by_id("x").is_none());
    assert!(t.get_all().is_empty());
}

#[test]
fn draft_over_put_keeps_published_at() {
    let mut t = DocTables::new();
    let stored = t.put(item("x", text("p1"), Some(500)), 5);
    assert_eq!(stored.inner, text("p1"));
    assert_eq!(stored.published_at, Some(500));
    assert_eq!(stored.created_at, 5);
    t.draft("x", text("p2"), 7);
    let got = t.get_by_id("x").unwrap();
    assert_eq!(got.inner, text("p2"));
    assert_eq!(got.published_at, Some(500));
    assert_eq!(got.created_at, 5);
    assert_eq!(got.modified_at, 7);
}

#[test]
fn delete_draft_restores_published_content() {
    let mut t = DocTables::new();
    t.put(item("x", text("p1"), Some(3)), 1);
    t.draft("x", text("p2"), 2);
    let r = t.delete_draft("x").unwrap();
    assert_eq!(r.inner, text("p1"));
    let got = t.get_by_id("x").unwrap();
    assert_eq!(got.inner, text("p1"));
    assert_eq!(got.published_at, Some(3));
}

#[test]
fn get_all_lists_each_item_once() {
    let mut t = DocTables::new();
    t.draft("a", text("a-draft"), 1);
    t.put(item("b", text("b-pub"), Some(2)), 2);
    t.put(item("c", text("c-pub"), Some(3)), 3);
    t.draft("c", text("c-draft"), 4);
    let all = t.get_all();
    assert_eq!(all.len(), 3);
    let find = |id: &str| all.iter().filter(|i| i.id == id).count();
    assert_eq!(find("a"), 1);
    assert_eq!(find("b"), 1);
    assert_eq!(find("c"), 1);
    let c = all.iter().find(|i| i.id == "c").unwrap();
    assert_eq!(c.inner, text("c-draft"));
    assert_eq!(c.published_at, Some(3));
    let b = all.iter().find(|i| i.id == "b").unwrap();
    assert_eq!(b.inner, text("b-pub"));
    let a = all.iter().find(|i| i.id == "a").unwrap();
    assert_eq!(a.published_at, None);
}

#[test]
fn drafts_on_distinct_ids_are_isolated() {
    let mut t = DocTables::new();
    t.draft("a", text("a1"), 1);
    t.put(item("b", text("b1"), None), 2);
    t.draft("a", text("a2"), 3);
    t.draft("c", text("c1"), 4);
    let b = t.get_by_id("b").unwrap();
    assert_eq!(b.inner, text("b1"));
    assert_eq!(b.modified_at, 2);
    assert_eq!(t.get_by_id("a").unwrap().inner, text("a2"));
}

#[test]
fn put_preserves_existing_draft() {
    let mut t = DocTables::new();
    t.draft("x", text("d"), 1);
    let stored = t.put(item("x", text("p"), Some(9)), 2);
    assert_eq!(stored.inner, text("p"));
    assert_eq!(stored.created_at, 1);
    let got = t.get_by_id("x").unwrap();
    assert_eq!(got.inner, text("d"));
    assert_eq!(got.published_at, Some(9));
}

#[test]
fn delete_returns_last_state_and_removes() {
    let mut t = DocTables::new();
    t.put(item("x", text("p"), Some(1)), 1);
    t.draft("x", text("d"), 2);
    let last = t.delete("x").unwrap();
    assert_eq!(last.inner, text("d"));
    assert!(t.get_by_id("x").is_none());
    assert!(t.delete("x").is_none());
}

#[test]
fn missing_items() {
    let mut t = DocTables::new();
    assert!(t.get_by_id("nope").is_none());
    assert!(t.delete_draft("nope").is_none());
    assert!(t.get_all().is_empty());
}

#[test]
fn lifecycle_states_follow_operations() {
    let mut t = DocTables::new();
    assert_eq!(t.state("x"), ItemState::Nonexistent);
    t.draft("x", text("d"), 1);
    assert_eq!(t.state("x"), ItemState::DraftOnly);
    t.put(item("x", text("p"), None), 2);
    assert_eq!(t.state("x"), ItemState::DraftAndPublished);
    t.delete_draft("x");
    assert_eq!(t.state("x"), ItemState::PublishedOnly);
    t.draft("x", text("d2"), 3);
    assert_eq!(t.state("x"), ItemState::DraftAndPublished);
    t.delete("x");
    assert_eq!(t.state("x"), ItemState::Nonexistent);
    t.put(item("y", text("p"), None), 4);
    assert_eq!(t.state("y"), ItemState::PublishedOnly);
}
