use scalar_surreal::connection::{SurrealItem, SurrealStore};
use scalar_surreal::naming::NamingError;
use scalar_surreal::store::Item;
use serde_json::Value;

fn connection() -> scalar_surreal::connection::SurrealConnection<()> {
    let store = SurrealStore::new("mem://", "ns".to_string(), "db".to_string());
    store.connect(())
}

#[test]
fn store_binds_namespace_and_database() {
    let c = connection();
    assert_eq!(c.namespace, "ns");
    assert_eq!(c.db, "db");
    let s = c.signin();
    assert_eq!(s.namespace, "ns");
    assert_eq!(s.database, "db");
    assert_eq!(s.access, "sc__editor");
}

#[test]
fn draft_statements_embed_tables_and_bind_values() {
    let q = connection().draft("post", "x", Value::from(3)).ok().unwrap();
    assert_eq!(q.statements.len(), 7);
    assert_eq!(q.statements[0], "BEGIN TRANSACTION");
    assert_eq!(q.statements[1], "LET $draft_id = type::thing(\"post_draft\", $id)");
    assert_eq!(q.statements[2], "LET $meta_id = type::thing(\"post_meta\", $id)");
    assert_eq!(q.statements[3], "UPSERT $draft_id SET inner = $inner");
    assert_eq!(q.statements[6], "COMMIT TRANSACTION");
    assert_eq!(q.id.as_deref(), Some("x"));
    assert_eq!(q.inner, Some(Value::from(3)));
    assert_eq!(q.response, 4);
}

#[test]
fn delete_draft_statements() {
    let q = connection().delete_draft("post", "x").ok().unwrap();
    assert_eq!(q.statements.len(), 8);
    assert_eq!(q.statements[4], "DELETE $meta_id WHERE published IS NONE");
    assert_eq!(q.response, 5);
}

#[test]
fn put_statements_bind_published_at() {
    let it = Item { id: "x".to_string(), created_at: 1, modified_at: 2, published_at: Some(9), inner: Value::from("v") };
    let q = connection().put("post", it).ok().unwrap();
    assert_eq!(q.statements[1], "LET $published_id = type::thing(\"post\", $id)");
    assert_eq!(q.published_at, Some(9));
    assert_eq!(q.inner, Some(Value::from("v")));
}

#[test]
fn get_all_reads_meta_table() {
    let q = connection().get_all("post").ok().unwrap();
    assert_eq!(q.statements.len(), 1);
    assert!(q.statements[0].ends_with("FROM post_meta FETCH draft, published"));
    assert!(q.id.is_none());
    assert_eq!(q.response, 0);
}

#[test]
fn get_by_id_and_delete_statements() {
    let q = connection().get_by_id("post", "x").ok().unwrap();
    assert_eq!(q.statements.len(), 2);
    assert_eq!(q.response, 1);
    let q = connection().delete("post", "x").ok().unwrap();
    assert_eq!(q.statements.len(), 9);
    assert_eq!(q.statements[7], "DELETE $meta_id");
    assert_eq!(q.response, 3);
}

#[test]
fn unsafe_identifier_builds_nothing() {
    let c = connection();
    assert!(matches!(c.draft("post; REMOVE TABLE x", "x", Value::Null), Err(NamingError::InvalidIdentifier)));
    assert!(matches!(c.get_all("bad name"), Err(NamingError::InvalidIdentifier)));
    assert!(matches!(c.init_doc(""), Err(NamingError::InvalidIdentifier)));
}

#[test]
fn init_doc_defines_three_tables() {
    let v = connection().init_doc("post").ok().unwrap();
    assert_eq!(v.len(), 10);
    assert_eq!(v[1], "DEFINE FIELD IF NOT EXISTS published_at ON post TYPE option<datetime>");
    assert_eq!(v[8], "DEFINE FIELD IF NOT EXISTS draft ON post_meta TYPE option<record<post_draft>>");
    assert_eq!(v[9], "DEFINE FIELD IF NOT EXISTS published ON post_meta TYPE option<record<post>>");
}

#[test]
fn init_auth_defines_editor_access() {
    let v = connection().init_auth();
    assert_eq!(v.len(), 7);
    assert!(v[6].starts_with("DEFINE ACCESS OVERWRITE sc__editor"));
}

#[test]
fn item_conversions_keep_fields() {
    let row = SurrealItem { id: "x".to_string(), created_at: 1, modified_at: 2, published_at: None, inner: Value::from(5) };
    let it: Item = row.into();
    assert_eq!(it.id, "x");
    assert_eq!(it.modified_at, 2);
    let back: SurrealItem = it.into();
    assert_eq!(back.inner, Value::from(5));
    assert_eq!(back.created_at, 1);
}
