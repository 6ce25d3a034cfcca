//! Statement sequences for the versioning operations.
//!
//! Each operation becomes one submission: its statements run in order, and
//! the mutating ones inside a single transaction. Ids, payloads and times
//! are bound as parameters (`$id`, `$inner`, `$published_at`); only table
//! names, already checked by `naming`, are written into the text.
use vstd::prelude::*;
use serde_json::Value;
use crate::naming::TableNames;

verus! {

/// One submission: statements, the values bound to their parameters, and
/// the position of the response that holds the resulting item(s) among the
/// responses of the statements other than `BEGIN` and `COMMIT`.
pub struct Query {
    pub statements: Vec<String>,
    pub id: Option<String>,
    pub inner: Option<Value>,
    pub published_at: Option<i64>,
    pub response: usize,
}

/// The text of each statement.
pub open spec fn texts(v: Seq<String>) -> Seq<Seq<char>> {
    v.map_values(|s: String| s@)
}

pub open spec fn begin_text() -> Seq<char> {
    "BEGIN TRANSACTION"@
}

pub open spec fn commit_text() -> Seq<char> {
    "COMMIT TRANSACTION"@
}

/// Binds `var` to the record of `table` whose key is `$id`.
pub open spec fn let_thing_text(var: Seq<char>, table: Seq<char>) -> Seq<char> {
    "LET "@ + var + " = type::thing(\""@ + table + "\", $id)"@
}

/// Selects the merged view of the meta records in `source`: the draft's
/// content where a draft exists, else the published content, and the
/// published record's publication time.
pub open spec fn select_item_text(source: Seq<char>) -> Seq<char> {
    "SELECT id, created_at, modified_at, IF draft IS NOT NONE THEN draft.inner ELSE published.inner END AS inner, published.published_at AS published_at FROM "@
        + source + " FETCH draft, published"@
}

pub open spec fn upsert_draft_text() -> Seq<char> {
    "UPSERT $draft_id SET inner = $inner"@
}

pub open spec fn link_draft_text() -> Seq<char> {
    "UPSERT $meta_id SET draft = $draft_id, modified_at = time::now()"@
}

pub open spec fn delete_draft_record_text() -> Seq<char> {
    "DELETE $draft_id"@
}

pub open spec fn delete_unpublished_meta_text() -> Seq<char> {
    "DELETE $meta_id WHERE published IS NONE"@
}

pub open spec fn unlink_draft_text() -> Seq<char> {
    "UPDATE $meta_id SET draft = NONE"@
}

pub open spec fn upsert_published_text() -> Seq<char> {
    "UPSERT $published_id SET inner = $inner, published_at = $published_at"@
}

pub open spec fn link_published_text() -> Seq<char> {
    "UPSERT $meta_id SET published = $published_id, modified_at = time::now()"@
}

/// Selects the published record of `$meta_id` with the meta record's timestamps.
pub open spec fn select_published_text() -> Seq<char> {
    "SELECT id, created_at, modified_at, published.published_at AS published_at, published.inner AS inner FROM $meta_id FETCH published"@
}

pub open spec fn draft_statements(draft: Seq<char>, meta: Seq<char>) -> Seq<Seq<char>> {
    seq![
        begin_text(),
        let_thing_text("$draft_id"@, draft),
        let_thing_text("$meta_id"@, meta),
        upsert_draft_text(),
        link_draft_text(),
        select_item_text("$meta_id"@),
        commit_text(),
    ]
}

pub open spec fn delete_draft_statements(draft: Seq<char>, meta: Seq<char>) -> Seq<Seq<char>> {
    seq![
        begin_text(),
        let_thing_text("$draft_id"@, draft),
        let_thing_text("$meta_id"@, meta),
        delete_draft_record_text(),
        delete_unpublished_meta_text(),
        unlink_draft_text(),
        select_item_text("$meta_id"@),
        commit_text(),
    ]
}

pub open spec fn put_statements(published: Seq<char>, meta: Seq<char>) -> Seq<Seq<char>> {
    seq![
        begin_text(),
        let_thing_text("$published_id"@, published),
        let_thing_text("$meta_id"@, meta),
        upsert_published_text(),
        link_published_text(),
        select_published_text(),
        commit_text(),
    ]
}

pub open spec fn delete_statements(published: Seq<char>, draft: Seq<char>, meta: Seq<char>) -> Seq<Seq<char>> {
    seq![
        begin_text(),
        let_thing_text("$published_id"@, published),
        let_thing_text("$draft_id"@, draft),
        let_thing_text("$meta_id"@, meta),
        select_item_text("$meta_id"@),
        delete_draft_record_text(),
        "DELETE $published_id"@,
        "DELETE $meta_id"@,
        commit_text(),
    ]
}

pub open spec fn get_by_id_statements(meta: Seq<char>) -> Seq<Seq<char>> {
    seq![let_thing_text("$meta_id"@, meta), select_item_text("$meta_id"@)]
}

pub open spec fn get_all_statements(meta: Seq<char>) -> Seq<Seq<char>> {
    seq![select_item_text(meta)]
}

fn let_thing(var: &str, table: &String) -> (r: String)
    ensures
        r@ == let_thing_text(var@, table@),
{
    String::from_str("LET ").concat(var).concat(" = type::thing(\"").concat(table.as_str()).concat("\", $id)")
}

fn select_item(source: &str) -> (r: String)
    ensures
        r@ == select_item_text(source@),
{
    String::from_str(
        "SELECT id, created_at, modified_at, IF draft IS NOT NONE THEN draft.inner ELSE published.inner END AS inner, published.published_at AS published_at FROM ",
    ).concat(source).concat(" FETCH draft, published")
}

fn text(s: &str) -> (r: String)
    ensures
        r@ == s@,
{
    String::from_str(s)
}

/// Writes `data` as the draft of `id` and links it from the meta record.
pub fn draft_query(names: &TableNames, id: &str, data: Value) -> (q: Query)
    ensures
        texts(q.statements@) == draft_statements(names.draft@, names.meta@),
        q.id matches Some(s) && s@ == id@,
        q.inner == Some(data),
        q.published_at is None,
        q.response == 4,
{
    let mut v: Vec<String> = Vec::new();
    v.push(text("BEGIN TRANSACTION"));
    v.push(let_thing("$draft_id", &names.draft));
    v.push(let_thing("$meta_id", &names.meta));
    v.push(text("UPSERT $draft_id SET inner = $inner"));
    v.push(text("UPSERT $meta_id SET draft = $draft_id, modified_at = time::now()"));
    v.push(select_item("$meta_id"));
    v.push(text("COMMIT TRANSACTION"));
    assert(texts(v@) =~= draft_statements(names.draft@, names.meta@));
    Query { statements: v, id: Some(id.to_owned()), inner: Some(data), published_at: None, response: 4 }
}

/// Removes the draft of `id`, and its meta record when nothing is published.
pub fn delete_draft_query(names: &TableNames, id: &str) -> (q: Query)
    ensures
        texts(q.statements@) == delete_draft_statements(names.draft@, names.meta@),
        q.id matches Some(s) && s@ == id@,
        q.inner is None,
        q.published_at is None,
        q.response == 5,
{
    let mut v: Vec<String> = Vec::new();
    v.push(text("BEGIN TRANSACTION"));
    v.push(let_thing("$draft_id", &names.draft));
    v.push(let_thing("$meta_id", &names.meta));
    v.push(text("DELETE $draft_id"));
    v.push(text("DELETE $meta_id WHERE published IS NONE"));
    v.push(text("UPDATE $meta_id SET draft = NONE"));
    v.push(select_item("$meta_id"));
    v.push(text("COMMIT TRANSACTION"));
    assert(texts(v@) =~= delete_draft_statements(names.draft@, names.meta@));
    Query { statements: v, id: Some(id.to_owned()), inner: None, published_at: None, response: 5 }
}

/// Writes `inner` as the published content of `id` and links it from the
/// meta record; the draft link is left alone.
pub fn put_query(names: &TableNames, id: &str, inner: Value, published_at: Option<i64>) -> (q: Query)
    ensures
        texts(q.statements@) == put_statements(names.published@, names.meta@),
        q.id matches Some(s) && s@ == id@,
        q.inner == Some(inner),
        q.published_at == published_at,
        q.response == 4,
{
    let mut v: Vec<String> = Vec::new();
    v.push(text("BEGIN TRANSACTION"));
    v.push(let_thing("$published_id", &names.published));
    v.push(let_thing("$meta_id", &names.meta));
    v.push(text("UPSERT $published_id SET inner = $inner, published_at = $published_at"));
    v.push(text("UPSERT $meta_id SET published = $published_id, modified_at = time::now()"));
    v.push(text(
        "SELECT id, created_at, modified_at, published.published_at AS published_at, published.inner AS inner FROM $meta_id FETCH published",
    ));
    v.push(text("COMMIT TRANSACTION"));
    assert(texts(v@) =~= put_statements(names.published@, names.meta@));
    Query { statements: v, id: Some(id.to_owned()), inner: Some(inner), published_at, response: 4 }
}

/// Reads the merged view of `id`, then removes its three records.
pub fn delete_query(names: &TableNames, id: &str) -> (q: Query)
    ensures
        texts(q.statements@) == delete_statements(names.published@, names.draft@, names.meta@),
        q.id matches Some(s) && s@ == id@,
        q.inner is None,
        q.published_at is None,
        q.response == 3,
{
    let mut v: Vec<String> = Vec::new();
    v.push(text("BEGIN TRANSACTION"));
    v.push(let_thing("$published_id", &names.published));
    v.push(let_thing("$draft_id", &names.draft));
    v.push(let_thing("$meta_id", &names.meta));
    v.push(select_item("$meta_id"));
    v.push(text("DELETE $draft_id"));
    v.push(text("DELETE $published_id"));
    v.push(text("DELETE $meta_id"));
    v.push(text("COMMIT TRANSACTION"));
    assert(texts(v@) =~= delete_statements(names.published@, names.draft@, names.meta@));
    Query { statements: v, id: Some(id.to_owned()), inner: None, published_at: None, response: 3 }
}

/// Reads the merged view of `id`.
pub fn get_by_id_query(names: &TableNames, id: &str) -> (q: Query)
    ensures
        texts(q.statements@) == get_by_id_statements(names.meta@),
        q.id matches Some(s) && s@ == id@,
        q.inner is None,
        q.published_at is None,
        q.response == 1,
{
    let mut v: Vec<String> = Vec::new();
    v.push(let_thing("$meta_id", &names.meta));
    v.push(select_item("$meta_id"));
    assert(texts(v@) =~= get_by_id_statements(names.meta@));
    Query { statements: v, id: Some(id.to_owned()), inner: None, published_at: None, response: 1 }
}

/// Reads the merged view of every item.
pub fn get_all_query(names: &TableNames) -> (q: Query)
    ensures
        texts(q.statements@) == get_all_statements(names.meta@),
        q.id is None,
        q.inner is None,
        q.published_at is None,
        q.response == 0,
{
    let mut v: Vec<String> = Vec::new();
    v.push(select_item(names.meta.as_str()));
    assert(texts(v@) =~= get_all_statements(names.meta@));
    Query { statements: v, id: None, inner: None, published_at: None, response: 0 }
}

} // verus!
