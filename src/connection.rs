//! Stores, connections and the operations they submit.
//!
//! A `SurrealStore` knows where the database is and which namespace and
//! database to use; a `SurrealConnection` is a session bound to them. The
//! operations of a connection check the document identifier and build the
//! statements to submit; a failed check means nothing is built.
use vstd::prelude::*;
use serde_json::Value;
use crate::naming::{NamingError, valid_identifier, table_names, draft_table, meta_table};
use crate::query::{
    Query,
    texts,
    draft_query,
    delete_draft_query,
    put_query,
    delete_query,
    get_by_id_query,
    get_all_query,
    draft_statements,
    delete_draft_statements,
    put_statements,
    delete_statements,
    get_by_id_statements,
    get_all_statements,
};
use crate::store::Item;

verus! {

/// The record access method that editors sign in through.
pub open spec fn editor_access() -> Seq<char> {
    "sc__editor"@
}

/// Where a store lives and which namespace and database it uses.
pub struct SurrealStore<P> {
    pub endpoint: P,
    pub namespace: String,
    pub db: String,
}

/// A session bound to a namespace and a database.
pub struct SurrealConnection<C> {
    pub namespace: String,
    pub db: String,
    pub inner: C,
}

/// A row as the store returns it.
pub struct SurrealItem {
    pub id: String,
    pub created_at: i64,
    pub modified_at: i64,
    pub published_at: Option<i64>,
    pub inner: Value,
}

/// The parameters of a record-scoped sign-in.
pub struct RecordSignin {
    pub namespace: String,
    pub database: String,
    pub access: String,
}

impl From<SurrealItem> for Item {
    fn from(item: SurrealItem) -> (r: Item) {
        Item {
            id: item.id,
            created_at: item.created_at,
            modified_at: item.modified_at,
            published_at: item.published_at,
            inner: item.inner,
        }
    }
}

impl vstd::std_specs::convert::FromSpecImpl<SurrealItem> for Item {
    open spec fn obeys_from_spec() -> bool {
        true
    }

    open spec fn from_spec(item: SurrealItem) -> Item {
        Item {
            id: item.id,
            created_at: item.created_at,
            modified_at: item.modified_at,
            published_at: item.published_at,
            inner: item.inner,
        }
    }
}

impl From<Item> for SurrealItem {
    fn from(item: Item) -> (r: SurrealItem) {
        SurrealItem {
            id: item.id,
            created_at: item.created_at,
            modified_at: item.modified_at,
            published_at: item.published_at,
            inner: item.inner,
        }
    }
}

impl vstd::std_specs::convert::FromSpecImpl<Item> for SurrealItem {
    open spec fn obeys_from_spec() -> bool {
        true
    }

    open spec fn from_spec(item: Item) -> SurrealItem {
        SurrealItem {
            id: item.id,
            created_at: item.created_at,
            modified_at: item.modified_at,
            published_at: item.published_at,
            inner: item.inner,
        }
    }
}

impl<P> SurrealStore<P> {
    pub fn new(address: P, namespace: String, db: String) -> (r: Self)
        ensures
            r.endpoint == address,
            r.namespace == namespace,
            r.db == db,
    {
        SurrealStore { endpoint: address, namespace, db }
    }

    /// Binds an open session to this store's namespace and database.
    pub fn connect<C>(&self, session: C) -> (r: SurrealConnection<C>)
        ensures
            r.namespace@ == self.namespace@,
            r.db@ == self.db@,
            r.inner == session,
    {
        SurrealConnection { namespace: self.namespace.clone(), db: self.db.clone(), inner: session }
    }
}

/// `a`, then `t`, then `b`.
pub open spec fn around(a: Seq<char>, t: Seq<char>, b: Seq<char>) -> Seq<char> {
    a + t + b
}

/// The table and field definitions of a document type.
pub open spec fn init_doc_statements(p: Seq<char>, d: Seq<char>, m: Seq<char>) -> Seq<Seq<char>> {
    seq![
        around("DEFINE TABLE OVERWRITE "@, p, " SCHEMAFULL PERMISSIONS FOR select WHERE true FOR create, update, delete WHERE $auth.id IS NOT NONE"@),
        around("DEFINE FIELD IF NOT EXISTS published_at ON "@, p, " TYPE option<datetime>"@),
        around("DEFINE FIELD IF NOT EXISTS inner ON "@, p, " FLEXIBLE TYPE object"@),
        around("DEFINE TABLE OVERWRITE "@, d, " SCHEMAFULL PERMISSIONS FOR select, create, update, delete WHERE $auth.id IS NOT NONE"@),
        around("DEFINE FIELD IF NOT EXISTS inner ON "@, d, " FLEXIBLE TYPE object"@),
        around("DEFINE TABLE OVERWRITE "@, m, " SCHEMAFULL PERMISSIONS FOR select, create, update, delete WHERE $auth.id IS NOT NONE"@),
        around("DEFINE FIELD IF NOT EXISTS created_at ON "@, m, " TYPE datetime DEFAULT time::now()"@),
        around("DEFINE FIELD IF NOT EXISTS modified_at ON "@, m, " TYPE datetime"@),
        around("DEFINE FIELD IF NOT EXISTS draft ON "@, m, around(" TYPE option<record<"@, d, ">>"@)),
        around("DEFINE FIELD IF NOT EXISTS published ON "@, m, around(" TYPE option<record<"@, p, ">>"@)),
    ]
}

/// The editor table and the access method that signs editors in.
pub open spec fn init_auth_statements() -> Seq<Seq<char>> {
    seq![
        "DEFINE TABLE OVERWRITE sc__editor SCHEMAFULL PERMISSIONS FOR select, update, delete WHERE id = $auth.id OR $auth.admin = true FOR create WHERE $auth.admin = true"@,
        "DEFINE FIELD IF NOT EXISTS name ON sc__editor TYPE string"@,
        "DEFINE FIELD IF NOT EXISTS email ON sc__editor TYPE string ASSERT string::is::email($value)"@,
        "DEFINE FIELD IF NOT EXISTS password ON sc__editor TYPE string"@,
        "DEFINE FIELD IF NOT EXISTS admin ON sc__editor TYPE bool"@,
        "DEFINE INDEX email ON user FIELDS email UNIQUE"@,
        "DEFINE ACCESS OVERWRITE sc__editor ON DATABASE TYPE RECORD SIGNIN (SELECT * FROM sc__editor WHERE email = $email AND crypto::argon2::compare(password, $password))"@,
    ]
}

fn wrap(a: &str, t: &str, b: &str) -> (r: String)
    ensures
        r@ == around(a@, t@, b@),
{
    String::from_str(a).concat(t).concat(b)
}

impl<C> SurrealConnection<C> {
    /// The draft of `id` for the document type `identifier`.
    pub fn draft(&self, identifier: &str, id: &str, data: Value) -> (r: Result<Query, NamingError>)
        ensures
            r is Ok <==> valid_identifier(identifier@),
            r matches Ok(q) ==> {
                &&& texts(q.statements@) == draft_statements(draft_table(identifier@), meta_table(identifier@))
                &&& q.id matches Some(s) && s@ == id@
                &&& q.inner == Some(data)
                &&& q.published_at is None
                &&& q.response == 4
            },
    {
        match table_names(identifier) {
            Ok(names) => Ok(draft_query(&names, id, data)),
            Err(e) => Err(e),
        }
    }

    /// The removal of the draft of `id`.
    pub fn delete_draft(&self, identifier: &str, id: &str) -> (r: Result<Query, NamingError>)
        ensures
            r is Ok <==> valid_identifier(identifier@),
            r matches Ok(q) ==> {
                &&& texts(q.statements@) == delete_draft_statements(draft_table(identifier@), meta_table(identifier@))
                &&& q.id matches Some(s) && s@ == id@
                &&& q.inner is None
                &&& q.published_at is None
                &&& q.response == 5
            },
    {
        match table_names(identifier) {
            Ok(names) => Ok(delete_draft_query(&names, id)),
            Err(e) => Err(e),
        }
    }

    /// The publication of `item`: its content and publication time under its id.
    pub fn put(&self, identifier: &str, item: Item) -> (r: Result<Query, NamingError>)
        ensures
            r is Ok <==> valid_identifier(identifier@),
            r matches Ok(q) ==> {
                &&& texts(q.statements@) == put_statements(identifier@, meta_table(identifier@))
                &&& q.id matches Some(s) && s@ == item.id@
                &&& q.inner == Some(item.inner)
                &&& q.published_at == item.published_at
                &&& q.response == 4
            },
    {
        match table_names(identifier) {
            Ok(names) => {
                let Item { id, created_at: _, modified_at: _, published_at, inner } = item;
                Ok(put_query(&names, id.as_str(), inner, published_at))
            },
            Err(e) => Err(e),
        }
    }

    /// The removal of `id` with all its records.
    pub fn delete(&self, identifier: &str, id: &str) -> (r: Result<Query, NamingError>)
        ensures
            r is Ok <==> valid_identifier(identifier@),
            r matches Ok(q) ==> {
                &&& texts(q.statements@) == delete_statements(
                    identifier@,
                    draft_table(identifier@),
                    meta_table(identifier@),
                )
                &&& q.id matches Some(s) && s@ == id@
                &&& q.inner is None
                &&& q.published_at is None
                &&& q.response == 3
            },
    {
        match table_names(identifier) {
            Ok(names) => Ok(delete_query(&names, id)),
            Err(e) => Err(e),
        }
    }

    /// The merged view of every item of the document type.
    pub fn get_all(&self, identifier: &str) -> (r: Result<Query, NamingError>)
        ensures
            r is Ok <==> valid_identifier(identifier@),
            r matches Ok(q) ==> {
                &&& texts(q.statements@) == get_all_statements(meta_table(identifier@))
                &&& q.id is None
                &&& q.inner is None
                &&& q.published_at is None
                &&& q.response == 0
            },
    {
        match table_names(identifier) {
            Ok(names) => Ok(get_all_query(&names)),
            Err(e) => Err(e),
        }
    }

    /// The merged view of `id`.
    pub fn get_by_id(&self, identifier: &str, id: &str) -> (r: Result<Query, NamingError>)
        ensures
            r is Ok <==> valid_identifier(identifier@),
            r matches Ok(q) ==> {
                &&& texts(q.statements@) == get_by_id_statements(meta_table(identifier@))
                &&& q.id matches Some(s) && s@ == id@
                &&& q.inner is None
                &&& q.published_at is None
                &&& q.response == 1
            },
    {
        match table_names(identifier) {
            Ok(names) => Ok(get_by_id_query(&names, id)),
            Err(e) => Err(e),
        }
    }

    /// The parameters of an editor's sign-in in this connection's
    /// namespace and database.
    pub fn signin(&self) -> (r: RecordSignin)
        ensures
            r.namespace@ == self.namespace@,
            r.database@ == self.db@,
            r.access@ == editor_access(),
    {
        RecordSignin {
            namespace: self.namespace.clone(),
            database: self.db.clone(),
            access: String::from_str("sc__editor"),
        }
    }

    /// The table and field definitions of the document type `identifier`.
    pub fn init_doc(&self, identifier: &str) -> (r: Result<Vec<String>, NamingError>)
        ensures
            r is Ok <==> valid_identifier(identifier@),
            r matches Ok(v) ==> texts(v@) == init_doc_statements(
                identifier@,
                draft_table(identifier@),
                meta_table(identifier@),
            ),
    {
        let names = match table_names(identifier) {
            Ok(names) => names,
            Err(e) => {
                return Err(e);
            },
        };
        let p = names.published.as_str();
        let d = names.draft.as_str();
        let m = names.meta.as_str();
        let mut v: Vec<String> = Vec::new();
        v.push(wrap("DEFINE TABLE OVERWRITE ", p, " SCHEMAFULL PERMISSIONS FOR select WHERE true FOR create, update, delete WHERE $auth.id IS NOT NONE"));
        v.push(wrap("DEFINE FIELD IF NOT EXISTS published_at ON ", p, " TYPE option<datetime>"));
        v.push(wrap("DEFINE FIELD IF NOT EXISTS inner ON ", p, " FLEXIBLE TYPE object"));
        v.push(wrap("DEFINE TABLE OVERWRITE ", d, " SCHEMAFULL PERMISSIONS FOR select, create, update, delete WHERE $auth.id IS NOT NONE"));
        v.push(wrap("DEFINE FIELD IF NOT EXISTS inner ON ", d, " FLEXIBLE TYPE object"));
        v.push(wrap("DEFINE TABLE OVERWRITE ", m, " SCHEMAFULL PERMISSIONS FOR select, create, update, delete WHERE $auth.id IS NOT NONE"));
        v.push(wrap("DEFINE FIELD IF NOT EXISTS created_at ON ", m, " TYPE datetime DEFAULT time::now()"));
        v.push(wrap("DEFINE FIELD IF NOT EXISTS modified_at ON ", m, " TYPE datetime"));
        let draft_ref = wrap(" TYPE option<record<", d, ">>");
        v.push(wrap("DEFINE FIELD IF NOT EXISTS draft ON ", m, draft_ref.as_str()));
        let published_ref = wrap(" TYPE option<record<", p, ">>");
        v.push(wrap("DEFINE FIELD IF NOT EXISTS published ON ", m, published_ref.as_str()));
        assert(texts(v@) =~= init_doc_statements(identifier@, draft_table(identifier@), meta_table(identifier@)));
        Ok(v)
    }

    /// The editor table and the access method that signs editors in.
    pub fn init_auth(&self) -> (r: Vec<String>)
        ensures
            texts(r@) == init_auth_statements(),
    {
        let mut v: Vec<String> = Vec::new();
        v.push(String::from_str(
            "DEFINE TABLE OVERWRITE sc__editor SCHEMAFULL PERMISSIONS FOR select, update, delete WHERE id = $auth.id OR $auth.admin = true FOR create WHERE $auth.admin = true",
        ));
        v.push(String::from_str("DEFINE FIELD IF NOT EXISTS name ON sc__editor TYPE string"));
        v.push(String::from_str("DEFINE FIELD IF NOT EXISTS email ON sc__editor TYPE string ASSERT string::is::email($value)"));
        v.push(String::from_str("DEFINE FIELD IF NOT EXISTS password ON sc__editor TYPE string"));
        v.push(String::from_str("DEFINE FIELD IF NOT EXISTS admin ON sc__editor TYPE bool"));
        v.push(String::from_str("DEFINE INDEX email ON user FIELDS email UNIQUE"));
        v.push(String::from_str(
            "DEFINE ACCESS OVERWRITE sc__editor ON DATABASE TYPE RECORD SIGNIN (SELECT * FROM sc__editor WHERE email = $email AND crypto::argon2::compare(password, $password))",
        ));
        assert(texts(v@) =~= init_auth_statements());
        v
    }
}

} // verus!
