//! Laws of the versioning operations, stated over the table model that
//! their contracts use.
use vstd::prelude::*;
use serde_json::Value;
use crate::store::{
    Tables,
    ItemState,
    state_of,
    tables_valid,
    lookup,
    draft_state,
    delete_draft_state,
    put_state,
    put_result,
};

verus! {

/// A second draft of an id replaces the first: a lookup shows the later
/// payload, and no draft ever fails for an existing id.
pub proof fn draft_overwrites(m: Tables, id: Seq<char>, p1: Value, p2: Value, t1: i64, t2: i64)
    ensures
        lookup(draft_state(draft_state(m, id, p1, t1), id, p2, t2), id) is Some,
        lookup(draft_state(draft_state(m, id, p1, t1), id, p2, t2), id)->Some_0.inner == p2,
{
}

/// Drafting an item that was never published and then deleting its draft
/// leaves no item behind.
pub proof fn draft_then_delete_draft_removes(m: Tables, id: Seq<char>, p: Value, t: i64)
    requires
        !(m.contains_key(id) && m[id].published is Some),
    ensures
        lookup(delete_draft_state(draft_state(m, id, p, t), id), id) is None,
{
}

/// A draft over published content shows the draft's payload and keeps the
/// publication time that `put` stored.
pub proof fn draft_over_put(
    m: Tables,
    id: Seq<char>,
    p1: Value,
    published_at: Option<i64>,
    t1: i64,
    p2: Value,
    t2: i64,
)
    ensures
        ({
            let after_put = put_state(m, id, p1, published_at, t1);
            let v = lookup(draft_state(after_put, id, p2, t2), id);
            &&& v is Some
            &&& v->Some_0.inner == p2
            &&& v->Some_0.published_at == put_result(after_put[id], id, p1, published_at).published_at
        }),
{
}

/// Deleting the draft that was written over published content shows the
/// published content again.
pub proof fn delete_draft_restores_published(
    m: Tables,
    id: Seq<char>,
    p1: Value,
    published_at: Option<i64>,
    t1: i64,
    p2: Value,
    t2: i64,
)
    ensures
        ({
            let s = delete_draft_state(draft_state(put_state(m, id, p1, published_at, t1), id, p2, t2), id);
            &&& lookup(s, id) is Some
            &&& lookup(s, id)->Some_0.inner == p1
        }),
{
}

/// A draft of one id leaves every other id's records as they were.
pub proof fn draft_isolated(m: Tables, a: Seq<char>, b: Seq<char>, p: Value, t: i64)
    requires
        a != b,
    ensures
        lookup(draft_state(m, a, p, t), b) == lookup(m, b),
        draft_state(m, a, p, t).contains_key(b) == m.contains_key(b),
        m.contains_key(b) ==> draft_state(m, a, p, t)[b] == m[b],
{
}

/// Drafts of two distinct ids give the same tables in either order.
pub proof fn drafts_commute(m: Tables, a: Seq<char>, b: Seq<char>, pa: Value, pb: Value, ta: i64, tb: i64)
    requires
        a != b,
    ensures
        draft_state(draft_state(m, a, pa, ta), b, pb, tb) == draft_state(draft_state(m, b, pb, tb), a, pa, ta),
{
    assert(draft_state(draft_state(m, a, pa, ta), b, pb, tb) =~= draft_state(draft_state(m, b, pb, tb), a, pa, ta));
}

/// A draft leaves the item with a draft, and with a published record
/// exactly when it had one before.
pub proof fn draft_transition(m: Tables, id: Seq<char>, p: Value, t: i64)
    requires
        tables_valid(m),
    ensures
        state_of(draft_state(m, id, p, t), id) == (match state_of(m, id) {
            ItemState::PublishedOnly | ItemState::DraftAndPublished => ItemState::DraftAndPublished,
            _ => ItemState::DraftOnly,
        }),
{
}

/// Deleting the draft of a draft-only item removes it; of an item that is
/// also published, leaves it published only; of other items, changes nothing.
pub proof fn delete_draft_transition(m: Tables, id: Seq<char>)
    requires
        tables_valid(m),
    ensures
        state_of(delete_draft_state(m, id), id) == (match state_of(m, id) {
            ItemState::DraftOnly => ItemState::Nonexistent,
            ItemState::DraftAndPublished => ItemState::PublishedOnly,
            s => s,
        }),
{
}

/// `put` leaves the item published, with its draft kept when it had one.
pub proof fn put_transition(m: Tables, id: Seq<char>, p: Value, published_at: Option<i64>, t: i64)
    ensures
        state_of(put_state(m, id, p, published_at, t), id) == (match state_of(m, id) {
            ItemState::DraftOnly | ItemState::DraftAndPublished => ItemState::DraftAndPublished,
            _ => ItemState::PublishedOnly,
        }),
{
}

/// `delete` leaves no item.
pub proof fn delete_transition(m: Tables, id: Seq<char>)
    ensures
        state_of(m.remove(id), id) == ItemState::Nonexistent,
{
}

/// Every operation keeps each meta record referring to a draft or a
/// published record.
pub proof fn operations_keep_tables_valid(m: Tables, id: Seq<char>, p: Value, published_at: Option<i64>, t: i64)
    requires
        tables_valid(m),
    ensures
        tables_valid(draft_state(m, id, p, t)),
        tables_valid(delete_draft_state(m, id)),
        tables_valid(put_state(m, id, p, published_at, t)),
        tables_valid(m.remove(id)),
{
}

} // verus!
