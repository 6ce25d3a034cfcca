//! The three-record model of one document type and the versioning
//! operations on it, as an in-memory store whose contracts state what each
//! operation does to the tables.
//!
//! For each logical item the published table may hold its published record,
//! the draft table its draft record, and the meta table its timestamps and
//! the references to the other two. A meta record exists exactly when the
//! item exists, and it always refers to a draft or a published record.
use vstd::prelude::*;
use serde_json::Value;

verus! {

/// The published record of an item.
pub struct PublishedRecord {
    pub inner: Value,
    pub published_at: Option<i64>,
}

/// What the three tables hold for one id: the meta record's timestamps,
/// the draft record's content and the published record.
pub struct ItemRecords {
    pub created_at: i64,
    pub modified_at: i64,
    pub draft: Option<Value>,
    pub published: Option<PublishedRecord>,
}

/// The caller-facing merged view of an item.
pub struct Item {
    pub id: String,
    pub created_at: i64,
    pub modified_at: i64,
    pub published_at: Option<i64>,
    pub inner: Value,
}

/// An `Item` with its id as a sequence of characters.
pub struct ItemView {
    pub id: Seq<char>,
    pub created_at: i64,
    pub modified_at: i64,
    pub published_at: Option<i64>,
    pub inner: Value,
}

impl View for Item {
    type V = ItemView;

    open spec fn view(&self) -> ItemView {
        ItemView {
            id: self.id@,
            created_at: self.created_at,
            modified_at: self.modified_at,
            published_at: self.published_at,
            inner: self.inner,
        }
    }
}

/// The contents of the three tables, keyed by item id.
pub type Tables = Map<Seq<char>, ItemRecords>;

/// A meta record refers to a draft or to a published record.
pub open spec fn records_valid(r: ItemRecords) -> bool {
    r.draft is Some || r.published is Some
}

/// Every stored item satisfies `records_valid`.
pub open spec fn tables_valid(m: Tables) -> bool {
    forall|k: Seq<char>| #[trigger] m.contains_key(k) ==> records_valid(m[k])
}

/// The content shown to callers: the draft if there is one, else the
/// published content.
pub open spec fn merged_inner(r: ItemRecords) -> Value {
    match r.draft {
        Some(d) => d,
        None => match r.published {
            Some(p) => p.inner,
            None => arbitrary(),
        },
    }
}

/// The publication time shown to callers: the published record's alone.
pub open spec fn merged_published_at(r: ItemRecords) -> Option<i64> {
    match r.published {
        Some(p) => p.published_at,
        None => None,
    }
}

/// The merged view of the records stored under `id`.
pub open spec fn merged(id: Seq<char>, r: ItemRecords) -> ItemView {
    ItemView {
        id,
        created_at: r.created_at,
        modified_at: r.modified_at,
        published_at: merged_published_at(r),
        inner: merged_inner(r),
    }
}

/// What a lookup of `id` returns: nothing without a meta record, else the
/// merged view.
pub open spec fn lookup(m: Tables, id: Seq<char>) -> Option<ItemView> {
    if m.contains_key(id) {
        Some(merged(id, m[id]))
    } else {
        None
    }
}

/// The view of an optional item.
pub open spec fn item_views(o: Option<Item>) -> Option<ItemView> {
    match o {
        Some(it) => Some(it@),
        None => None,
    }
}

/// Where an item stands in its lifecycle.
#[derive(Debug, PartialEq, Eq, Structural, Clone, Copy)]
pub enum ItemState {
    Nonexistent,
    DraftOnly,
    PublishedOnly,
    DraftAndPublished,
}

/// The lifecycle state of `id` in `m`.
pub open spec fn state_of(m: Tables, id: Seq<char>) -> ItemState {
    if !m.contains_key(id) {
        ItemState::Nonexistent
    } else {
        match (m[id].draft, m[id].published) {
            (Some(_), Some(_)) => ItemState::DraftAndPublished,
            (Some(_), None) => ItemState::DraftOnly,
            _ => ItemState::PublishedOnly,
        }
    }
}

/// The records of `id` after a draft of `data` at time `now`.
pub open spec fn drafted(m: Tables, id: Seq<char>, data: Value, now: i64) -> ItemRecords {
    if m.contains_key(id) {
        ItemRecords { modified_at: now, draft: Some(data), ..m[id] }
    } else {
        ItemRecords { created_at: now, modified_at: now, draft: Some(data), published: None }
    }
}

/// The tables after a draft of `data` for `id` at time `now`.
pub open spec fn draft_state(m: Tables, id: Seq<char>, data: Value, now: i64) -> Tables {
    m.insert(id, drafted(m, id, data, now))
}

/// The tables after the draft of `id` is removed: the meta record goes too
/// when no published record remains.
pub open spec fn delete_draft_state(m: Tables, id: Seq<char>) -> Tables {
    if !m.contains_key(id) {
        m
    } else if m[id].published is None {
        m.remove(id)
    } else {
        m.insert(id, ItemRecords { draft: None, ..m[id] })
    }
}

/// The records of `id` after `put` stores `inner` as its published content.
pub open spec fn stored(
    m: Tables,
    id: Seq<char>,
    inner: Value,
    published_at: Option<i64>,
    now: i64,
) -> ItemRecords {
    let p = PublishedRecord { inner, published_at };
    if m.contains_key(id) {
        ItemRecords { modified_at: now, published: Some(p), ..m[id] }
    } else {
        ItemRecords { created_at: now, modified_at: now, draft: None, published: Some(p) }
    }
}

/// The tables after `put` of `inner` under `id`; the draft stays as it was.
pub open spec fn put_state(
    m: Tables,
    id: Seq<char>,
    inner: Value,
    published_at: Option<i64>,
    now: i64,
) -> Tables {
    m.insert(id, stored(m, id, inner, published_at, now))
}

/// The item that `put` reports: the published record as stored, with the
/// meta record's timestamps.
pub open spec fn put_result(r: ItemRecords, id: Seq<char>, inner: Value, published_at: Option<i64>) -> ItemView {
    ItemView { id, created_at: r.created_at, modified_at: r.modified_at, published_at, inner }
}

struct Entry {
    id: String,
    records: ItemRecords,
}

/// The tables of one document type.
pub struct DocTables {
    entries: Vec<Entry>,
}

impl View for DocTables {
    type V = Tables;

    closed spec fn view(&self) -> Tables {
        Map::new(|k: Seq<char>| self.has(k), |k: Seq<char>| self.records_of(k))
    }
}

fn clone_published(p: &Option<PublishedRecord>) -> (r: Option<PublishedRecord>)
    ensures
        r == *p,
{
    match p {
        Some(p) => Some(PublishedRecord { inner: p.inner.clone(), published_at: p.published_at }),
        None => None,
    }
}

/// The merged view of `r` under `id`.
pub fn merge(id: &str, r: &ItemRecords) -> (it: Item)
    requires
        records_valid(*r),
    ensures
        it@ == merged(id@, *r),
{
    let inner = match &r.draft {
        Some(d) => d.clone(),
        None => r.published.as_ref().unwrap().inner.clone(),
    };
    let published_at = match &r.published {
        Some(p) => p.published_at,
        None => None,
    };
    Item {
        id: id.to_owned(),
        created_at: r.created_at,
        modified_at: r.modified_at,
        published_at,
        inner,
    }
}

impl DocTables {
    spec fn has(&self, k: Seq<char>) -> bool {
        exists|i: int| 0 <= i < self.entries@.len() && #[trigger] self.entries@[i].id@ == k
    }

    spec fn records_of(&self, k: Seq<char>) -> ItemRecords {
        self.entries@[choose|i: int| 0 <= i < self.entries@.len() && #[trigger] self.entries@[i].id@ == k].records
    }

    /// Ids are unique and every meta record refers to a draft or a published record.
    pub closed spec fn wf(&self) -> bool {
        &&& forall|i: int, j: int|
            0 <= i < j < self.entries@.len() ==> #[trigger] self.entries@[i].id@ != #[trigger] self.entries@[j].id@
        &&& forall|i: int| 0 <= i < self.entries@.len() ==> records_valid(#[trigger] self.entries@[i].records)
    }

    proof fn lemma_at(&self, i: int)
        requires
            self.wf(),
            0 <= i < self.entries@.len(),
        ensures
            self@.contains_key(self.entries@[i].id@),
            self@[self.entries@[i].id@] == self.entries@[i].records,
    {
        let k = self.entries@[i].id@;
        assert(self.has(k));
        let j = choose|j: int| 0 <= j < self.entries@.len() && #[trigger] self.entries@[j].id@ == k;
        if i < j {
            assert(self.entries@[i].id@ != self.entries@[j].id@);
        } else if j < i {
            assert(self.entries@[j].id@ != self.entries@[i].id@);
        }
    }

    /// Well-formed tables hold only items that satisfy `records_valid`.
    pub proof fn lemma_valid(&self)
        requires
            self.wf(),
        ensures
            tables_valid(self@),
    {
        assert forall|k: Seq<char>| #[trigger] self@.contains_key(k) implies records_valid(self@[k]) by {
            let i = choose|i: int| 0 <= i < self.entries@.len() && #[trigger] self.entries@[i].id@ == k;
            self.lemma_at(i);
        }
    }

    /// Empty tables.
    pub fn new() -> (r: DocTables)
        ensures
            r.wf(),
            r@ == Map::<Seq<char>, ItemRecords>::empty(),
    {
        let r = DocTables { entries: Vec::new() };
        assert(r@ =~= Map::<Seq<char>, ItemRecords>::empty());
        r
    }

    fn find(&self, id: &str) -> (r: Option<usize>)
        ensures
            match r {
                Some(i) => i < self.entries@.len() && self.entries@[i as int].id@ == id@,
                None => !self.has(id@),
            },
    {
        let key = id.to_owned();
        let mut i: usize = 0;
        while i < self.entries.len()
            invariant
                i <= self.entries@.len(),
                key@ == id@,
                forall|j: int| 0 <= j < i ==> #[trigger] self.entries@[j].id@ != id@,
            decreases self.entries@.len() - i,
        {
            if self.entries[i].id.eq(&key) {
                return Some(i);
            }
            i = i + 1;
        }
        None
    }

    proof fn lemma_replace(old: &DocTables, new: &DocTables, i: int, rec: ItemRecords)
        requires
            old.wf(),
            0 <= i < old.entries@.len(),
            records_valid(rec),
            new.entries@.len() == old.entries@.len(),
            new.entries@[i].id@ == old.entries@[i].id@,
            new.entries@[i].records == rec,
            forall|j: int| 0 <= j < old.entries@.len() && j != i ==> new.entries@[j] == old.entries@[j],
        ensures
            new.wf(),
            new@ == old@.insert(old.entries@[i].id@, rec),
    {
        let k = old.entries@[i].id@;
        assert forall|a: int, b: int| 0 <= a < b < new.entries@.len() implies
            #[trigger] new.entries@[a].id@ != #[trigger] new.entries@[b].id@ by {
            assert(old.entries@[a].id@ != old.entries@[b].id@);
        }
        assert forall|a: int| 0 <= a < new.entries@.len() implies records_valid(#[trigger] new.entries@[a].records) by {
            if a != i {
                assert(records_valid(old.entries@[a].records));
            }
        }
        let m = old@.insert(k, rec);
        assert forall|key: Seq<char>|
            (#[trigger] new@.contains_key(key) == m.contains_key(key))
            && (new@.contains_key(key) ==> new@[key] == m[key]) by {
            if key == k {
                new.lemma_at(i);
            } else if new.has(key) {
                let j = choose|j: int| 0 <= j < new.entries@.len() && #[trigger] new.entries@[j].id@ == key;
                new.lemma_at(j);
                old.lemma_at(j);
            } else if old.has(key) {
                let j = choose|j: int| 0 <= j < old.entries@.len() && #[trigger] old.entries@[j].id@ == key;
                assert(new.entries@[j].id@ == key);
            }
        }
        assert(new@ =~= m);
    }

    proof fn lemma_push(old: &DocTables, new: &DocTables, k: Seq<char>, rec: ItemRecords)
        requires
            old.wf(),
            !old@.contains_key(k),
            records_valid(rec),
            new.entries@.len() == old.entries@.len() + 1,
            new.entries@[old.entries@.len() as int].id@ == k,
            new.entries@[old.entries@.len() as int].records == rec,
            forall|j: int| 0 <= j < old.entries@.len() ==> new.entries@[j] == old.entries@[j],
        ensures
            new.wf(),
            new@ == old@.insert(k, rec),
    {
        let n = old.entries@.len() as int;
        assert forall|a: int, b: int| 0 <= a < b < new.entries@.len() implies
            #[trigger] new.entries@[a].id@ != #[trigger] new.entries@[b].id@ by {
            if b < n {
                assert(old.entries@[a].id@ != old.entries@[b].id@);
            } else {
                assert(old.entries@[a].id@ == new.entries@[a].id@);
                if old.entries@[a].id@ == k {
                    assert(old.has(k));
                }
            }
        }
        assert forall|a: int| 0 <= a < new.entries@.len() implies records_valid(#[trigger] new.entries@[a].records) by {
            if a != n {
                assert(records_valid(old.entries@[a].records));
            }
        }
        let m = old@.insert(k, rec);
        assert forall|key: Seq<char>|
            (#[trigger] new@.contains_key(key) == m.contains_key(key))
            && (new@.contains_key(key) ==> new@[key] == m[key]) by {
            if key == k {
                new.lemma_at(n);
            } else if new.has(key) {
                let j = choose|j: int| 0 <= j < new.entries@.len() && #[trigger] new.entries@[j].id@ == key;
                new.lemma_at(j);
                old.lemma_at(j);
            } else if old.has(key) {
                let j = choose|j: int| 0 <= j < old.entries@.len() && #[trigger] old.entries@[j].id@ == key;
                assert(new.entries@[j].id@ == key);
            }
        }
        assert(new@ =~= m);
    }

    proof fn lemma_remove(old: &DocTables, new: &DocTables, i: int)
        requires
            old.wf(),
            0 <= i < old.entries@.len(),
            new.entries@ == old.entries@.remove(i),
        ensures
            new.wf(),
            new@ == old@.remove(old.entries@[i].id@),
    {
        let k = old.entries@[i].id@;
        let n = new.entries@.len() as int;
        assert forall|a: int, b: int| 0 <= a < b < n implies
            #[trigger] new.entries@[a].id@ != #[trigger] new.entries@[b].id@ by {
            let oa = if a < i { a } else { a + 1 };
            let ob = if b < i { b } else { b + 1 };
            assert(new.entries@[a] == old.entries@[oa]);
            assert(new.entries@[b] == old.entries@[ob]);
            assert(old.entries@[oa].id@ != old.entries@[ob].id@);
        }
        assert forall|a: int| 0 <= a < n implies records_valid(#[trigger] new.entries@[a].records) by {
            let oa = if a < i { a } else { a + 1 };
            assert(new.entries@[a] == old.entries@[oa]);
            assert(records_valid(old.entries@[oa].records));
        }
        let m = old@.remove(k);
        assert forall|key: Seq<char>|
            (#[trigger] new@.contains_key(key) == m.contains_key(key))
            && (new@.contains_key(key) ==> new@[key] == m[key]) by {
            if new.has(key) {
                let j = choose|j: int| 0 <= j < n && #[trigger] new.entries@[j].id@ == key;
                let oj = if j < i { j } else { j + 1 };
                assert(new.entries@[j] == old.entries@[oj]);
                new.lemma_at(j);
                old.lemma_at(oj);
                if key == k {
                    if oj < i {
                        assert(old.entries@[oj].id@ != old.entries@[i].id@);
                    } else {
                        assert(old.entries@[i].id@ != old.entries@[oj].id@);
                    }
                }
            } else if old.has(key) && key != k {
                let j = choose|j: int| 0 <= j < old.entries@.len() && #[trigger] old.entries@[j].id@ == key;
                assert(j != i);
                let nj = if j < i { j } else { j - 1 };
                assert(new.entries@[nj] == old.entries@[j]);
                assert(new.entries@[nj].id@ == key);
            }
        }
        assert(new@ =~= m);
    }

    /// The lifecycle state of `id`.
    pub fn state(&self, id: &str) -> (r: ItemState)
        requires
            self.wf(),
        ensures
            r == state_of(self@, id@),
    {
        match self.find(id) {
            Some(i) => {
                proof {
                    self.lemma_at(i as int);
                }
                let rec = &self.entries[i].records;
                if rec.draft.is_some() {
                    if rec.published.is_some() {
                        ItemState::DraftAndPublished
                    } else {
                        ItemState::DraftOnly
                    }
                } else {
                    ItemState::PublishedOnly
                }
            },
            None => ItemState::Nonexistent,
        }
    }

    /// The merged view of item `id`, or `None` when it has no meta record.
    pub fn get_by_id(&self, id: &str) -> (r: Option<Item>)
        requires
            self.wf(),
        ensures
            item_views(r) == lookup(self@, id@),
    {
        match self.find(id) {
            Some(i) => {
                proof {
                    self.lemma_at(i as int);
                }
                Some(merge(id, &self.entries[i].records))
            },
            None => None,
        }
    }

    /// The merged view of every item, one entry per existing id.
    pub fn get_all(&self) -> (r: Vec<Item>)
        requires
            self.wf(),
        ensures
            forall|i: int| 0 <= i < r@.len() ==> #[trigger] self@.contains_key(r@[i].id@)
                && r@[i]@ == merged(r@[i].id@, self@[r@[i].id@]),
            forall|k: Seq<char>| #[trigger] self@.contains_key(k) ==> exists|i: int| 0 <= i < r@.len() && #[trigger] r@[i].id@ == k,
            forall|i: int, j: int| 0 <= i < j < r@.len() ==> #[trigger] r@[i].id@ != #[trigger] r@[j].id@,
    {
        let mut r: Vec<Item> = Vec::new();
        let mut i: usize = 0;
        while i < self.entries.len()
            invariant
                self.wf(),
                i <= self.entries@.len(),
                r@.len() == i,
                forall|j: int| 0 <= j < i ==> (#[trigger] r@[j]).id@ == self.entries@[j].id@
                    && r@[j]@ == merged(self.entries@[j].id@, self.entries@[j].records),
            decreases self.entries@.len() - i,
        {
            proof {
                assert(records_valid(self.entries@[i as int].records));
            }
            let it = merge(self.entries[i].id.as_str(), &self.entries[i].records);
            r.push(it);
            i = i + 1;
        }
        proof {
            assert forall|j: int| 0 <= j < r@.len() implies #[trigger] self@.contains_key(r@[j].id@)
                && r@[j]@ == merged(r@[j].id@, self@[r@[j].id@]) by {
                assert(r@[j].id@ == self.entries@[j].id@);
                self.lemma_at(j);
            }
            assert forall|k: Seq<char>| #[trigger] self@.contains_key(k) implies exists|j: int| 0 <= j < r@.len() && #[trigger] r@[j].id@ == k by {
                let j = choose|j: int| 0 <= j < self.entries@.len() && #[trigger] self.entries@[j].id@ == k;
                assert(r@[j].id@ == k);
            }
            assert forall|a: int, b: int| 0 <= a < b < r@.len() implies #[trigger] r@[a].id@ != #[trigger] r@[b].id@ by {
                assert(r@[a].id@ == self.entries@[a].id@);
                assert(r@[b].id@ == self.entries@[b].id@);
                assert(self.entries@[a].id@ != self.entries@[b].id@);
            }
        }
        r
    }

    /// Stores `data` as the draft of `id` at time `now`, creating the item
    /// when it does not exist; returns the merged view.
    pub fn draft(&mut self, id: &str, data: Value, now: i64) -> (r: Item)
        requires
            old(self).wf(),
        ensures
            final(self).wf(),
            final(self)@ == draft_state(old(self)@, id@, data, now),
            r@ == merged(id@, drafted(old(self)@, id@, data, now)),
    {
        match self.find(id) {
            Some(i) => {
                proof {
                    self.lemma_at(i as int);
                }
                let rec = ItemRecords {
                    created_at: self.entries[i].records.created_at,
                    modified_at: now,
                    draft: Some(data),
                    published: clone_published(&self.entries[i].records.published),
                };
                let r = merge(id, &rec);
                let ghost g = rec;
                self.entries.set(i, Entry { id: id.to_owned(), records: rec });
                proof {
                    DocTables::lemma_replace(old(self), self, i as int, g);
                }
                r
            },
            None => {
                let rec = ItemRecords { created_at: now, modified_at: now, draft: Some(data), published: None };
                let r = merge(id, &rec);
                let ghost g = rec;
                self.entries.push(Entry { id: id.to_owned(), records: rec });
                proof {
                    DocTables::lemma_push(old(self), self, id@, g);
                }
                r
            },
        }
    }

    /// Removes the draft of `id`; the item goes entirely when it has no
    /// published record. Returns the merged view of what remains.
    pub fn delete_draft(&mut self, id: &str) -> (r: Option<Item>)
        requires
            old(self).wf(),
        ensures
            final(self).wf(),
            final(self)@ == delete_draft_state(old(self)@, id@),
            item_views(r) == lookup(final(self)@, id@),
    {
        match self.find(id) {
            Some(i) => {
                proof {
                    self.lemma_at(i as int);
                }
                if self.entries[i].records.published.is_none() {
                    self.entries.remove(i);
                    proof {
                        DocTables::lemma_remove(old(self), self, i as int);
                    }
                    None
                } else {
                    let rec = ItemRecords {
                        created_at: self.entries[i].records.created_at,
                        modified_at: self.entries[i].records.modified_at,
                        draft: None,
                        published: clone_published(&self.entries[i].records.published),
                    };
                    let r = merge(id, &rec);
                    let ghost g = rec;
                    self.entries.set(i, Entry { id: id.to_owned(), records: rec });
                    proof {
                        DocTables::lemma_replace(old(self), self, i as int, g);
                    }
                    Some(r)
                }
            },
            None => None,
        }
    }

    /// Stores `item.inner` as the published content of `item.id`, with the
    /// item's publication time, creating the item when it does not exist.
    /// The draft is left as it was. Returns the stored item.
    pub fn put(&mut self, item: Item, now: i64) -> (r: Item)
        requires
            old(self).wf(),
        ensures
            final(self).wf(),
            final(self)@ == put_state(old(self)@, item.id@, item.inner, item.published_at, now),
            r@ == put_result(final(self)@[item.id@], item.id@, item.inner, item.published_at),
    {
        let Item { id, created_at: _, modified_at: _, published_at, inner } = item;
        let ret_inner = inner.clone();
        match self.find(id.as_str()) {
            Some(i) => {
                proof {
                    self.lemma_at(i as int);
                }
                let draft = match &self.entries[i].records.draft {
                    Some(d) => Some(d.clone()),
                    None => None,
                };
                let rec = ItemRecords {
                    created_at: self.entries[i].records.created_at,
                    modified_at: now,
                    draft,
                    published: Some(PublishedRecord { inner, published_at }),
                };
                let r = Item {
                    id: id.clone(),
                    created_at: rec.created_at,
                    modified_at: now,
                    published_at,
                    inner: ret_inner,
                };
                let ghost g = rec;
                self.entries.set(i, Entry { id, records: rec });
                proof {
                    DocTables::lemma_replace(old(self), self, i as int, g);
                }
                r
            },
            None => {
                let rec = ItemRecords {
                    created_at: now,
                    modified_at: now,
                    draft: None,
                    published: Some(PublishedRecord { inner, published_at }),
                };
                let r = Item { id: id.clone(), created_at: now, modified_at: now, published_at, inner: ret_inner };
                let ghost g = rec;
                let ghost k = id@;
                self.entries.push(Entry { id, records: rec });
                proof {
                    DocTables::lemma_push(old(self), self, k, g);
                }
                r
            },
        }
    }

    /// Removes item `id` with its draft, published and meta records;
    /// returns its merged view from before the removal.
    pub fn delete(&mut self, id: &str) -> (r: Option<Item>)
        requires
            old(self).wf(),
        ensures
            final(self).wf(),
            final(self)@ == old(self)@.remove(id@),
            item_views(r) == lookup(old(self)@, id@),
    {
        match self.find(id) {
            Some(i) => {
                proof {
                    self.lemma_at(i as int);
                }
                let r = merge(id, &self.entries[i].records);
                self.entries.remove(i);
                proof {
                    DocTables::lemma_remove(old(self), self, i as int);
                }
                Some(r)
            },
            None => {
                assert(old(self)@.remove(id@) =~= old(self)@);
                None
            },
        }
    }
}

} // verus!
