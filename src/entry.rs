use vstd::hash_map::StringHashMap;
use vstd::prelude::*;

verus! {

/// The full record of one entry, as the remote service returns it. The value
/// and the attributes are JSON texts.
#[derive(Clone, Debug, PartialEq, Eq)]
pub struct EntryRecord {
    pub id: String,
    pub value: String,
    pub attributes: Option<String>,
    pub users: Vec<u64>,
    pub revision_id: String,
    pub create_time: String,
    pub revision_create_time: String,
    pub etag: String,
}

/// An entry record as plain values.
pub struct EntryView {
    pub id: Seq<char>,
    pub value: Seq<char>,
    pub attributes: Option<Seq<char>>,
    pub users: Seq<u64>,
    pub revision_id: Seq<char>,
    pub create_time: Seq<char>,
    pub revision_create_time: Seq<char>,
    pub etag: Seq<char>,
}

impl View for EntryRecord {
    type V = EntryView;

    open spec fn view(&self) -> EntryView {
        EntryView {
            id: self.id@,
            value: self.value@,
            attributes: crate::scope::opt_view(self.attributes),
            users: self.users@,
            revision_id: self.revision_id@,
            create_time: self.create_time@,
            revision_create_time: self.revision_create_time@,
            etag: self.etag@,
        }
    }
}

/// A copy of a list of user ids.
fn copy_users(users: &Vec<u64>) -> (r: Vec<u64>)
    ensures
        r@ == users@,
{
    let mut out: Vec<u64> = Vec::new();
    let mut i: usize = 0;
    while i < users.len()
        invariant
            i <= users.len(),
            out@ == users@.subrange(0, i as int),
        decreases users.len() - i,
    {
        out.push(users[i]);
        i += 1;
        assert(out@ =~= users@.subrange(0, i as int));
    }
    assert(out@ =~= users@);
    out
}

impl EntryRecord {
    /// A copy of this record, field by field.
    pub fn copy(&self) -> (r: EntryRecord)
        ensures
            r@ == self@,
    {
        EntryRecord {
            id: self.id.clone(),
            value: self.value.clone(),
            attributes: crate::scope::copy_opt(&self.attributes),
            users: copy_users(&self.users),
            revision_id: self.revision_id.clone(),
            create_time: self.create_time.clone(),
            revision_create_time: self.revision_create_time.clone(),
            etag: self.etag.clone(),
        }
    }
}

/// Full entry records keyed by entry id, independent of the page that
/// listed them.
pub struct EntryStore {
    entries: StringHashMap<EntryRecord>,
}

impl View for EntryStore {
    type V = Map<Seq<char>, EntryView>;

    closed spec fn view(&self) -> Map<Seq<char>, EntryView> {
        self.entries@.map_values(|e: EntryRecord| e@)
    }
}

impl EntryStore {
    /// A store with no record.
    pub fn new() -> (r: EntryStore)
        ensures
            r@ == Map::<Seq<char>, EntryView>::empty(),
    {
        let r = EntryStore { entries: StringHashMap::new() };
        assert(r@ =~= Map::<Seq<char>, EntryView>::empty());
        r
    }

    /// The record stored under `id`, if any.
    pub fn get(&self, id: &str) -> (r: Option<&EntryRecord>)
        ensures
            match r {
                Some(e) => self@.contains_key(id@) && e@ == self@[id@],
                None => !self@.contains_key(id@),
            },
    {
        self.entries.get(id)
    }

    /// Whether a record is stored under `id`.
    pub fn contains(&self, id: &str) -> (r: bool)
        ensures
            r == self@.contains_key(id@),
    {
        self.entries.contains_key(id)
    }

    /// Stores `record` under `id`, replacing what was there.
    pub fn insert(&mut self, id: String, record: EntryRecord)
        ensures
            final(self)@ == old(self)@.insert(id@, record@),
    {
        let ghost key = id@;
        let ghost v = record@;
        self.entries.insert(id, record);
        assert(self@ =~= old(self)@.insert(key, v));
    }

    /// Forgets the record stored under `id`, if any.
    pub fn remove(&mut self, id: &str)
        ensures
            final(self)@ == old(self)@.remove(id@),
    {
        self.entries.remove(id);
        assert(self@ =~= old(self)@.remove(id@));
    }

    /// Forgets every record.
    pub fn clear(&mut self)
        ensures
            final(self)@ == Map::<Seq<char>, EntryView>::empty(),
    {
        self.entries.clear();
        assert(self@ =~= Map::<Seq<char>, EntryView>::empty());
    }
}

} // verus!
