use crate::types::{RecordModel, RemittanceId, RemittanceRecord};
use vstd::prelude::*;

verus! {

/// The map that a sequence of writes leaves behind: later writes to an
/// identifier replace earlier ones.
pub open spec fn entries_map(s: Seq<(RemittanceId, RemittanceRecord)>) -> Map<
    Seq<u8>,
    RecordModel,
>
    decreases s.len(),
{
    if s.len() == 0 {
        Map::empty()
    } else {
        entries_map(s.drop_last()).insert(s.last().0@, s.last().1@)
    }
}

/// Whether two identifiers hold the same bytes.
pub fn ids_equal(a: &RemittanceId, b: &RemittanceId) -> (r: bool)
    ensures
        r == (a@ == b@),
{
    let mut i: usize = 0;
    while i < 32
        invariant
            i <= 32,
            forall|j: int| 0 <= j < i ==> a@[j] == b@[j],
        decreases 32 - i,
    {
        if a[i] != b[i] {
            return false;
        }
        i += 1;
    }
    assert(a@ =~= b@);
    true
}

/// The remittance store: records keyed by their identifier. Writing to an
/// identifier that is already present replaces its record.
pub struct RemittanceStore {
    entries: Vec<(RemittanceId, RemittanceRecord)>,
}

impl View for RemittanceStore {
    type V = Map<Seq<u8>, RecordModel>;

    closed spec fn view(&self) -> Map<Seq<u8>, RecordModel> {
        entries_map(self.entries@)
    }
}

impl RemittanceStore {
    /// An empty store.
    pub fn new() -> (r: RemittanceStore)
        ensures
            r@ == Map::<Seq<u8>, RecordModel>::empty(),
    {
        RemittanceStore { entries: Vec::new() }
    }

    /// The record stored under `id`, if any.
    pub fn get(&self, id: &RemittanceId) -> (r: Option<&RemittanceRecord>)
        ensures
            match r {
                Some(rec) => self@.contains_key(id@) && self@[id@] == rec@,
                None => !self@.contains_key(id@),
            },
    {
        let ghost s = self.entries@;
        let mut i: usize = self.entries.len();
        assert(s.take(i as int) =~= s);
        while i > 0
            invariant
                i <= s.len(),
                s == self.entries@,
                entries_map(s).contains_key(id@) == entries_map(s.take(i as int)).contains_key(
                    id@,
                ),
                entries_map(s.take(i as int)).contains_key(id@) ==> entries_map(s)[id@]
                    == entries_map(s.take(i as int))[id@],
            decreases i,
        {
            let entry = &self.entries[i - 1];
            assert(s.take(i as int).drop_last() =~= s.take(i - 1));
            assert(s.take(i as int).last() == s[i - 1]);
            if ids_equal(&entry.0, id) {
                return Some(&entry.1);
            }
            i -= 1;
        }
        None
    }

    /// Whether a record is stored under `id`.
    pub fn contains_key(&self, id: &RemittanceId) -> (r: bool)
        ensures
            r == self@.contains_key(id@),
    {
        self.get(id).is_some()
    }

    /// Stores `record` under `id`, replacing any record already there.
    pub fn insert(&mut self, id: RemittanceId, record: RemittanceRecord)
        ensures
            final(self)@ == old(self)@.insert(id@, record@),
    {
        self.entries.push((id, record));
        assert(self.entries@.drop_last() =~= old(self).entries@);
    }
}

} // verus!
