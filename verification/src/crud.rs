//! The generic admin surface's semantics: create, read, merge-update and
//! logical delete over a store of records, with paged listing.

use vstd::prelude::*;
use crate::errors::{ErrorKind, PicaError};
use crate::kvlist::{kv_unique, lemma_kv_map_at, lemma_kv_map_dom};
use crate::record::RecordMetadata;
use crate::text::str_eq;
use crate::MAX_LIMIT;

verus! {

/// One stored record: its flat fields and its metadata block.
pub struct Record {
    pub fields: Vec<(String, String)>,
    pub metadata: RecordMetadata,
}

/// The map a record's field list denotes; later entries win.
pub open spec fn fields_map(s: Seq<(String, String)>) -> Map<Seq<char>, Seq<char>>
    decreases s.len(),
{
    if s.len() == 0 {
        Map::empty()
    } else {
        fields_map(s.drop_last()).insert(s.last().0@, s.last().1@)
    }
}

/// `m` with every pair of `updates` written over it.
pub open spec fn merged(m: Map<Seq<char>, Seq<char>>, updates: Seq<(String, String)>) -> Map<
    Seq<char>,
    Seq<char>,
>
    decreases updates.len(),
{
    if updates.len() == 0 {
        m
    } else {
        merged(m, updates.drop_last()).insert(updates.last().0@, updates.last().1@)
    }
}

/// Whether `out` lists the ids of the live records from position `skip`
/// of the live order.
pub open spec fn listed_page(out: Seq<String>, records: Seq<(String, Record)>, skip: u64) -> bool {
    forall|k: int|
        0 <= k < out.len() ==> {
            let live = Store::live_positions(records);
            skip + k < live.len() && (#[trigger] out[k])@ == records[live[skip + k]].0@
        }
}

/// A store of records by id. Ids are unique; deletion is logical.
pub struct Store {
    pub records: Vec<(String, Record)>,
}

impl Store {
    /// Ids are unique.
    pub open spec fn wf(&self) -> bool {
        forall|i: int, j: int|
            0 <= i < j < self.records@.len() ==> self.records@[i].0@ != self.records@[j].0@
    }

    /// An empty store.
    pub fn new() -> (r: Store)
        ensures
            r.wf(),
            r.records@.len() == 0,
    {
        Store { records: Vec::new() }
    }

    fn find(&self, id: &str) -> (r: Option<usize>)
        ensures
            r matches Some(i) ==> i < self.records@.len() && self.records@[i as int].0@ == id@,
            r is None ==> forall|i: int| 0 <= i < self.records@.len() ==> self.records@[i].0@ != id@,
    {
        let n = self.records.len();
        let mut i: usize = 0;
        while i < n
            invariant
                0 <= i <= n,
                n == self.records@.len(),
                forall|j: int| 0 <= j < i ==> self.records@[j].0@ != id@,
            decreases n - i,
        {
            if str_eq(self.records[i].0.as_str(), id) {
                return Some(i);
            }
            i = i + 1;
        }
        None
    }

    /// Create a record: conflicts on an id the store already holds, else
    /// stores the fields under fresh metadata stamped `now`.
    pub fn create(&mut self, id: &str, fields: Vec<(String, String)>, now: i64) -> (r: Result<
        (),
        PicaError,
    >)
        requires
            old(self).wf(),
        ensures
            final(self).wf(),
            r is Ok <==> (forall|i: int|
                0 <= i < old(self).records@.len() ==> old(self).records@[i].0@ != id@),
            r matches Err(e) ==> e.kind == ErrorKind::Conflict && final(self).records@ == old(self).records@,
            r is Ok ==> final(self).records@.len() == old(self).records@.len() + 1
                && final(self).records@.drop_last() == old(self).records@
                && final(self).records@.last().0@ == id@
                && fields_map(final(self).records@.last().1.fields@) == fields_map(fields@)
                && final(self).records@.last().1.metadata == RecordMetadata::spec_new(now),
    {
        match self.find(id) {
            Some(_) => Err(PicaError::new(ErrorKind::Conflict, "Record already exists")),
            None => {
                let record = Record { fields, metadata: RecordMetadata::new(now) };
                self.records.push((id.to_owned(), record));
                proof {
                    assert(final(self).records@.drop_last() =~= old(self).records@);
                }
                Ok(())
            },
        }
    }

    /// Read a record by id: present exactly when the store holds the id
    /// and the record is not logically deleted.
    pub fn get<'a>(&'a self, id: &str) -> (r: Option<&'a Record>)
        requires
            self.wf(),
        ensures
            r is Some <==> exists|i: int|
                0 <= i < self.records@.len() && #[trigger] self.records@[i].0@ == id@
                    && !self.records@[i].1.metadata.deleted,
            r matches Some(rec) ==> exists|i: int|
                0 <= i < self.records@.len() && #[trigger] self.records@[i].0@ == id@ && *rec
                    == self.records@[i].1,
    {
        match self.find(id) {
            Some(i) => {
                if self.records[i].1.metadata.deleted {
                    proof {
                        assert(forall|j: int|
                            0 <= j < self.records@.len() && #[trigger] self.records@[j].0@ == id@
                                ==> j == i);
                    }
                    None
                } else {
                    Some(&self.records[i].1)
                }
            },
            None => None,
        }
    }

    /// Merge-update a record: each given pair overwrites or adds its
    /// field; everything else stays; the metadata is stamped updated.
    /// Unknown or deleted ids are not found.
    pub fn update(&mut self, id: &str, updates: &Vec<(String, String)>, now: i64) -> (r: Result<
        (),
        PicaError,
    >)
        requires
            old(self).wf(),
        ensures
            final(self).wf(),
            r is Ok <==> exists|i: int|
                0 <= i < old(self).records@.len() && #[trigger] old(self).records@[i].0@ == id@
                    && !old(self).records@[i].1.metadata.deleted,
            r matches Err(e) ==> e.kind == ErrorKind::NotFound && final(self).records@ == old(self).records@,
            r is Ok ==> exists|i: int|
                {
                    &&& 0 <= i < old(self).records@.len()
                    &&& #[trigger] old(self).records@[i].0@ == id@
                    &&& final(self).records@.len() == old(self).records@.len()
                    &&& (forall|j: int|
                        0 <= j < old(self).records@.len() && j != i
                            ==> final(self).records@[j] == old(self).records@[j])
                    &&& final(self).records@[i].0@ == id@
                    &&& fields_map(final(self).records@[i].1.fields@) == merged(
                        fields_map(old(self).records@[i].1.fields@),
                        updates@,
                    )
                    &&& final(self).records@[i].1.metadata == (RecordMetadata {
                        updated: true,
                        updated_at: now,
                        ..old(self).records@[i].1.metadata
                    })
                },
    {
        match self.find(id) {
            Some(i) => {
                if self.records[i].1.metadata.deleted {
                    proof {
                        assert(forall|j: int|
                            0 <= j < self.records@.len() && #[trigger] self.records@[j].0@ == id@
                                ==> j == i);
                    }
                    return Err(PicaError::not_found("Record not found"));
                }
                let (key, mut record) = self.records.remove(i);
                let n = updates.len();
                let mut k: usize = 0;
                while k < n
                    invariant
                        0 <= k <= n,
                        n == updates@.len(),
                        fields_map(record.fields@) == merged(
                            fields_map(old(self).records@[i as int].1.fields@),
                            updates@.subrange(0, k as int),
                        ),
                        record.metadata == old(self).records@[i as int].1.metadata,
                    decreases n - k,
                {
                    let ghost prev = record.fields@;
                    let pair = (updates[k].0.clone(), updates[k].1.clone());
                    record.fields.push(pair);
                    proof {
                        assert(record.fields@.drop_last() =~= prev);
                        assert(record.fields@.last().0@ == updates@[k as int].0@);
                        assert(record.fields@.last().1@ == updates@[k as int].1@);
                        assert(updates@.subrange(0, k + 1).drop_last() =~= updates@.subrange(
                            0,
                            k as int,
                        ));
                        assert(updates@.subrange(0, k + 1).last() == updates@[k as int]);
                    }
                    k = k + 1;
                }
                record.metadata.mark_updated(now);
                self.records.insert(i, (key, record));
                proof {
                    assert(updates@.subrange(0, n as int) =~= updates@);
                    assert(self.records@ =~= old(self).records@.update(
                        i as int,
                        self.records@[i as int],
                    ));
                    assert(old(self).records@[i as int].0@ == id@);
                    assert(self.records@[i as int].0@ == id@);
                    assert(forall|j: int|
                        0 <= j < self.records@.len() ==> (#[trigger] self.records@[j]).0@ == old(
                            self,
                        ).records@[j].0@);
                }
                Ok(())
            },
            None => Err(PicaError::not_found("Record not found")),
        }
    }

    /// Logically delete a record: it keeps its place but is deleted and
    /// inactive, and reads and lists skip it. Unknown or already deleted
    /// ids are not found.
    pub fn delete(&mut self, id: &str, now: i64) -> (r: Result<(), PicaError>)
        requires
            old(self).wf(),
        ensures
            final(self).wf(),
            r is Ok <==> exists|i: int|
                0 <= i < old(self).records@.len() && #[trigger] old(self).records@[i].0@ == id@
                    && !old(self).records@[i].1.metadata.deleted,
            r matches Err(e) ==> e.kind == ErrorKind::NotFound && final(self).records@ == old(self).records@,
            r is Ok ==> exists|i: int|
                {
                    &&& 0 <= i < old(self).records@.len()
                    &&& #[trigger] old(self).records@[i].0@ == id@
                    &&& final(self).records@.len() == old(self).records@.len()
                    &&& (forall|j: int|
                        0 <= j < old(self).records@.len() && j != i
                            ==> final(self).records@[j] == old(self).records@[j])
                    &&& final(self).records@[i].0@ == id@
                    &&& final(self).records@[i].1.metadata.deleted
                    &&& fields_map(final(self).records@[i].1.fields@) == fields_map(
                        old(self).records@[i].1.fields@,
                    )
                },
    {
        match self.find(id) {
            Some(i) => {
                if self.records[i].1.metadata.deleted {
                    proof {
                        assert(forall|j: int|
                            0 <= j < self.records@.len() && #[trigger] self.records@[j].0@ == id@
                                ==> j == i);
                    }
                    return Err(PicaError::not_found("Record not found"));
                }
                let (key, mut record) = self.records.remove(i);
                record.metadata.mark_deleted(now);
                self.records.insert(i, (key, record));
                proof {
                    assert(self.records@ =~= old(self).records@.update(
                        i as int,
                        self.records@[i as int],
                    ));
                    assert(old(self).records@[i as int].0@ == id@);
                    assert(self.records@[i as int].0@ == id@);
                    assert(forall|j: int|
                        0 <= j < self.records@.len() ==> (#[trigger] self.records@[j]).0@ == old(
                            self,
                        ).records@[j].0@);
                }
                Ok(())
            },
            None => Err(PicaError::not_found("Record not found")),
        }
    }

    /// How many records the store holds, deleted ones included.
    pub fn len(&self) -> (r: usize)
        ensures
            r == self.records@.len(),
    {
        self.records.len()
    }

    /// The positions of the live (not deleted) records, in order.
    pub open spec fn live_positions(s: Seq<(String, Record)>) -> Seq<int>
        decreases s.len(),
    {
        if s.len() == 0 {
            Seq::empty()
        } else if s.last().1.metadata.deleted {
            Store::live_positions(s.drop_last())
        } else {
            Store::live_positions(s.drop_last()).push(s.len() - 1)
        }
    }

    /// List ids of live records, a page at a time: `limit` is clamped to
    /// the largest allowed page, and `skip` live records are passed over
    /// first. The page is full until the live records run out.
    pub fn list_ids(&self, limit: u64, skip: u64) -> (r: Vec<String>)
        requires
            self.wf(),
        ensures
            r@.len() == {
                let capped = if limit > MAX_LIMIT {
                    MAX_LIMIT as int
                } else {
                    limit as int
                };
                let live = Store::live_positions(self.records@).len() as int;
                if live <= skip {
                    0int
                } else if live - skip <= capped {
                    live - skip
                } else {
                    capped
                }
            },
            listed_page(r@, self.records@, skip),
    {
        let capped = crate::clamp_limit(limit);
        let capped_usize: usize = capped as usize;
        let mut out: Vec<String> = Vec::new();
        let n = self.records.len();
        let mut i: usize = 0;
        let mut seen: usize = 0;
        while i < n
            invariant
                0 <= i <= n,
                n == self.records@.len(),
                capped <= MAX_LIMIT,
                capped == (if limit > MAX_LIMIT {
                    MAX_LIMIT as int
                } else {
                    limit as int
                }),
                seen <= i,
                capped_usize == capped,
                seen == Store::live_positions(self.records@.subrange(0, i as int)).len(),
                out@.len() <= capped,
                out@.len() == (if seen <= skip {
                    0int
                } else if seen - skip <= capped {
                    seen - skip
                } else {
                    capped as int
                }),
                listed_page(out@, self.records@, skip),
            decreases n - i,
        {
            proof {
                lemma_live_prefix(self.records@, i as int);
            }
            if !self.records[i].1.metadata.deleted {
                if (seen as u64) >= skip && out.len() < capped_usize {
                    out.push(self.records[i].0.clone());
                    proof {
                        lemma_live_positions_extend(self.records@, i as int);
                        assert(Store::live_positions(self.records@)[seen as int] == i as int);
                    }
                } else {
                    proof {
                        lemma_live_positions_extend(self.records@, i as int);
                    }
                }
                seen = seen + 1;
            }
            i = i + 1;
            proof {
                assert(self.records@.subrange(0, i as int).drop_last() =~= self.records@.subrange(
                    0,
                    i - 1,
                ));
            }
        }
        proof {
            assert(self.records@.subrange(0, n as int) =~= self.records@);
        }
        out
    }
}

/// The live positions among the first `i` records are those of the whole
/// store that fall before `i`.
proof fn lemma_live_prefix(s: Seq<(String, Record)>, i: int)
    requires
        0 <= i <= s.len(),
    ensures
        Store::live_positions(s.subrange(0, i)).len() <= Store::live_positions(s).len(),
        forall|k: int|
            0 <= k < Store::live_positions(s.subrange(0, i)).len()
                ==> #[trigger] Store::live_positions(s)[k] == Store::live_positions(
                s.subrange(0, i),
            )[k],
    decreases s.len() - i,
{
    if i == s.len() {
        assert(s.subrange(0, i) =~= s);
    } else {
        lemma_live_prefix(s, i + 1);
        assert(s.subrange(0, i + 1).drop_last() =~= s.subrange(0, i));
        assert(s.subrange(0, i + 1).last() == s[i]);
    }
}

/// A live record at position `i` stands right after the live positions
/// of the records before it.
proof fn lemma_live_positions_extend(s: Seq<(String, Record)>, i: int)
    requires
        0 <= i < s.len(),
        !s[i].1.metadata.deleted,
    ensures
        Store::live_positions(s.subrange(0, i + 1)) == Store::live_positions(
            s.subrange(0, i),
        ).push(i),
        Store::live_positions(s).len() > Store::live_positions(s.subrange(0, i)).len(),
        Store::live_positions(s)[Store::live_positions(s.subrange(0, i)).len() as int] == i,
{
    assert(s.subrange(0, i + 1).drop_last() =~= s.subrange(0, i));
    assert(s.subrange(0, i + 1).last() == s[i]);
    lemma_live_prefix(s, i + 1);
    assert(Store::live_positions(s.subrange(0, i + 1)).last() == i);
    let pre = Store::live_positions(s.subrange(0, i));
    assert(Store::live_positions(s)[pre.len() as int] == Store::live_positions(
        s.subrange(0, i + 1),
    )[pre.len() as int]);
}

} // verus!
