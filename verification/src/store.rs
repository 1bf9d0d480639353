//! The registry store: an append-only sequence of `key -> descriptor` rows.
//! An album is stored as several rows sharing one key; the shape of a lookup
//! result is derived from the row count alone.

use vstd::prelude::*;
use crate::media::{Media, MediaKind, MediaKindV, MediaV};

verus! {

/// One durable row: a short identifier and one stored descriptor.
pub struct Record {
    pub key: String,
    pub media: Media,
}

/// Mathematical model of a [`Record`].
pub ghost struct RecordV {
    pub key: Seq<char>,
    pub media: MediaV,
}

impl View for Record {
    type V = RecordV;

    open spec fn view(&self) -> RecordV {
        RecordV { key: self.key@, media: self.media@ }
    }
}

impl DeepView for Record {
    type V = RecordV;

    open spec fn deep_view(&self) -> RecordV {
        self@
    }
}

/// The descriptors stored under `key`, in insertion order.
pub open spec fn rows_for(rows: Seq<RecordV>, key: Seq<char>) -> Seq<MediaV>
    decreases rows.len(),
{
    if rows.len() == 0 {
        Seq::empty()
    } else {
        let rest = rows_for(rows.drop_last(), key);
        if rows.last().key == key {
            rest.push(rows.last().media)
        } else {
            rest
        }
    }
}

/// Cardinality decides the shape of a result: zero matching rows are no
/// result, exactly one is `Single`, more than one are `Group` in stored
/// order. No explicit flag is kept: an album reduced to one surviving row is
/// indistinguishable from an always-single post.
pub open spec fn spec_resolve(matches: Seq<MediaV>) -> Option<MediaKindV> {
    if matches.len() == 0 {
        None
    } else if matches.len() == 1 {
        Some(MediaKindV::Single(matches[0]))
    } else {
        Some(MediaKindV::Group(matches))
    }
}

/// What a lookup of `key` over `rows` returns.
pub open spec fn spec_lookup(rows: Seq<RecordV>, key: Seq<char>) -> Option<MediaKindV> {
    spec_resolve(rows_for(rows, key))
}

/// Derives the reply shape from the row count alone; `rows` must already be
/// the records matching one key, in insertion order.
pub fn media_kind_of_rows(rows: Vec<Media>) -> (r: Option<MediaKind>)
    ensures
        r.deep_view() == spec_resolve(rows.deep_view()),
{
    if rows.len() == 0 {
        None
    } else if rows.len() == 1 {
        let mut rows = rows;
        let m = rows.pop().unwrap();
        Some(MediaKind::Single(m))
    } else {
        Some(MediaKind::Group(rows))
    }
}

/// The in-memory registry store: a durable `key -> descriptor(s)` mapping
/// with insert-per-item and read-all-by-key operations.
pub struct Registry {
    rows: Vec<Record>,
}

impl View for Registry {
    type V = Seq<RecordV>;

    closed spec fn view(&self) -> Seq<RecordV> {
        self.rows.deep_view()
    }
}

impl Registry {
    /// An empty store.
    pub fn new() -> (r: Self)
        ensures
            r@ == Seq::<RecordV>::empty(),
    {
        let r = Registry { rows: Vec::new() };
        proof {
            assert(r@ =~= Seq::<RecordV>::empty());
        }
        r
    }

    /// Appends one record; never overwrites. Repeated inserts under one key
    /// are the supported way an album is stored.
    pub fn insert(&mut self, key: String, media: Media)
        ensures
            final(self)@ == old(self)@.push(RecordV { key: key@, media: media@ }),
    {
        let ghost target = old(self)@.push(RecordV { key: key@, media: media@ });
        self.rows.push(Record { key, media });
        proof {
            assert(self@ =~= target);
        }
    }

    /// All descriptors stored under `key`, in insertion order.
    pub fn select(&self, key: &String) -> (r: Vec<Media>)
        ensures
            r.deep_view() == rows_for(self@, key@),
    {
        let mut acc: Vec<Media> = Vec::new();
        let n = self.rows.len();
        let mut i: usize = 0;
        while i < n
            invariant
                n == self.rows.len(),
                i <= n,
                acc.deep_view() == rows_for(self@.take(i as int), key@),
            decreases n - i,
        {
            proof {
                assert(self@.take(i as int + 1).drop_last() =~= self@.take(i as int));
                assert(self@.take(i as int + 1).last() == self@[i as int]);
            }
            let row = &self.rows[i];
            if row.key == *key {
                let m = Media::new(
                    row.media._id.clone(),
                    row.media._type.clone(),
                    row.media._caption.clone(),
                );
                acc.push(m);
            }
            i = i + 1;
            proof {
                assert(acc.deep_view() =~= rows_for(self@.take(i as int), key@));
            }
        }
        proof {
            assert(self@.take(n as int) =~= self@);
        }
        acc
    }

    /// Reads all records for `key`; the shape of the result follows from the
    /// row count: zero rows `None`, one `Single`, more `Group` in insertion
    /// order.
    pub fn lookup(&self, key: &String) -> (r: Option<MediaKind>)
        ensures
            r.deep_view() == spec_lookup(self@, key@),
    {
        let matches = self.select(key);
        media_kind_of_rows(matches)
    }
}

} // verus!
