//! Laws of the registry, proved over the models that the handlers' contracts
//! are stated in.

use vstd::prelude::*;
use crate::ingest::{
    spec_album_caption, spec_classify, spec_ingest, spec_single_caption, InboundEventV,
    IngestOutcomeV,
};
use crate::media::{MediaKindV, MediaV};
use crate::store::{rows_for, spec_lookup, RecordV};
use crate::StateV;

verus! {

/// A key that no row carries selects no descriptors.
pub proof fn lemma_rows_for_absent(rows: Seq<RecordV>, key: Seq<char>)
    requires
        forall|i: int| 0 <= i < rows.len() ==> (#[trigger] rows[i]).key != key,
    ensures
        rows_for(rows, key) == Seq::<MediaV>::empty(),
    decreases rows.len(),
{
    if rows.len() > 0 {
        assert forall|i: int| 0 <= i < rows.drop_last().len() implies (#[trigger] rows.drop_last()[i]).key
            != key by {
            assert(rows.drop_last()[i] == rows[i]);
        }
        lemma_rows_for_absent(rows.drop_last(), key);
        assert(rows.last() == rows[rows.len() - 1]);
    }
}

/// Appending one row extends exactly the selection of its own key and no
/// other.
pub proof fn lemma_rows_for_push(rows: Seq<RecordV>, r: RecordV, key: Seq<char>)
    ensures
        rows_for(rows.push(r), key) == if r.key == key {
            rows_for(rows, key).push(r.media)
        } else {
            rows_for(rows, key)
        },
{
    assert(rows.push(r).drop_last() =~= rows);
    assert(rows.push(r).last() == r);
}

/// Unknown key: resolving an identifier under which nothing was ever stored
/// finds nothing.
pub proof fn lemma_unknown_key_not_found(rows: Seq<RecordV>, key: Seq<char>)
    requires
        forall|i: int| 0 <= i < rows.len() ==> (#[trigger] rows[i]).key != key,
    ensures
        spec_lookup(rows, key) is None,
{
    lemma_rows_for_absent(rows, key);
}

/// Single-item round trip: a supported event without an album-correlation
/// key, ingested under an identifier no stored row carries, announces that
/// identifier, and resolving it afterwards returns `Single` of exactly the
/// classified descriptor.
pub proof fn lemma_single_round_trip(s: StateV, e: InboundEventV, m: MediaV, fresh: Seq<char>)
    requires
        spec_classify(e) == Some((m, None::<Seq<char>>)),
        forall|i: int| 0 <= i < s.rows.len() ==> (#[trigger] s.rows[i]).key != fresh,
    ensures
        ({
            let (s2, out) = spec_ingest(s, e, fresh);
            &&& out == (IngestOutcomeV::Announced { uid: fresh, caption: spec_single_caption(m.ty) })
            &&& spec_lookup(s2.rows, fresh) == Some(MediaKindV::Single(m))
        }),
{
    lemma_rows_for_absent(s.rows, fresh);
    lemma_rows_for_push(s.rows, RecordV { key: fresh, media: m }, fresh);
}

/// Album assembly: three events sharing one album-correlation key, ingested
/// in turn from a session that does not track the key yet, announce exactly
/// once — on the first event, under the album caption — and resolving the one
/// identifier returns `Group` of the three descriptors in arrival order.
pub proof fn lemma_album_assembly(
    s: StateV,
    e1: InboundEventV,
    e2: InboundEventV,
    e3: InboundEventV,
    m1: MediaV,
    m2: MediaV,
    m3: MediaV,
    g: Seq<char>,
    fresh: Seq<char>,
    f2: Seq<char>,
    f3: Seq<char>,
)
    requires
        spec_classify(e1) == Some((m1, Some(g))),
        spec_classify(e2) == Some((m2, Some(g))),
        spec_classify(e3) == Some((m3, Some(g))),
        !s.group_uuid.contains_key(g),
        forall|i: int| 0 <= i < s.rows.len() ==> (#[trigger] s.rows[i]).key != fresh,
    ensures
        ({
            let (s1, o1) = spec_ingest(s, e1, fresh);
            let (s2, o2) = spec_ingest(s1, e2, f2);
            let (s3, o3) = spec_ingest(s2, e3, f3);
            &&& o1 == (IngestOutcomeV::Announced { uid: fresh, caption: spec_album_caption() })
            &&& o2 == (IngestOutcomeV::Attached { uid: fresh })
            &&& o3 == (IngestOutcomeV::Attached { uid: fresh })
            &&& spec_lookup(s3.rows, fresh) == Some(MediaKindV::Group(seq![m1, m2, m3]))
        }),
{
    let r1 = RecordV { key: fresh, media: m1 };
    let r2 = RecordV { key: fresh, media: m2 };
    let r3 = RecordV { key: fresh, media: m3 };
    lemma_rows_for_absent(s.rows, fresh);
    lemma_rows_for_push(s.rows, r1, fresh);
    lemma_rows_for_push(s.rows.push(r1), r2, fresh);
    lemma_rows_for_push(s.rows.push(r1).push(r2), r3, fresh);
    assert(rows_for(s.rows.push(r1).push(r2).push(r3), fresh) =~= seq![m1, m2, m3]);
}

/// Album race: under the one lock that serializes the session, two events of
/// one album are served in some order; whichever that is, only the first
/// earns an announcement, and both store under the first event's identifier.
pub proof fn lemma_album_single_identifier(
    s: StateV,
    e1: InboundEventV,
    e2: InboundEventV,
    m1: MediaV,
    m2: MediaV,
    g: Seq<char>,
    f1: Seq<char>,
    f2: Seq<char>,
)
    requires
        spec_classify(e1) == Some((m1, Some(g))),
        spec_classify(e2) == Some((m2, Some(g))),
        !s.group_uuid.contains_key(g),
    ensures
        ({
            let (s1, o1) = spec_ingest(s, e1, f1);
            let (s2, o2) = spec_ingest(s1, e2, f2);
            &&& o1 == (IngestOutcomeV::Announced { uid: f1, caption: spec_album_caption() })
            &&& o2 == (IngestOutcomeV::Attached { uid: f1 })
            &&& s2.group_uuid == s.group_uuid.insert(g, f1)
        }),
{
}

/// Unsupported media: an event of an unrecognized kind changes nothing and
/// earns exactly the unsupported notice.
pub proof fn lemma_unsupported_no_write(s: StateV, e: InboundEventV, fresh: Seq<char>)
    requires
        spec_classify(e) is None,
    ensures
        spec_ingest(s, e, fresh) == (s, IngestOutcomeV::Unsupported),
{
}

/// Idempotent resolution: a lookup is a function of the stored rows alone and
/// mutates nothing, so any two resolutions of one identifier against one
/// state return the same value.
pub proof fn lemma_resolution_idempotent(
    rows: Seq<RecordV>,
    key: Seq<char>,
    r1: Option<MediaKindV>,
    r2: Option<MediaKindV>,
)
    requires
        r1 == spec_lookup(rows, key),
        r2 == spec_lookup(rows, key),
    ensures
        r1 == r2,
{
}

} // verus!
