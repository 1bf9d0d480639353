//! The resolution handler: redeems an identifier back into the stored media,
//! in the shape the caller expects (one item or an ordered album).

use vstd::prelude::*;
use vstd::string::StrSliceExecFns;
use crate::media::{
    spec_allowed_in_album, spec_kind_from_name, FileKind, Media, MediaKind, MediaKindV, MediaV,
};
use crate::store::{spec_lookup, RecordV};
use crate::State;

verus! {

/// One entry of an album reply; the transport allows only photos and videos
/// inside an album.
#[derive(Debug, PartialEq)]
pub enum AlbumItem {
    Photo { id: String, caption: String },
    Video { id: String, caption: String },
}

/// Mathematical model of an [`AlbumItem`].
pub ghost enum AlbumItemV {
    Photo { id: Seq<char>, caption: Seq<char> },
    Video { id: Seq<char>, caption: Seq<char> },
}

impl View for AlbumItem {
    type V = AlbumItemV;

    open spec fn view(&self) -> AlbumItemV {
        match self {
            AlbumItem::Photo { id, caption } => AlbumItemV::Photo { id: id@, caption: caption@ },
            AlbumItem::Video { id, caption } => AlbumItemV::Video { id: id@, caption: caption@ },
        }
    }
}

impl DeepView for AlbumItem {
    type V = AlbumItemV;

    open spec fn deep_view(&self) -> AlbumItemV {
        self@
    }
}

/// The reply a redeem request earns.
#[derive(Debug, PartialEq)]
pub enum StartReply {
    /// Empty argument: send the introduction text, look nothing up.
    Help,
    /// No stored media under the identifier: send the not-found notice.
    NotFound,
    /// Exactly one row matched: re-send that one item of the given kind.
    SendSingle { kind: FileKind, id: String, caption: String },
    /// Several rows matched: re-send them as one album, in stored order.
    SendAlbum { items: Vec<AlbumItem> },
    /// A stored row holds a kind outside the closed set, or a kind the
    /// transport does not allow inside an album stands in a group. Such a
    /// state cannot be reached through ingestion; it is surfaced, not
    /// skipped.
    IntegrityViolation,
}

/// Mathematical model of a [`StartReply`].
pub ghost enum StartReplyV {
    Help,
    NotFound,
    SendSingle { kind: FileKind, id: Seq<char>, caption: Seq<char> },
    SendAlbum { items: Seq<AlbumItemV> },
    IntegrityViolation,
}

impl View for StartReply {
    type V = StartReplyV;

    open spec fn view(&self) -> StartReplyV {
        match self {
            StartReply::Help => StartReplyV::Help,
            StartReply::NotFound => StartReplyV::NotFound,
            StartReply::SendSingle { kind, id, caption } => StartReplyV::SendSingle {
                kind: *kind,
                id: id@,
                caption: caption@,
            },
            StartReply::SendAlbum { items } => StartReplyV::SendAlbum { items: items.deep_view() },
            StartReply::IntegrityViolation => StartReplyV::IntegrityViolation,
        }
    }
}

impl DeepView for StartReply {
    type V = StartReplyV;

    open spec fn deep_view(&self) -> StartReplyV {
        self@
    }
}

/// True when every descriptor of the group is of a kind the transport allows
/// inside an album.
pub open spec fn spec_album_ok(ms: Seq<MediaV>) -> bool {
    forall|i: int|
        0 <= i < ms.len() ==> match spec_kind_from_name(#[trigger] ms[i].ty) {
            Some(k) => spec_allowed_in_album(k),
            None => false,
        }
}

/// The album entry one stored descriptor becomes (meaningful only where the
/// group passed [`spec_album_ok`]).
pub open spec fn spec_album_item(m: MediaV) -> AlbumItemV {
    if spec_kind_from_name(m.ty) == Some(FileKind::Photo) {
        AlbumItemV::Photo { id: m.id, caption: m.caption }
    } else {
        AlbumItemV::Video { id: m.id, caption: m.caption }
    }
}

/// The album entries a whole stored group becomes, in order.
pub open spec fn spec_album_items(ms: Seq<MediaV>) -> Seq<AlbumItemV> {
    ms.map_values(|m: MediaV| spec_album_item(m))
}

/// The reply one lookup result is dispatched into: nothing found earns the
/// not-found notice; one row a single re-send of its kind; several rows an
/// album re-send in stored order, provided every kind is allowed there.
pub open spec fn spec_reply_of(media: Option<MediaKindV>) -> StartReplyV {
    match media {
        None => StartReplyV::NotFound,
        Some(MediaKindV::Single(m)) => match spec_kind_from_name(m.ty) {
            Some(k) => StartReplyV::SendSingle { kind: k, id: m.id, caption: m.caption },
            None => StartReplyV::IntegrityViolation,
        },
        Some(MediaKindV::Group(ms)) => {
            if spec_album_ok(ms) {
                StartReplyV::SendAlbum { items: spec_album_items(ms) }
            } else {
                StartReplyV::IntegrityViolation
            }
        },
    }
}

/// What a redeem request with argument `text` is answered over the rows:
/// empty text earns the help reply, any other the dispatch of its lookup.
pub open spec fn spec_start_reply(rows: Seq<RecordV>, text: Seq<char>) -> StartReplyV {
    if text.len() == 0 {
        StartReplyV::Help
    } else {
        spec_reply_of(spec_lookup(rows, text))
    }
}

/// Turns a stored group into album entries, in order; `None` as soon as a
/// kind the transport refuses inside an album appears.
fn album_items(v: Vec<Media>) -> (r: Option<Vec<AlbumItem>>)
    ensures
        match r {
            Some(items) => spec_album_ok(v.deep_view()) && items.deep_view() == spec_album_items(
                v.deep_view(),
            ),
            None => !spec_album_ok(v.deep_view()),
        },
{
    let mut acc: Vec<AlbumItem> = Vec::new();
    let n = v.len();
    let mut i: usize = 0;
    while i < n
        invariant
            n == v.len(),
            i <= n,
            acc@.len() == i,
            forall|j: int|
                0 <= j < i ==> match spec_kind_from_name(#[trigger] v.deep_view()[j].ty) {
                    Some(k) => spec_allowed_in_album(k),
                    None => false,
                },
            forall|j: int| 0 <= j < i ==> acc@[j]@ == spec_album_item(#[trigger] v.deep_view()[j]),
        decreases n - i,
    {
        let row = &v[i];
        proof {
            assert(v.deep_view()[i as int] == v@[i as int]@);
        }
        let kind = FileKind::from_name(&row._type);
        match kind {
            Some(FileKind::Photo) => {
                acc.push(AlbumItem::Photo { id: row._id.clone(), caption: row._caption.clone() });
            },
            Some(FileKind::Video) => {
                acc.push(AlbumItem::Video { id: row._id.clone(), caption: row._caption.clone() });
            },
            _ => {
                proof {
                    let ghost bad = v.deep_view()[i as int];
                    assert(!(match spec_kind_from_name(bad.ty) {
                        Some(k) => spec_allowed_in_album(k),
                        None => false,
                    }));
                    assert(!spec_album_ok(v.deep_view()));
                }
                return None;
            },
        }
        i = i + 1;
    }
    proof {
        assert(acc.deep_view() =~= spec_album_items(v.deep_view()));
    }
    Some(acc)
}

/// Dispatches one lookup result, however it was obtained, into the reply a
/// redeemer is owed.
pub fn start_reply(media: Option<MediaKind>) -> (r: StartReply)
    ensures
        r.deep_view() == spec_reply_of(media.deep_view()),
{
    match media {
        None => StartReply::NotFound,
        Some(MediaKind::Single(m)) => {
            match FileKind::from_name(&m._type) {
                Some(kind) => StartReply::SendSingle { kind, id: m._id, caption: m._caption },
                None => StartReply::IntegrityViolation,
            }
        },
        Some(MediaKind::Group(v)) => {
            match album_items(v) {
                Some(items) => StartReply::SendAlbum { items },
                None => StartReply::IntegrityViolation,
            }
        },
    }
}

/// Consumes one redeem request: an empty argument earns the introduction, a
/// non-empty one a lookup whose result is dispatched by shape and kind.
/// Reading never changes the session.
pub fn handle_start(state: &State, text: &String) -> (r: StartReply)
    ensures
        r.deep_view() == spec_start_reply(state@.rows, text@),
{
    if text.as_str().is_empty() {
        StartReply::Help
    } else {
        let media = state.registry.lookup(text);
        start_reply(media)
    }
}

} // verus!
