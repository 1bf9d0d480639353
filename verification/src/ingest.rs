//! The ingestion handler: classifies one inbound event, consults the group
//! tracker, obtains or allocates an identifier, persists the descriptor, and
//! says whether the identifier is to be announced.

use vstd::prelude::*;
use vstd::string::StringExecFns;
use crate::ident::{gen_uid, is_valid_uid};
use crate::media::{Media, MediaV};
use crate::store::RecordV;
use crate::text::{spec_uppercase_first, uppercase_first_letter};
use crate::{State, StateV};

verus! {

/// One inbound media event, as the plain values the transport hands over:
/// the opaque file reference, the caption where the kind carries one, and the
/// album-correlation key where the transport groups several sends.
pub enum InboundEvent {
    Photo { file_id: String, caption: String, media_group_id: Option<String> },
    Audio { file_id: String, caption: String },
    Sticker { file_id: String },
    Video { file_id: String, caption: String, media_group_id: Option<String> },
    Voice { file_id: String, caption: String },
    VideoNote { file_id: String },
    Animation { file_id: String, caption: String },
    /// An event whose kind the classifier does not recognize.
    Unrecognized,
}

/// Mathematical model of an [`InboundEvent`].
pub ghost enum InboundEventV {
    Photo { file_id: Seq<char>, caption: Seq<char>, media_group_id: Option<Seq<char>> },
    Audio { file_id: Seq<char>, caption: Seq<char> },
    Sticker { file_id: Seq<char> },
    Video { file_id: Seq<char>, caption: Seq<char>, media_group_id: Option<Seq<char>> },
    Voice { file_id: Seq<char>, caption: Seq<char> },
    VideoNote { file_id: Seq<char> },
    Animation { file_id: Seq<char>, caption: Seq<char> },
    Unrecognized,
}

impl View for InboundEvent {
    type V = InboundEventV;

    open spec fn view(&self) -> InboundEventV {
        match self {
            InboundEvent::Photo { file_id, caption, media_group_id } => InboundEventV::Photo {
                file_id: file_id@,
                caption: caption@,
                media_group_id: match media_group_id {
                    Some(g) => Some(g@),
                    None => None,
                },
            },
            InboundEvent::Audio { file_id, caption } => InboundEventV::Audio {
                file_id: file_id@,
                caption: caption@,
            },
            InboundEvent::Sticker { file_id } => InboundEventV::Sticker { file_id: file_id@ },
            InboundEvent::Video { file_id, caption, media_group_id } => InboundEventV::Video {
                file_id: file_id@,
                caption: caption@,
                media_group_id: match media_group_id {
                    Some(g) => Some(g@),
                    None => None,
                },
            },
            InboundEvent::Voice { file_id, caption } => InboundEventV::Voice {
                file_id: file_id@,
                caption: caption@,
            },
            InboundEvent::VideoNote { file_id } => InboundEventV::VideoNote { file_id: file_id@ },
            InboundEvent::Animation { file_id, caption } => InboundEventV::Animation {
                file_id: file_id@,
                caption: caption@,
            },
            InboundEvent::Unrecognized => InboundEventV::Unrecognized,
        }
    }
}

/// The descriptor an event classifies to, with the album-correlation key
/// where the event carries one; `None` for an unrecognized kind. Kinds
/// without a caption store an empty one; only photos and videos carry an
/// album-correlation key.
pub open spec fn spec_classify(e: InboundEventV) -> Option<(MediaV, Option<Seq<char>>)> {
    match e {
        InboundEventV::Photo { file_id, caption, media_group_id } => Some(
            (MediaV { id: file_id, ty: "photo"@, caption }, media_group_id),
        ),
        InboundEventV::Audio { file_id, caption } => Some(
            (MediaV { id: file_id, ty: "audio"@, caption }, None),
        ),
        InboundEventV::Sticker { file_id } => Some(
            (MediaV { id: file_id, ty: "sticker"@, caption: Seq::empty() }, None),
        ),
        InboundEventV::Video { file_id, caption, media_group_id } => Some(
            (MediaV { id: file_id, ty: "video"@, caption }, media_group_id),
        ),
        InboundEventV::Voice { file_id, caption } => Some(
            (MediaV { id: file_id, ty: "voice"@, caption }, None),
        ),
        InboundEventV::VideoNote { file_id } => Some(
            (MediaV { id: file_id, ty: "videonote"@, caption: Seq::empty() }, None),
        ),
        InboundEventV::Animation { file_id, caption } => Some(
            (MediaV { id: file_id, ty: "animation"@, caption }, None),
        ),
        InboundEventV::Unrecognized => None,
    }
}

/// A classified event: the storable descriptor and the album-correlation key,
/// if the event carried one.
pub struct Classified {
    pub media: Media,
    pub media_group_id: Option<String>,
}

/// Maps an event's media payload to a storable descriptor; `None` if the
/// event carries no recognized media kind.
pub fn classify(event: InboundEvent) -> (r: Option<Classified>)
    ensures
        match r {
            Some(c) => spec_classify(event@) == Some(
                (
                    c.media@,
                    match c.media_group_id {
                        Some(g) => Some(g@),
                        None => None::<Seq<char>>,
                    },
                ),
            ),
            None => spec_classify(event@) is None,
        },
{
    match event {
        InboundEvent::Photo { file_id, caption, media_group_id } => Some(Classified {
            media: Media::new(file_id, String::from_str("photo"), caption),
            media_group_id,
        }),
        InboundEvent::Audio { file_id, caption } => Some(Classified {
            media: Media::new(file_id, String::from_str("audio"), caption),
            media_group_id: None,
        }),
        InboundEvent::Sticker { file_id } => Some(Classified {
            media: Media::new(file_id, String::from_str("sticker"), String::new()),
            media_group_id: None,
        }),
        InboundEvent::Video { file_id, caption, media_group_id } => Some(Classified {
            media: Media::new(file_id, String::from_str("video"), caption),
            media_group_id,
        }),
        InboundEvent::Voice { file_id, caption } => Some(Classified {
            media: Media::new(file_id, String::from_str("voice"), caption),
            media_group_id: None,
        }),
        InboundEvent::VideoNote { file_id } => Some(Classified {
            media: Media::new(file_id, String::from_str("videonote"), String::new()),
            media_group_id: None,
        }),
        InboundEvent::Animation { file_id, caption } => Some(Classified {
            media: Media::new(file_id, String::from_str("animation"), caption),
            media_group_id: None,
        }),
        InboundEvent::Unrecognized => None,
    }
}

/// Caption announced for a new album.
pub open spec fn spec_album_caption() -> Seq<char> {
    "Censored Album\n\n"@
}

/// Caption announced for a new single item of kind name `ty`.
pub open spec fn spec_single_caption(ty: Seq<char>) -> Seq<char> {
    "Censored "@ + spec_uppercase_first(ty) + "\n\n"@
}

fn album_caption() -> (r: String)
    ensures
        r@ == spec_album_caption(),
{
    String::from_str("Censored Album\n\n")
}

fn single_caption(ty: &String) -> (r: String)
    ensures
        r@ == spec_single_caption(ty@),
{
    let mut out = String::from_str("Censored ");
    let upper = uppercase_first_letter(ty.as_str());
    out.append(upper.as_str());
    out.append("\n\n");
    out
}

/// What one ingested event ends in, beside the stored rows.
#[derive(Debug, PartialEq)]
pub enum IngestOutcome {
    /// The event carried no recognized media kind: the sender is notified and
    /// nothing is stored.
    Unsupported,
    /// First sight of a new item or album: the identifier is announced to the
    /// sender under the given caption.
    Announced { uid: String, caption: String },
    /// A further item of an album already announced: stored silently.
    Attached { uid: String },
}

/// Mathematical model of an [`IngestOutcome`].
pub ghost enum IngestOutcomeV {
    Unsupported,
    Announced { uid: Seq<char>, caption: Seq<char> },
    Attached { uid: Seq<char> },
}

impl View for IngestOutcome {
    type V = IngestOutcomeV;

    open spec fn view(&self) -> IngestOutcomeV {
        match self {
            IngestOutcome::Unsupported => IngestOutcomeV::Unsupported,
            IngestOutcome::Announced { uid, caption } => IngestOutcomeV::Announced {
                uid: uid@,
                caption: caption@,
            },
            IngestOutcome::Attached { uid } => IngestOutcomeV::Attached { uid: uid@ },
        }
    }
}

/// One step of the ingestion state machine: how one event, with the fresh
/// identifier `fresh` at hand, transforms the session and what it replies.
///
/// An unrecognized kind changes nothing. An event with an album-correlation
/// key already tracked attaches its descriptor to the album's identifier,
/// silently; one with a new key records `fresh` for the key and announces it;
/// one without a key stores under `fresh` and announces it.
pub open spec fn spec_ingest(s: StateV, e: InboundEventV, fresh: Seq<char>) -> (StateV, IngestOutcomeV) {
    match spec_classify(e) {
        None => (s, IngestOutcomeV::Unsupported),
        Some((m, gid)) => match gid {
            Some(g) => {
                if s.group_uuid.contains_key(g) {
                    let uid = s.group_uuid[g];
                    (
                        StateV {
                            group_uuid: s.group_uuid,
                            rows: s.rows.push(RecordV { key: uid, media: m }),
                        },
                        IngestOutcomeV::Attached { uid },
                    )
                } else {
                    (
                        StateV {
                            group_uuid: s.group_uuid.insert(g, fresh),
                            rows: s.rows.push(RecordV { key: fresh, media: m }),
                        },
                        IngestOutcomeV::Announced { uid: fresh, caption: spec_album_caption() },
                    )
                }
            },
            None => (
                StateV {
                    group_uuid: s.group_uuid,
                    rows: s.rows.push(RecordV { key: fresh, media: m }),
                },
                IngestOutcomeV::Announced { uid: fresh, caption: spec_single_caption(m.ty) },
            ),
        },
    }
}

/// Consumes one inbound event with the pre-drawn identifier `fresh_uid`:
/// classifies it, resolves or creates the album's identifier in one step
/// under the caller's exclusive hold of the session, persists the
/// descriptor, and says what to announce.
pub fn ingest_with_uid(state: &mut State, event: InboundEvent, fresh_uid: String) -> (out:
    IngestOutcome)
    ensures
        (final(state)@, out@) == spec_ingest(old(state)@, event@, fresh_uid@),
{
    let classified = classify(event);
    match classified {
        None => IngestOutcome::Unsupported,
        Some(c) => {
            match c.media_group_id {
                Some(gid) => {
                    let (uid, created) = state.group_uuid.resolve_or_create(&gid, fresh_uid);
                    let key = uid.clone();
                    state.registry.insert(key, c.media);
                    if created {
                        IngestOutcome::Announced { uid, caption: album_caption() }
                    } else {
                        IngestOutcome::Attached { uid }
                    }
                },
                None => {
                    let caption = single_caption(&c.media._type);
                    let key = fresh_uid.clone();
                    state.registry.insert(key, c.media);
                    IngestOutcome::Announced { uid: fresh_uid, caption }
                },
            }
        },
    }
}

/// Consumes one inbound event, minting the identifier itself. The identifier
/// is random: all that is known of it is its length and alphabet.
pub fn ingest(state: &mut State, event: InboundEvent) -> (out: IngestOutcome)
    ensures
        exists|fresh: Seq<char>|
            is_valid_uid(fresh) && (final(state)@, out@) == #[trigger] spec_ingest(
                old(state)@,
                event@,
                fresh,
            ),
{
    let fresh_uid = gen_uid();
    let ghost witness = fresh_uid@;
    let out = ingest_with_uid(state, event, fresh_uid);
    proof {
        assert(is_valid_uid(witness) && (state@, out@) == spec_ingest(
            old(state)@,
            event@,
            witness,
        ));
    }
    out
}

} // verus!
