//! Value types of the registry: one stored media item, its kind, and the
//! shape of a lookup result.

use vstd::prelude::*;

verus! {

/// One stored media item: an opaque transport handle, the kind's lower-case
/// name, and a caption (possibly empty).
#[derive(Debug, PartialEq)]
pub struct Media {
    pub _id: String,
    pub _type: String,
    pub _caption: String,
}

/// Mathematical model of a [`Media`]: the three fields as character
/// sequences.
pub ghost struct MediaV {
    pub id: Seq<char>,
    pub ty: Seq<char>,
    pub caption: Seq<char>,
}

impl View for Media {
    type V = MediaV;

    open spec fn view(&self) -> MediaV {
        MediaV { id: self._id@, ty: self._type@, caption: self._caption@ }
    }
}

impl DeepView for Media {
    type V = MediaV;

    open spec fn deep_view(&self) -> MediaV {
        self@
    }
}

impl Media {
    pub fn new(_id: String, _type: String, _caption: String) -> (r: Self)
        ensures
            r@ == (MediaV { id: _id@, ty: _type@, caption: _caption@ }),
    {
        Self { _id, _type, _caption }
    }
}

/// The shape of a successful lookup: exactly one row matched, or more than
/// one, in insertion order.
#[derive(Debug, PartialEq)]
pub enum MediaKind {
    Single(Media),
    Group(Vec<Media>),
}

/// Mathematical model of a [`MediaKind`].
pub ghost enum MediaKindV {
    Single(MediaV),
    Group(Seq<MediaV>),
}

impl View for MediaKind {
    type V = MediaKindV;

    open spec fn view(&self) -> MediaKindV {
        match self {
            MediaKind::Single(m) => MediaKindV::Single(m@),
            MediaKind::Group(v) => MediaKindV::Group(v.deep_view()),
        }
    }
}

impl DeepView for MediaKind {
    type V = MediaKindV;

    open spec fn deep_view(&self) -> MediaKindV {
        self@
    }
}

/// The closed set of media kinds the classifier recognizes.
#[derive(Debug, Clone, Copy, PartialEq, Eq, Structural)]
pub enum FileKind {
    Photo,
    Audio,
    Sticker,
    Video,
    Voice,
    VideoNote,
    Animation,
}

/// The lower-case name under which a kind is stored.
pub open spec fn spec_kind_name(k: FileKind) -> Seq<char> {
    match k {
        FileKind::Photo => "photo"@,
        FileKind::Audio => "audio"@,
        FileKind::Sticker => "sticker"@,
        FileKind::Video => "video"@,
        FileKind::Voice => "voice"@,
        FileKind::VideoNote => "videonote"@,
        FileKind::Animation => "animation"@,
    }
}

/// The kind whose stored name is `s`, if any.
pub open spec fn spec_kind_from_name(s: Seq<char>) -> Option<FileKind> {
    if s == spec_kind_name(FileKind::Photo) {
        Some(FileKind::Photo)
    } else if s == spec_kind_name(FileKind::Audio) {
        Some(FileKind::Audio)
    } else if s == spec_kind_name(FileKind::Sticker) {
        Some(FileKind::Sticker)
    } else if s == spec_kind_name(FileKind::Video) {
        Some(FileKind::Video)
    } else if s == spec_kind_name(FileKind::Voice) {
        Some(FileKind::Voice)
    } else if s == spec_kind_name(FileKind::VideoNote) {
        Some(FileKind::VideoNote)
    } else if s == spec_kind_name(FileKind::Animation) {
        Some(FileKind::Animation)
    } else {
        None
    }
}

impl FileKind {
    /// The stored, lower-case name of the kind.
    pub fn name(&self) -> (r: String)
        ensures
            r@ == spec_kind_name(*self),
    {
        match self {
            FileKind::Photo => String::from_str("photo"),
            FileKind::Audio => String::from_str("audio"),
            FileKind::Sticker => String::from_str("sticker"),
            FileKind::Video => String::from_str("video"),
            FileKind::Voice => String::from_str("voice"),
            FileKind::VideoNote => String::from_str("videonote"),
            FileKind::Animation => String::from_str("animation"),
        }
    }

    /// Parses a stored name back to its kind; `None` on any other string.
    pub fn from_name(s: &String) -> (r: Option<FileKind>)
        ensures
            r == spec_kind_from_name(s@),
    {
        if *s == String::from_str("photo") {
            Some(FileKind::Photo)
        } else if *s == String::from_str("audio") {
            Some(FileKind::Audio)
        } else if *s == String::from_str("sticker") {
            Some(FileKind::Sticker)
        } else if *s == String::from_str("video") {
            Some(FileKind::Video)
        } else if *s == String::from_str("voice") {
            Some(FileKind::Voice)
        } else if *s == String::from_str("videonote") {
            Some(FileKind::VideoNote)
        } else if *s == String::from_str("animation") {
            Some(FileKind::Animation)
        } else {
            None
        }
    }

    /// True of the kinds the transport allows inside an album.
    pub fn allowed_in_album(&self) -> (r: bool)
        ensures
            r == spec_allowed_in_album(*self),
    {
        match self {
            FileKind::Photo => true,
            FileKind::Video => true,
            _ => false,
        }
    }
}

/// Only photos and videos may stand inside an album reply.
pub open spec fn spec_allowed_in_album(k: FileKind) -> bool {
    k == FileKind::Photo || k == FileKind::Video
}

} // verus!
