use censorbot::media::{FileKind, Media, MediaKind};
use censorbot::text::{deeplink_url, uppercase_first_letter};

#[test]
fn uppercase_first_letter_of_kind_name() {
    assert_eq!(uppercase_first_letter("photo"), "Photo");
    assert_eq!(uppercase_first_letter("videonote"), "Videonote");
}

#[test]
fn uppercase_first_letter_of_empty_string() {
    assert_eq!(uppercase_first_letter(""), "");
}

#[test]
fn uppercase_first_letter_leaves_rest_alone() {
    assert_eq!(uppercase_first_letter("aBc"), "ABc");
    assert_eq!(uppercase_first_letter("Zoo"), "Zoo");
    assert_eq!(uppercase_first_letter("7up"), "7up");
}

#[test]
fn deeplink_url_shape() {
    assert_eq!(deeplink_url("examplebot", "q7Zp2mWx4KdR9"), "t.me/examplebot/?start=q7Zp2mWx4KdR9");
}

#[test]
fn kind_names_round_trip() {
    let kinds = [
        FileKind::Photo,
        FileKind::Audio,
        FileKind::Sticker,
        FileKind::Video,
        FileKind::Voice,
        FileKind::VideoNote,
        FileKind::Animation,
    ];
    for k in kinds {
        assert_eq!(FileKind::from_name(&k.name()), Some(k));
    }
    assert_eq!(FileKind::from_name(&"gif".to_string()), None);
}

#[test]
fn only_photo_and_video_allowed_in_album() {
    assert!(FileKind::Photo.allowed_in_album());
    assert!(FileKind::Video.allowed_in_album());
    assert!(!FileKind::Audio.allowed_in_album());
    assert!(!FileKind::Sticker.allowed_in_album());
    assert!(!FileKind::Voice.allowed_in_album());
    assert!(!FileKind::VideoNote.allowed_in_album());
    assert!(!FileKind::Animation.allowed_in_album());
}

#[test]
fn media_new_keeps_fields() {
    let m = Media::new("id-1".to_string(), "photo".to_string(), "cap".to_string());
    assert_eq!(m._id, "id-1");
    assert_eq!(m._type, "photo");
    assert_eq!(m._caption, "cap");
    let single = MediaKind::Single(m);
    match single {
        MediaKind::Single(inner) => assert_eq!(inner._caption, "cap"),
        MediaKind::Group(_) => panic!("one descriptor is a single"),
    }
}
