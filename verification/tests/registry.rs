use censorbot::ingest::{ingest, ingest_with_uid, InboundEvent, IngestOutcome};
use censorbot::media::{FileKind, Media};
use censorbot::resolve::{handle_start, AlbumItem, StartReply};
use censorbot::State;

#[test]
fn single_round_trip() {
    let mut state = State::new();
    let event = InboundEvent::Photo {
        file_id: "file-1".to_string(),
        caption: "x".to_string(),
        media_group_id: None,
    };
    let out = ingest_with_uid(&mut state, event, "aaaaaaaaaaaaa".to_string());
    assert_eq!(
        out,
        IngestOutcome::Announced {
            uid: "aaaaaaaaaaaaa".to_string(),
            caption: "Censored Photo\n\n".to_string(),
        }
    );
    let reply = handle_start(&state, &"aaaaaaaaaaaaa".to_string());
    assert_eq!(
        reply,
        StartReply::SendSingle {
            kind: FileKind::Photo,
            id: "file-1".to_string(),
            caption: "x".to_string(),
        }
    );
}

#[test]
fn album_assembly() {
    let mut state = State::new();
    let mut announced: usize = 0;
    let mut album_uid = String::new();
    for (n, fresh) in [("v1", "uid-one-13chr"), ("v2", "uid-two-13chr"), ("v3", "uid-thr-13chr")]
    {
        let event = InboundEvent::Video {
            file_id: n.to_string(),
            caption: format!("c-{}", n),
            media_group_id: Some("g1".to_string()),
        };
        match ingest_with_uid(&mut state, event, fresh.to_string()) {
            IngestOutcome::Announced { uid, caption } => {
                announced += 1;
                assert_eq!(caption, "Censored Album\n\n");
                album_uid = uid;
            }
            IngestOutcome::Attached { uid } => {
                assert_eq!(uid, album_uid);
            }
            IngestOutcome::Unsupported => panic!("video must classify"),
        }
    }
    assert_eq!(announced, 1);
    assert_eq!(album_uid, "uid-one-13chr");
    let reply = handle_start(&state, &album_uid);
    assert_eq!(
        reply,
        StartReply::SendAlbum {
            items: vec![
                AlbumItem::Video { id: "v1".to_string(), caption: "c-v1".to_string() },
                AlbumItem::Video { id: "v2".to_string(), caption: "c-v2".to_string() },
                AlbumItem::Video { id: "v3".to_string(), caption: "c-v3".to_string() },
            ],
        }
    );
}

#[test]
fn album_race_single_identifier() {
    // The session lock serializes two racing items of one album; whichever is
    // served first announces, and only that one.
    let mut state = State::new();
    let first = InboundEvent::Photo {
        file_id: "p1".to_string(),
        caption: String::new(),
        media_group_id: Some("g2".to_string()),
    };
    let second = InboundEvent::Photo {
        file_id: "p2".to_string(),
        caption: String::new(),
        media_group_id: Some("g2".to_string()),
    };
    let out1 = ingest_with_uid(&mut state, first, "race-uid-0001".to_string());
    let out2 = ingest_with_uid(&mut state, second, "race-uid-0002".to_string());
    assert_eq!(
        out1,
        IngestOutcome::Announced {
            uid: "race-uid-0001".to_string(),
            caption: "Censored Album\n\n".to_string(),
        }
    );
    assert_eq!(out2, IngestOutcome::Attached { uid: "race-uid-0001".to_string() });
}

#[test]
fn unknown_key_not_found() {
    let state = State::new();
    let reply = handle_start(&state, &"q7Zp2mWx4KdR9".to_string());
    assert_eq!(reply, StartReply::NotFound);
}

#[test]
fn unsupported_media_notice_and_no_write() {
    let mut state = State::new();
    let out = ingest_with_uid(&mut state, InboundEvent::Unrecognized, "bbbbbbbbbbbbb".to_string());
    assert_eq!(out, IngestOutcome::Unsupported);
    let reply = handle_start(&state, &"bbbbbbbbbbbbb".to_string());
    assert_eq!(reply, StartReply::NotFound);
}

#[test]
fn idempotent_resolution() {
    let mut state = State::new();
    let event = InboundEvent::Voice {
        file_id: "voice-9".to_string(),
        caption: "note".to_string(),
    };
    ingest_with_uid(&mut state, event, "ccccccccccccc".to_string());
    let first = handle_start(&state, &"ccccccccccccc".to_string());
    let second = handle_start(&state, &"ccccccccccccc".to_string());
    assert_eq!(first, second);
    assert_eq!(
        first,
        StartReply::SendSingle {
            kind: FileKind::Voice,
            id: "voice-9".to_string(),
            caption: "note".to_string(),
        }
    );
}

#[test]
fn empty_argument_help() {
    let state = State::new();
    let reply = handle_start(&state, &String::new());
    assert_eq!(reply, StartReply::Help);
}

#[test]
fn generated_identifier_shape() {
    let mut state = State::new();
    let event = InboundEvent::Sticker { file_id: "s1".to_string() };
    match ingest(&mut state, event) {
        IngestOutcome::Announced { uid, caption } => {
            assert_eq!(uid.len(), 13);
            assert!(uid.chars().all(|c| c.is_ascii_alphanumeric()));
            assert_eq!(caption, "Censored Sticker\n\n");
            let reply = handle_start(&state, &uid);
            assert_eq!(
                reply,
                StartReply::SendSingle {
                    kind: FileKind::Sticker,
                    id: "s1".to_string(),
                    caption: String::new(),
                }
            );
        }
        other => panic!("a sticker without an album key must announce, got {:?}", other),
    }
}

#[test]
fn two_generated_identifiers_differ() {
    let mut state = State::new();
    let mut uids = Vec::new();
    for n in 0..2u32 {
        let event = InboundEvent::Audio {
            file_id: format!("a{}", n),
            caption: String::new(),
        };
        match ingest(&mut state, event) {
            IngestOutcome::Announced { uid, .. } => uids.push(uid),
            other => panic!("audio must announce, got {:?}", other),
        }
    }
    // Collisions are accepted as negligible, not impossible; two draws of a
    // 62-alphabet 13-character code agreeing would point at a broken generator.
    assert_ne!(uids[0], uids[1]);
}

#[test]
fn group_with_disallowed_kind_is_integrity_violation() {
    let mut state = State::new();
    state.registry.insert(
        "ddddddddddddd".to_string(),
        Media::new("a1".to_string(), "audio".to_string(), String::new()),
    );
    state.registry.insert(
        "ddddddddddddd".to_string(),
        Media::new("a2".to_string(), "audio".to_string(), String::new()),
    );
    let reply = handle_start(&state, &"ddddddddddddd".to_string());
    assert_eq!(reply, StartReply::IntegrityViolation);
}

#[test]
fn single_with_unknown_kind_is_integrity_violation() {
    let mut state = State::new();
    state.registry.insert(
        "eeeeeeeeeeeee".to_string(),
        Media::new("z1".to_string(), "scroll".to_string(), String::new()),
    );
    let reply = handle_start(&state, &"eeeeeeeeeeeee".to_string());
    assert_eq!(reply, StartReply::IntegrityViolation);
}

#[test]
fn album_of_photo_and_video_kinds() {
    let mut state = State::new();
    state.registry.insert(
        "fffffffffffff".to_string(),
        Media::new("p1".to_string(), "photo".to_string(), "one".to_string()),
    );
    state.registry.insert(
        "fffffffffffff".to_string(),
        Media::new("v1".to_string(), "video".to_string(), "two".to_string()),
    );
    let reply = handle_start(&state, &"fffffffffffff".to_string());
    assert_eq!(
        reply,
        StartReply::SendAlbum {
            items: vec![
                AlbumItem::Photo { id: "p1".to_string(), caption: "one".to_string() },
                AlbumItem::Video { id: "v1".to_string(), caption: "two".to_string() },
            ],
        }
    );
}

#[test]
fn album_shrunk_to_one_row_reads_as_single() {
    // The Single/Group distinction is derived from cardinality alone: one
    // surviving row is indistinguishable from an always-single post.
    let mut state = State::new();
    state.registry.insert(
        "ggggggggggggg".to_string(),
        Media::new("p9".to_string(), "photo".to_string(), String::new()),
    );
    let reply = handle_start(&state, &"ggggggggggggg".to_string());
    assert_eq!(
        reply,
        StartReply::SendSingle {
            kind: FileKind::Photo,
            id: "p9".to_string(),
            caption: String::new(),
        }
    );
}
