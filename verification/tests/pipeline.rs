use tglog::classify::classify_message;
use tglog::extract::{extract_text_entities, map_span_kind};
use tglog::message::{EntityType, MessageType};
use tglog::normalize::{assemble_history, normalize_history, normalize_message, FetchError};
use tglog::raw::{RawAttachment, RawMessage, RawSpan, RawSpanKind};

fn raw_with(body: &str, attachment: RawAttachment, spans: Vec<RawSpan>) -> RawMessage {
    RawMessage {
        id: 41,
        body: body.to_string(),
        timestamp: 1_700_000_000,
        sender: Some("alice".to_string()),
        reply_to: None,
        attachment,
        spans,
    }
}

#[test]
fn empty_body_no_attachment_is_system() {
    let raw = raw_with("", RawAttachment::Absent, Vec::new());
    let (t, media, text) = classify_message(&raw);
    assert_eq!(t, MessageType::System);
    assert!(media.is_none());
    assert_eq!(text, "[System Message]");
}

#[test]
fn nonempty_body_no_attachment_is_text() {
    let raw = raw_with("hello", RawAttachment::Absent, Vec::new());
    let (t, media, text) = classify_message(&raw);
    assert_eq!(t, MessageType::Text);
    assert!(media.is_none());
    assert_eq!(text, "hello");
}

#[test]
fn video_mime_is_video() {
    let raw = raw_with(
        "",
        RawAttachment::Document {
            name: "clip.mp4".to_string(),
            size: 123,
            mime: Some("video/mp4".to_string()),
        },
        Vec::new(),
    );
    let (t, media, text) = classify_message(&raw);
    assert_eq!(t, MessageType::Video);
    assert_eq!(text, "[Video]");
    let media = media.unwrap();
    assert_eq!(media.file_name, Some("clip.mp4".to_string()));
    assert_eq!(media.file_size, Some(123));
    assert_eq!(media.mime_type, Some("video/mp4".to_string()));
    assert_eq!(media.caption, None);
}

#[test]
fn audio_mime_is_audio() {
    let raw = raw_with(
        "",
        RawAttachment::Document {
            name: "song.ogg".to_string(),
            size: 7,
            mime: Some("audio/ogg".to_string()),
        },
        Vec::new(),
    );
    let (t, _media, text) = classify_message(&raw);
    assert_eq!(t, MessageType::Audio);
    assert_eq!(text, "[Audio]");
}

#[test]
fn mime_without_slash_prefix_is_document() {
    let raw = raw_with(
        "",
        RawAttachment::Document {
            name: "video".to_string(),
            size: 1,
            mime: Some("videotape".to_string()),
        },
        Vec::new(),
    );
    let (t, _media, _text) = classify_message(&raw);
    assert_eq!(t, MessageType::Document);
}

#[test]
fn document_scenario_report_pdf() {
    let raw = raw_with(
        "",
        RawAttachment::Document {
            name: "report.pdf".to_string(),
            size: 2048,
            mime: Some("application/pdf".to_string()),
        },
        Vec::new(),
    );
    let (t, media, text) = classify_message(&raw);
    assert_eq!(t, MessageType::Document);
    assert_eq!(text, "[Document: report.pdf]");
    let media = media.unwrap();
    assert_eq!(media.file_name, Some("report.pdf".to_string()));
    assert_eq!(media.file_size, Some(2048));
    assert_eq!(media.mime_type, Some("application/pdf".to_string()));
    assert_eq!(media.caption, None);
}

#[test]
fn document_with_caption_keeps_caption() {
    let raw = raw_with(
        "see attached",
        RawAttachment::Document {
            name: "report.pdf".to_string(),
            size: 2048,
            mime: None,
        },
        Vec::new(),
    );
    let (t, media, text) = classify_message(&raw);
    assert_eq!(t, MessageType::Document);
    assert_eq!(text, "see attached");
    assert_eq!(media.unwrap().caption, Some("see attached".to_string()));
}

#[test]
fn photo_without_caption_gets_placeholder() {
    let raw = raw_with("", RawAttachment::Photo, Vec::new());
    let (t, media, text) = classify_message(&raw);
    assert_eq!(t, MessageType::Photo);
    assert_eq!(text, "[Photo]");
    let media = media.unwrap();
    assert_eq!(media.file_name, None);
    assert_eq!(media.file_size, None);
    assert_eq!(media.mime_type, Some("image/jpeg".to_string()));
    assert_eq!(media.caption, None);
}

#[test]
fn photo_with_caption_keeps_caption() {
    let raw = raw_with("sunset", RawAttachment::Photo, Vec::new());
    let (t, media, text) = classify_message(&raw);
    assert_eq!(t, MessageType::Photo);
    assert_eq!(text, "sunset");
    assert_eq!(media.unwrap().caption, Some("sunset".to_string()));
}

#[test]
fn sticker_contact_poll_have_no_media() {
    for (attachment, expected_type, expected_text) in [
        (RawAttachment::Sticker, MessageType::Sticker, "[Sticker]"),
        (RawAttachment::Contact, MessageType::Contact, "[Contact]"),
        (RawAttachment::Poll, MessageType::Poll, "[Poll]"),
    ] {
        let raw = raw_with("ignored", attachment, Vec::new());
        let (t, media, text) = classify_message(&raw);
        assert_eq!(t, expected_type);
        assert!(media.is_none());
        assert_eq!(text, expected_text);
    }
}

#[test]
fn unrecognized_attachment_falls_back_to_text() {
    let raw = raw_with("note", RawAttachment::Other, Vec::new());
    let (t, media, text) = classify_message(&raw);
    assert_eq!(t, MessageType::Text);
    assert!(media.is_none());
    assert_eq!(text, "note");

    let raw = raw_with("", RawAttachment::Other, Vec::new());
    let (_t, _media, text) = classify_message(&raw);
    assert_eq!(text, "[Media]");
}

#[test]
fn bold_span_round_trip() {
    let spans = vec![RawSpan { offset: 3, length: 5, kind: RawSpanKind::Bold, url: None }];
    let raw = raw_with("hi there", RawAttachment::Absent, spans);
    let m = normalize_message(&raw, 9);
    assert_eq!(m.text, "hi there");
    assert_eq!(m.formatted_text.len(), 1);
    assert_eq!(m.formatted_text[0].offset, 3);
    assert_eq!(m.formatted_text[0].length, 5);
    assert_eq!(m.formatted_text[0].entity_type, EntityType::Bold);
    assert_eq!(m.formatted_text[0].url, None);
}

#[test]
fn markup_characters_are_never_stripped() {
    let raw = raw_with("hi **there**", RawAttachment::Absent, Vec::new());
    let m = normalize_message(&raw, 9);
    assert_eq!(m.text, "hi **there**");
    assert!(m.formatted_text.is_empty());
}

#[test]
fn bare_url_text_gets_no_link_span() {
    let raw = raw_with("Check https://example.com now", RawAttachment::Absent, Vec::new());
    let m = normalize_message(&raw, 9);
    assert_eq!(m.message_type, MessageType::Text);
    assert_eq!(m.text, "Check https://example.com now");
    assert!(m.formatted_text.is_empty());
}

#[test]
fn text_url_span_keeps_url_plain_url_does_not() {
    let spans = vec![
        RawSpan {
            offset: 0,
            length: 4,
            kind: RawSpanKind::TextUrl,
            url: Some("https://example.com".to_string()),
        },
        RawSpan { offset: 5, length: 3, kind: RawSpanKind::Url, url: None },
    ];
    let raw = raw_with("here and there", RawAttachment::Absent, spans);
    let entities = extract_text_entities(&raw);
    assert_eq!(entities.len(), 2);
    assert_eq!(entities[0].entity_type, EntityType::TextLink);
    assert_eq!(entities[0].url, Some("https://example.com".to_string()));
    assert_eq!(entities[1].entity_type, EntityType::Link);
    assert_eq!(entities[1].url, None);
}

#[test]
fn unsupported_span_kinds_are_dropped() {
    let spans = vec![
        RawSpan { offset: 0, length: 2, kind: RawSpanKind::Bold, url: None },
        RawSpan { offset: 2, length: 2, kind: RawSpanKind::Unsupported, url: None },
        RawSpan { offset: 4, length: 2, kind: RawSpanKind::Italic, url: None },
    ];
    let raw = raw_with("abcdef", RawAttachment::Absent, spans);
    let entities = extract_text_entities(&raw);
    assert_eq!(entities.len(), 2);
    assert_eq!(entities[0].entity_type, EntityType::Bold);
    assert_eq!(entities[0].offset, 0);
    assert_eq!(entities[1].entity_type, EntityType::Italic);
    assert_eq!(entities[1].offset, 4);
}

#[test]
fn every_mapped_span_kind() {
    let cases = [
        (RawSpanKind::Bold, Some(EntityType::Bold)),
        (RawSpanKind::Italic, Some(EntityType::Italic)),
        (RawSpanKind::Code, Some(EntityType::Code)),
        (RawSpanKind::Pre, Some(EntityType::Pre)),
        (RawSpanKind::TextUrl, Some(EntityType::TextLink)),
        (RawSpanKind::Url, Some(EntityType::Link)),
        (RawSpanKind::Mention, Some(EntityType::Mention)),
        (RawSpanKind::Hashtag, Some(EntityType::Hashtag)),
        (RawSpanKind::BotCommand, Some(EntityType::BotCommand)),
        (RawSpanKind::Email, Some(EntityType::Email)),
        (RawSpanKind::Phone, Some(EntityType::Phone)),
        (RawSpanKind::Unsupported, None),
    ];
    for (kind, expected) in cases {
        assert_eq!(map_span_kind(kind), expected);
    }
}

#[test]
fn every_message_type_has_its_emoji() {
    let cases = [
        (MessageType::Text, "\u{1f4ac}"),
        (MessageType::Photo, "\u{1f4f7}"),
        (MessageType::Video, "\u{1f3a5}"),
        (MessageType::Document, "\u{1f4c4}"),
        (MessageType::Audio, "\u{1f3b5}"),
        (MessageType::Voice, "\u{1f3a4}"),
        (MessageType::Sticker, "\u{1f600}"),
        (MessageType::Location, "\u{1f4cd}"),
        (MessageType::Contact, "\u{1f464}"),
        (MessageType::Poll, "\u{1f4ca}"),
        (MessageType::System, "\u{2699}\u{fe0f}"),
    ];
    for (message_type, expected) in cases {
        assert_eq!(message_type.get_emoji(), expected);
    }
}

#[test]
fn normalize_fills_every_field() {
    let raw = RawMessage {
        id: 7,
        body: "hi".to_string(),
        timestamp: 123_456,
        sender: Some("bob".to_string()),
        reply_to: Some(3),
        attachment: RawAttachment::Absent,
        spans: Vec::new(),
    };
    let m = normalize_message(&raw, -100);
    assert_eq!(m.id, 7);
    assert_eq!(m.text, "hi");
    assert_eq!(m.timestamp, 123_456);
    assert_eq!(m.sender, "bob");
    assert_eq!(m.chat_id, -100);
    assert_eq!(m.message_type, MessageType::Text);
    assert_eq!(m.media_info, None);
    assert_eq!(m.reply_to, Some(3));
    assert_eq!(m.forwarded_from, None);
}

#[test]
fn unresolved_sender_becomes_unknown() {
    let mut raw = raw_with("hi", RawAttachment::Absent, Vec::new());
    raw.sender = None;
    let m = normalize_message(&raw, 9);
    assert_eq!(m.sender, "Unknown");
}

#[test]
fn normalize_twice_is_identical() {
    let spans = vec![RawSpan {
        offset: 0,
        length: 2,
        kind: RawSpanKind::TextUrl,
        url: Some("https://example.com".to_string()),
    }];
    let raw = raw_with(
        "hi",
        RawAttachment::Document {
            name: "a.bin".to_string(),
            size: 5,
            mime: Some("application/octet-stream".to_string()),
        },
        spans,
    );
    let m1 = normalize_message(&raw, 9);
    let m2 = normalize_message(&raw, 9);
    assert_eq!(m1, m2);
}

#[test]
fn batch_is_reversed_to_oldest_first() {
    let newest_first = vec![
        raw_with("third", RawAttachment::Absent, Vec::new()),
        raw_with("second", RawAttachment::Absent, Vec::new()),
        raw_with("first", RawAttachment::Absent, Vec::new()),
    ];
    let batch = normalize_history(&newest_first, 9);
    assert_eq!(batch.len(), 3);
    assert_eq!(batch[0].text, "first");
    assert_eq!(batch[1].text, "second");
    assert_eq!(batch[2].text, "third");
}

#[test]
fn unauthenticated_client_is_reported_first() {
    let raws = vec![raw_with("x", RawAttachment::Absent, Vec::new())];
    let r = assemble_history(false, false, &raws, 9);
    assert_eq!(r.unwrap_err(), FetchError::ClientUnauthenticated);
    let r = assemble_history(false, true, &raws, 9);
    assert_eq!(r.unwrap_err(), FetchError::ClientUnauthenticated);
}

#[test]
fn unknown_chat_is_reported_when_authorized() {
    let raws: Vec<RawMessage> = Vec::new();
    let r = assemble_history(true, false, &raws, 9);
    assert_eq!(r.unwrap_err(), FetchError::ChatNotFound);
}

#[test]
fn successful_fetch_returns_normalized_batch() {
    let raws = vec![
        raw_with("b", RawAttachment::Absent, Vec::new()),
        raw_with("a", RawAttachment::Absent, Vec::new()),
    ];
    let batch = assemble_history(true, true, &raws, 9).unwrap();
    assert_eq!(batch.len(), 2);
    assert_eq!(batch[0].text, "a");
    assert_eq!(batch[1].text, "b");
    assert_eq!(batch[0].chat_id, 9);
}
