//! The media classifier: decides a raw message's semantic type, builds the
//! optional media-metadata record, and fixes the display text, substituting
//! a type-specific placeholder when no textual content exists.

use vstd::prelude::*;
use vstd::string::{StrSliceExecFns, StringExecFns};

use crate::message::{MediaInfo, MediaInfoView, MessageType};
use crate::raw::{RawAttachment, RawAttachmentView, RawMessage, RawMessageView};

verus! {

/// Whether `p` is a prefix of `s`.
pub open spec fn has_prefix(s: Seq<char>, p: Seq<char>) -> bool {
    p.len() <= s.len() && s.subrange(0, p.len() as int) == p
}

/// The caption a media record carries: the raw body, or absent when the
/// body is empty.
pub open spec fn caption_spec(body: Seq<char>) -> Option<Seq<char>> {
    if body.len() == 0 {
        None
    } else {
        Some(body)
    }
}

/// The semantic type of a document attachment, decided by its declared MIME
/// type: a `video/` prefix makes it a video, an `audio/` prefix an audio
/// message, anything else a plain document.
pub open spec fn document_type(mime: Option<Seq<char>>) -> MessageType {
    match mime {
        Some(m) => if has_prefix(m, "video/"@) {
            MessageType::Video
        } else if has_prefix(m, "audio/"@) {
            MessageType::Audio
        } else {
            MessageType::Document
        },
        None => MessageType::Document,
    }
}

/// The semantic type of a raw message. Classification is total: any
/// unrecognized attachment kind falls back to a text classification.
pub open spec fn classify_type(raw: RawMessageView) -> MessageType {
    match raw.attachment {
        RawAttachmentView::Absent => if raw.body.len() == 0 {
            MessageType::System
        } else {
            MessageType::Text
        },
        RawAttachmentView::Photo => MessageType::Photo,
        RawAttachmentView::Document { mime, .. } => document_type(mime),
        RawAttachmentView::Sticker => MessageType::Sticker,
        RawAttachmentView::Contact => MessageType::Contact,
        RawAttachmentView::Poll => MessageType::Poll,
        RawAttachmentView::Other => MessageType::Text,
    }
}

/// The media-metadata record of a raw message: present exactly for photo
/// and document attachments.
pub open spec fn classify_media(raw: RawMessageView) -> Option<MediaInfoView> {
    match raw.attachment {
        RawAttachmentView::Photo => Some(
            MediaInfoView {
                file_name: None,
                file_size: None,
                mime_type: Some("image/jpeg"@),
                caption: caption_spec(raw.body),
            },
        ),
        RawAttachmentView::Document { name, size, mime } => Some(
            MediaInfoView {
                file_name: Some(name),
                file_size: Some(size),
                mime_type: mime,
                caption: caption_spec(raw.body),
            },
        ),
        _ => None,
    }
}

/// The display text of a raw message: the body where one exists, else the
/// placeholder of the message's type.
pub open spec fn classify_text(raw: RawMessageView) -> Seq<char> {
    match raw.attachment {
        RawAttachmentView::Absent => if raw.body.len() == 0 {
            "[System Message]"@
        } else {
            raw.body
        },
        RawAttachmentView::Photo => if raw.body.len() == 0 {
            "[Photo]"@
        } else {
            raw.body
        },
        RawAttachmentView::Document { name, mime, .. } => if raw.body.len() == 0 {
            match document_type(mime) {
                MessageType::Video => "[Video]"@,
                MessageType::Audio => "[Audio]"@,
                _ => "[Document: "@ + name + "]"@,
            }
        } else {
            raw.body
        },
        RawAttachmentView::Sticker => "[Sticker]"@,
        RawAttachmentView::Contact => "[Contact]"@,
        RawAttachmentView::Poll => "[Poll]"@,
        RawAttachmentView::Other => if raw.body.len() == 0 {
            "[Media]"@
        } else {
            raw.body
        },
    }
}

/// Law: the display text is never empty — where the raw body is empty, the
/// type-specific placeholder takes its place.
pub proof fn lemma_display_text_nonempty(raw: RawMessageView)
    ensures
        classify_text(raw).len() > 0,
{
    reveal_strlit("[System Message]");
    reveal_strlit("[Photo]");
    reveal_strlit("[Video]");
    reveal_strlit("[Audio]");
    reveal_strlit("[Document: ");
    reveal_strlit("]");
    reveal_strlit("[Sticker]");
    reveal_strlit("[Contact]");
    reveal_strlit("[Poll]");
    reveal_strlit("[Media]");
}

/// Whether `p` is a prefix of `s`, by codepoints.
fn str_has_prefix(s: &str, p: &str) -> (r: bool)
    ensures
        r == has_prefix(s@, p@),
{
    let n = p.unicode_len();
    if n > s.unicode_len() {
        return false;
    }
    let mut i: usize = 0;
    while i < n
        invariant
            i <= n,
            n == p@.len(),
            n <= s@.len(),
            forall|j: int| 0 <= j < i ==> s@[j] == p@[j],
        decreases n - i,
    {
        if s.get_char(i) != p.get_char(i) {
            proof {
                assert(s@.subrange(0, p@.len() as int)[i as int] == s@[i as int]);
            }
            return false;
        }
        i = i + 1;
    }
    proof {
        assert(s@.subrange(0, p@.len() as int) =~= p@);
    }
    true
}

/// The caption carried into a media record: the body, or absent if empty.
fn caption_of_body(body: &String) -> (r: Option<String>)
    ensures
        r.deep_view() == caption_spec(body@),
{
    if body.as_str().is_empty() {
        Option::None
    } else {
        Option::Some(body.clone())
    }
}

/// Classifies a raw message: its semantic type, its optional media
/// metadata, and its display text. Total over all attachment kinds; never
/// fails.
pub fn classify_message(raw: &RawMessage) -> (r: (MessageType, Option<MediaInfo>, String))
    ensures
        r.0 == classify_type(raw@),
        r.1.deep_view() == classify_media(raw@),
        r.2@ == classify_text(raw@),
{
    match &raw.attachment {
        RawAttachment::Absent => {
            if raw.body.as_str().is_empty() {
                (MessageType::System, Option::None, String::from_str("[System Message]"))
            } else {
                (MessageType::Text, Option::None, raw.body.clone())
            }
        },
        RawAttachment::Photo => {
            let media = MediaInfo {
                file_name: Option::None,
                file_size: Option::None,
                mime_type: Option::Some(String::from_str("image/jpeg")),
                caption: caption_of_body(&raw.body),
            };
            let text = if raw.body.as_str().is_empty() {
                String::from_str("[Photo]")
            } else {
                raw.body.clone()
            };
            (MessageType::Photo, Option::Some(media), text)
        },
        RawAttachment::Document { name, size, mime } => {
            let message_type = match mime {
                Option::Some(m) => {
                    if str_has_prefix(m.as_str(), "video/") {
                        MessageType::Video
                    } else if str_has_prefix(m.as_str(), "audio/") {
                        MessageType::Audio
                    } else {
                        MessageType::Document
                    }
                },
                Option::None => MessageType::Document,
            };
            let media = MediaInfo {
                file_name: Option::Some(name.clone()),
                file_size: Option::Some(*size),
                mime_type: crate::message::clone_opt_string(mime),
                caption: caption_of_body(&raw.body),
            };
            let text = if raw.body.as_str().is_empty() {
                match message_type {
                    MessageType::Video => String::from_str("[Video]"),
                    MessageType::Audio => String::from_str("[Audio]"),
                    _ => String::from_str("[Document: ").concat(name.as_str()).concat("]"),
                }
            } else {
                raw.body.clone()
            };
            (message_type, Option::Some(media), text)
        },
        RawAttachment::Sticker => {
            (MessageType::Sticker, Option::None, String::from_str("[Sticker]"))
        },
        RawAttachment::Contact => {
            (MessageType::Contact, Option::None, String::from_str("[Contact]"))
        },
        RawAttachment::Poll => (MessageType::Poll, Option::None, String::from_str("[Poll]")),
        RawAttachment::Other => {
            let text = if raw.body.as_str().is_empty() {
                String::from_str("[Media]")
            } else {
                raw.body.clone()
            };
            (MessageType::Text, Option::None, text)
        },
    }
}

} // verus!
