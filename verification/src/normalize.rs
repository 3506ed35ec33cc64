//! The message normalizer: composes classification and span extraction into
//! one self-contained record per raw message, and assembles the outcome of a
//! batch fetch.

use vstd::prelude::*;
use vstd::string::StringExecFns;

use crate::classify::{classify_media, classify_message, classify_text, classify_type, has_prefix};
use crate::extract::{extract_spec, extract_text_entities};
use crate::message::{ChatMessage, ChatMessageView, MessageType};
use crate::raw::{RawAttachmentView, RawMessage, RawMessageView};

verus! {

/// The sender shown for a raw message: the resolved display name, or the
/// literal `"Unknown"` where none could be resolved.
pub open spec fn sender_spec(sender: Option<Seq<char>>) -> Seq<char> {
    match sender {
        Some(s) => s,
        None => "Unknown"@,
    }
}

/// The normalized record of a raw message: type, media and display text
/// from the classifier, typed spans from the extractor, the remaining
/// fields copied from the raw message. Forward-origin extraction is out of
/// scope, so `forwarded_from` is always absent.
pub open spec fn normalize_spec(raw: RawMessageView, chat_id: i64) -> ChatMessageView {
    ChatMessageView {
        id: raw.id,
        text: classify_text(raw),
        formatted_text: extract_spec(raw.spans),
        timestamp: raw.timestamp,
        sender: sender_spec(raw.sender),
        chat_id: chat_id,
        message_type: classify_type(raw),
        media_info: classify_media(raw),
        reply_to: raw.reply_to,
        forwarded_from: None,
    }
}

/// Normalizes one raw message into a self-contained record. Total for every
/// raw message; never fails.
pub fn normalize_message(raw: &RawMessage, chat_id: i64) -> (r: ChatMessage)
    ensures
        r@ == normalize_spec(raw@, chat_id),
{
    let (message_type, media_info, text) = classify_message(raw);
    let formatted_text = extract_text_entities(raw);
    let sender = match &raw.sender {
        Option::Some(s) => s.clone(),
        Option::None => String::from_str("Unknown"),
    };
    let r = ChatMessage {
        id: raw.id,
        text,
        formatted_text,
        timestamp: raw.timestamp,
        sender,
        chat_id,
        message_type,
        media_info,
        reply_to: raw.reply_to,
        forwarded_from: Option::None,
    };
    assert(r@ =~= normalize_spec(raw@, chat_id));
    r
}

/// Normalizes a batch of raw messages fetched newest-first and returns the
/// records oldest-first.
pub fn normalize_history(raws: &Vec<RawMessage>, chat_id: i64) -> (r: Vec<ChatMessage>)
    ensures
        r@.len() == raws@.len(),
        forall|j: int|
            0 <= j < r@.len() ==> #[trigger] r@[j]@ == normalize_spec(
                raws@[raws@.len() - 1 - j]@,
                chat_id,
            ),
{
    let mut r: Vec<ChatMessage> = Vec::new();
    let mut i: usize = raws.len();
    while i > 0
        invariant
            i <= raws@.len(),
            r@.len() == raws@.len() - i,
            forall|j: int|
                0 <= j < r@.len() ==> #[trigger] r@[j]@ == normalize_spec(
                    raws@[raws@.len() - 1 - j]@,
                    chat_id,
                ),
        decreases i,
    {
        i = i - 1;
        r.push(normalize_message(&raws[i], chat_id));
    }
    r
}

/// A terminal failure of the batch-fetch boundary.
#[derive(Clone, Copy, Debug, PartialEq, Eq, Structural)]
pub enum FetchError {
    /// The requested chat id is not among the chat client's known dialogs.
    ChatNotFound,
    /// The chat client holds no valid session.
    ClientUnauthenticated,
}

/// Assembles the outcome of a batch fetch from what the chat client
/// reported: an unauthenticated client fails first, an unknown chat id
/// second; otherwise the collected raw messages, fetched newest-first, are
/// normalized and returned oldest-first.
pub fn assemble_history(
    authorized: bool,
    chat_found: bool,
    raws: &Vec<RawMessage>,
    chat_id: i64,
) -> (r: Result<Vec<ChatMessage>, FetchError>)
    ensures
        r is Err <==> !authorized || !chat_found,
        !authorized ==> r == Result::<Vec<ChatMessage>, FetchError>::Err(
            FetchError::ClientUnauthenticated,
        ),
        authorized && !chat_found ==> r == Result::<Vec<ChatMessage>, FetchError>::Err(
            FetchError::ChatNotFound,
        ),
        r matches Ok(msgs) ==> {
            &&& msgs@.len() == raws@.len()
            &&& forall|j: int|
                0 <= j < msgs@.len() ==> #[trigger] msgs@[j]@ == normalize_spec(
                    raws@[raws@.len() - 1 - j]@,
                    chat_id,
                )
        },
{
    if !authorized {
        Result::Err(FetchError::ClientUnauthenticated)
    } else if !chat_found {
        Result::Err(FetchError::ChatNotFound)
    } else {
        Result::Ok(normalize_history(raws, chat_id))
    }
}

/// Law: normalizing the same raw message twice yields field-for-field
/// identical records.
pub proof fn lemma_normalize_idempotent(
    m1: ChatMessage,
    m2: ChatMessage,
    raw: RawMessage,
    chat_id: i64,
)
    requires
        m1@ == normalize_spec(raw@, chat_id),
        m2@ == normalize_spec(raw@, chat_id),
    ensures
        m1@.id == m2@.id,
        m1@.text == m2@.text,
        m1@.formatted_text == m2@.formatted_text,
        m1@.timestamp == m2@.timestamp,
        m1@.sender == m2@.sender,
        m1@.chat_id == m2@.chat_id,
        m1@.message_type == m2@.message_type,
        m1@.media_info == m2@.media_info,
        m1@.reply_to == m2@.reply_to,
        m1@.forwarded_from == m2@.forwarded_from,
{
}

/// Law: where a textual body exists and the attachment kind does not force
/// a placeholder, the display text is the raw body, unmodified — the
/// pipeline never strips or interprets markup characters.
pub proof fn lemma_body_kept_as_display_text(raw: RawMessageView, chat_id: i64)
    requires
        raw.body.len() > 0,
        !(raw.attachment is Sticker),
        !(raw.attachment is Contact),
        !(raw.attachment is Poll),
    ensures
        normalize_spec(raw, chat_id).text == raw.body,
{
}

/// Law: with no formatting spans supplied, the normalized record carries no
/// typed spans — formatting is never synthesized from the text itself.
pub proof fn lemma_no_spans_no_formatting(raw: RawMessageView, chat_id: i64)
    requires
        raw.spans.len() == 0,
    ensures
        normalize_spec(raw, chat_id).formatted_text.len() == 0,
{
}

/// Law: where every supplied span lies within the display text, every span
/// of the normalized record lies within its display text too.
pub proof fn lemma_formatted_spans_in_bounds(raw: RawMessageView, chat_id: i64)
    requires
        forall|k: int|
            0 <= k < raw.spans.len() ==> #[trigger] raw.spans[k].offset + raw.spans[k].length
                <= classify_text(raw).len(),
    ensures
        forall|k: int|
            0 <= k < normalize_spec(raw, chat_id).formatted_text.len()
                ==> #[trigger] normalize_spec(raw, chat_id).formatted_text[k].offset
                + normalize_spec(raw, chat_id).formatted_text[k].length <= normalize_spec(
                raw,
                chat_id,
            ).text.len(),
{
    crate::extract::lemma_extract_preserves_extent(raw.spans, classify_text(raw).len() as int);
}

/// Law: a raw message with an empty body and no attachment normalizes to a
/// system message carrying the system placeholder as display text.
pub proof fn lemma_empty_no_attachment_is_system(raw: RawMessageView, chat_id: i64)
    requires
        raw.attachment is Absent,
        raw.body.len() == 0,
    ensures
        normalize_spec(raw, chat_id).message_type == MessageType::System,
        normalize_spec(raw, chat_id).text == "[System Message]"@,
{
}

/// Law: a raw message with a document attachment whose declared MIME type
/// starts with `"video/"` normalizes to a video message.
pub proof fn lemma_video_document_is_video(raw: RawMessageView, chat_id: i64)
    requires
        raw.attachment matches RawAttachmentView::Document { mime: Some(m), .. } && has_prefix(
            m,
            "video/"@,
        ),
    ensures
        normalize_spec(raw, chat_id).message_type == MessageType::Video,
{
}

} // verus!
