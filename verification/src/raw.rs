//! The library's model of a raw chat message, as the chat client delivers it.
//!
//! The pipeline never reads the client's own message objects: the caller
//! hands over one [`RawMessage`] per message, carrying exactly the fields the
//! pipeline consumes — id, timestamp, sender name, reply target, the
//! attachment discriminator with its document sub-fields, the plain-text
//! body, and the list of formatting spans in codepoint units of the body.

use vstd::prelude::*;

verus! {

/// The chat service's own enumeration of formatting-span kinds.
///
/// The variants the pipeline maps to typed spans are listed by name; every
/// kind the pipeline does not map is delivered as [`RawSpanKind::Unsupported`]
/// and dropped during extraction.
#[derive(Clone, Copy, Debug, PartialEq, Eq, Structural)]
pub enum RawSpanKind {
    Bold,
    Italic,
    Code,
    Pre,
    TextUrl,
    Url,
    Mention,
    Hashtag,
    BotCommand,
    Email,
    Phone,
    Unsupported,
}

/// Mathematical value of a [`RawSpan`].
#[verifier::ext_equal]
pub ghost struct RawSpanView {
    pub offset: usize,
    pub length: usize,
    pub kind: RawSpanKind,
    pub url: Option<Seq<char>>,
}

/// One formatting span as supplied by the chat client: offset and length in
/// codepoint units of the plain-text body, a kind, and a URL where the
/// service attached one.
#[derive(Debug, PartialEq, Eq)]
pub struct RawSpan {
    pub offset: usize,
    pub length: usize,
    pub kind: RawSpanKind,
    pub url: Option<String>,
}

impl View for RawSpan {
    type V = RawSpanView;

    open spec fn view(&self) -> RawSpanView {
        RawSpanView {
            offset: self.offset,
            length: self.length,
            kind: self.kind,
            url: self.url.deep_view(),
        }
    }
}

impl DeepView for RawSpan {
    type V = RawSpanView;

    open spec fn deep_view(&self) -> RawSpanView {
        self.view()
    }
}

/// Mathematical value of a [`RawAttachment`].
#[verifier::ext_equal]
pub ghost enum RawAttachmentView {
    Absent,
    Photo,
    Document { name: Seq<char>, size: u64, mime: Option<Seq<char>> },
    Sticker,
    Contact,
    Poll,
    Other,
}

/// The attachment discriminator of a raw message, with the document
/// sub-fields where applicable.
#[derive(Debug, PartialEq, Eq)]
pub enum RawAttachment {
    Absent,
    Photo,
    Document { name: String, size: u64, mime: Option<String> },
    Sticker,
    Contact,
    Poll,
    Other,
}

impl View for RawAttachment {
    type V = RawAttachmentView;

    open spec fn view(&self) -> RawAttachmentView {
        match self {
            RawAttachment::Absent => RawAttachmentView::Absent,
            RawAttachment::Photo => RawAttachmentView::Photo,
            RawAttachment::Document { name, size, mime } => RawAttachmentView::Document {
                name: name@,
                size: *size,
                mime: mime.deep_view(),
            },
            RawAttachment::Sticker => RawAttachmentView::Sticker,
            RawAttachment::Contact => RawAttachmentView::Contact,
            RawAttachment::Poll => RawAttachmentView::Poll,
            RawAttachment::Other => RawAttachmentView::Other,
        }
    }
}

/// Mathematical value of a [`RawMessage`].
#[verifier::ext_equal]
pub ghost struct RawMessageView {
    pub id: i32,
    pub body: Seq<char>,
    pub timestamp: i64,
    pub sender: Option<Seq<char>>,
    pub reply_to: Option<i32>,
    pub attachment: RawAttachmentView,
    pub spans: Seq<RawSpanView>,
}

/// One raw chat message, carrying what the chat client supplies per message.
///
/// `spans` may legitimately be empty: formatting metadata is not always
/// obtainable, and the pipeline never re-derives it from the text.
#[derive(Debug, PartialEq, Eq)]
pub struct RawMessage {
    pub id: i32,
    pub body: String,
    pub timestamp: i64,
    pub sender: Option<String>,
    pub reply_to: Option<i32>,
    pub attachment: RawAttachment,
    pub spans: Vec<RawSpan>,
}

impl View for RawMessage {
    type V = RawMessageView;

    open spec fn view(&self) -> RawMessageView {
        RawMessageView {
            id: self.id,
            body: self.body@,
            timestamp: self.timestamp,
            sender: self.sender.deep_view(),
            reply_to: self.reply_to,
            attachment: self.attachment@,
            spans: self.spans.deep_view(),
        }
    }
}

} // verus!
