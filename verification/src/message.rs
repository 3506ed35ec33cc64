//! The normalized message record and its component types.

use vstd::prelude::*;

verus! {

/// The kind of a typed text span over a message's display text.
#[derive(Clone, Copy, Debug, PartialEq, Eq, Structural)]
pub enum EntityType {
    Bold,
    Italic,
    Code,
    Pre,
    Link,
    TextLink,
    Mention,
    Hashtag,
    BotCommand,
    Email,
    Phone,
    Underline,
    Strikethrough,
    Spoiler,
}

/// The semantic type of a normalized message.
#[derive(Clone, Copy, Debug, PartialEq, Eq, Structural)]
pub enum MessageType {
    Text,
    Photo,
    Video,
    Document,
    Audio,
    Voice,
    Sticker,
    Location,
    Contact,
    Poll,
    System,
}

/// The fixed emoji glyph that serves as a message type's display badge.
pub open spec fn emoji_of(t: MessageType) -> Seq<char> {
    match t {
        MessageType::Text => "💬"@,
        MessageType::Photo => "📷"@,
        MessageType::Video => "🎥"@,
        MessageType::Document => "📄"@,
        MessageType::Audio => "🎵"@,
        MessageType::Voice => "🎤"@,
        MessageType::Sticker => "😀"@,
        MessageType::Location => "📍"@,
        MessageType::Contact => "👤"@,
        MessageType::Poll => "📊"@,
        MessageType::System => "⚙️"@,
    }
}

impl MessageType {
    /// The emoji glyph shown as this message type's badge.
    pub fn get_emoji(self) -> (r: &'static str)
        ensures
            r@ == emoji_of(self),
    {
        match self {
            MessageType::Text => "💬",
            MessageType::Photo => "📷",
            MessageType::Video => "🎥",
            MessageType::Document => "📄",
            MessageType::Audio => "🎵",
            MessageType::Voice => "🎤",
            MessageType::Sticker => "😀",
            MessageType::Location => "📍",
            MessageType::Contact => "👤",
            MessageType::Poll => "📊",
            MessageType::System => "⚙️",
        }
    }
}

/// Mathematical value of a [`TextEntity`]: the span with its text fields
/// taken as character sequences.
#[verifier::ext_equal]
pub ghost struct TextEntityView {
    pub offset: usize,
    pub length: usize,
    pub entity_type: EntityType,
    pub url: Option<Seq<char>>,
}

/// One typed formatting span over a message's display text.
///
/// `offset` and `length` are in codepoint units of the display text, exactly
/// as the chat client supplied them. `url` is present only for link spans.
#[derive(Debug, PartialEq, Eq)]
pub struct TextEntity {
    pub offset: usize,
    pub length: usize,
    pub entity_type: EntityType,
    pub url: Option<String>,
}

impl View for TextEntity {
    type V = TextEntityView;

    open spec fn view(&self) -> TextEntityView {
        TextEntityView {
            offset: self.offset,
            length: self.length,
            entity_type: self.entity_type,
            url: self.url.deep_view(),
        }
    }
}

impl DeepView for TextEntity {
    type V = TextEntityView;

    open spec fn deep_view(&self) -> TextEntityView {
        self.view()
    }
}

/// Mathematical value of a [`MediaInfo`].
#[verifier::ext_equal]
pub ghost struct MediaInfoView {
    pub file_name: Option<Seq<char>>,
    pub file_size: Option<u64>,
    pub mime_type: Option<Seq<char>>,
    pub caption: Option<Seq<char>>,
}

/// Metadata of a message's media attachment.
#[derive(Debug, PartialEq, Eq)]
pub struct MediaInfo {
    pub file_name: Option<String>,
    pub file_size: Option<u64>,
    pub mime_type: Option<String>,
    pub caption: Option<String>,
}

impl View for MediaInfo {
    type V = MediaInfoView;

    open spec fn view(&self) -> MediaInfoView {
        MediaInfoView {
            file_name: self.file_name.deep_view(),
            file_size: self.file_size,
            mime_type: self.mime_type.deep_view(),
            caption: self.caption.deep_view(),
        }
    }
}

impl DeepView for MediaInfo {
    type V = MediaInfoView;

    open spec fn deep_view(&self) -> MediaInfoView {
        self.view()
    }
}

/// Mathematical value of a [`ChatMessage`].
#[verifier::ext_equal]
pub ghost struct ChatMessageView {
    pub id: i32,
    pub text: Seq<char>,
    pub formatted_text: Seq<TextEntityView>,
    pub timestamp: i64,
    pub sender: Seq<char>,
    pub chat_id: i64,
    pub message_type: MessageType,
    pub media_info: Option<MediaInfoView>,
    pub reply_to: Option<i32>,
    pub forwarded_from: Option<Seq<char>>,
}

/// One normalized chat message, self-contained and safe to share across the
/// presentation boundary.
#[derive(Debug, PartialEq)]
pub struct ChatMessage {
    pub id: i32,
    pub text: String,
    pub formatted_text: Vec<TextEntity>,
    pub timestamp: i64,
    pub sender: String,
    pub chat_id: i64,
    pub message_type: MessageType,
    pub media_info: Option<MediaInfo>,
    pub reply_to: Option<i32>,
    pub forwarded_from: Option<String>,
}

impl View for ChatMessage {
    type V = ChatMessageView;

    open spec fn view(&self) -> ChatMessageView {
        ChatMessageView {
            id: self.id,
            text: self.text@,
            formatted_text: self.formatted_text.deep_view(),
            timestamp: self.timestamp,
            sender: self.sender@,
            chat_id: self.chat_id,
            message_type: self.message_type,
            media_info: self.media_info.deep_view(),
            reply_to: self.reply_to,
            forwarded_from: self.forwarded_from.deep_view(),
        }
    }
}

impl DeepView for ChatMessage {
    type V = ChatMessageView;

    open spec fn deep_view(&self) -> ChatMessageView {
        self.view()
    }
}

/// Clones an optional string; the copy holds the same value.
pub(crate) fn clone_opt_string(s: &Option<String>) -> (r: Option<String>)
    ensures
        r == *s,
{
    match s {
        Option::Some(u) => Option::Some(u.clone()),
        Option::None => Option::None,
    }
}

impl Clone for TextEntity {
    fn clone(&self) -> (res: Self)
        ensures
            res == *self,
    {
        TextEntity {
            offset: self.offset,
            length: self.length,
            entity_type: self.entity_type,
            url: clone_opt_string(&self.url),
        }
    }
}

impl Clone for MediaInfo {
    fn clone(&self) -> (res: Self)
        ensures
            res == *self,
    {
        MediaInfo {
            file_name: clone_opt_string(&self.file_name),
            file_size: self.file_size,
            mime_type: clone_opt_string(&self.mime_type),
            caption: clone_opt_string(&self.caption),
        }
    }
}

/// Clones a span list; the copy holds the same spans in the same order.
fn clone_entities(v: &Vec<TextEntity>) -> (r: Vec<TextEntity>)
    ensures
        r@ == v@,
{
    let mut r: Vec<TextEntity> = Vec::new();
    let mut i: usize = 0;
    while i < v.len()
        invariant
            i <= v.len(),
            r@ =~= v@.take(i as int),
        decreases v.len() - i,
    {
        r.push(v[i].clone());
        i = i + 1;
    }
    assert(r@ =~= v@);
    r
}

impl Clone for ChatMessage {
    fn clone(&self) -> (res: Self)
        ensures
            res@ == self@,
    {
        let res = ChatMessage {
            id: self.id,
            text: self.text.clone(),
            formatted_text: clone_entities(&self.formatted_text),
            timestamp: self.timestamp,
            sender: self.sender.clone(),
            chat_id: self.chat_id,
            message_type: self.message_type,
            media_info: match &self.media_info {
                Option::Some(m) => Option::Some(m.clone()),
                Option::None => Option::None,
            },
            reply_to: self.reply_to,
            forwarded_from: clone_opt_string(&self.forwarded_from),
        };
        assert(res@ =~= self@);
        res
    }
}

} // verus!
