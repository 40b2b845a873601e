//! Messages sent to the bot and the responses it gives.

use vstd::prelude::*;
use vstd::string::*;
use crate::framework::error::Error;
use crate::string_map::StringMap;
use crate::system::{uuid_to_string, wall_clock_millis};
use crate::text::{is_prefix, starts_with_text};

verus! {

pub use crate::bedrock::message::TokenUsage;

/// The longest content, in characters, that a message may carry.
pub const MAX_CONTENT_LENGTH: usize = 100_000;

/// Type of message
#[derive(Debug, Clone, Copy, PartialEq, Eq, Structural)]
pub enum MessageType {
    /// Plain text message
    Text,
    /// Command to the bot
    Command,
    /// System message
    System,
    /// Error message
    Error,
    /// Embedded content
    Embed,
    /// File attachment
    File,
    /// Image attachment
    Image,
    /// Audio attachment
    Audio,
    /// Video attachment
    Video,
}

impl MessageType {
    /// Whether the type stands for media.
    pub open spec fn spec_is_media(self) -> bool {
        self is File || self is Image || self is Audio || self is Video
    }

    /// Check if this is a media type
    pub fn is_media(&self) -> (b: bool)
        ensures
            b == self.spec_is_media(),
    {
        match self {
            MessageType::File => true,
            MessageType::Image => true,
            MessageType::Audio => true,
            MessageType::Video => true,
            _ => false,
        }
    }
}

/// Message flags for special handling
#[derive(Debug, Clone, Copy, PartialEq, Eq, Structural)]
pub struct MessageFlags {
    /// Message is urgent
    pub urgent: bool,
    /// Message is private
    pub private: bool,
    /// Message should be ephemeral
    pub ephemeral: bool,
    /// Message contains sensitive content
    pub sensitive: bool,
    /// Message should bypass filters
    pub bypass_filters: bool,
    /// Message should not be logged
    pub no_log: bool,
}

impl Default for MessageFlags {
    fn default() -> (f: Self)
        ensures
            !f.urgent && !f.private && !f.ephemeral && !f.sensitive && !f.bypass_filters
                && !f.no_log,
    {
        MessageFlags {
            urgent: false,
            private: false,
            ephemeral: false,
            sensitive: false,
            bypass_filters: false,
            no_log: false,
        }
    }
}

/// An attachment to a message
#[derive(Debug)]
pub struct Attachment {
    /// Unique attachment ID
    pub id: uuid::Uuid,
    /// Filename
    pub filename: String,
    /// MIME type
    pub mime_type: String,
    /// Size in bytes
    pub size: usize,
    /// URL or path to the attachment
    pub url: String,
    /// Optional thumbnail URL
    pub thumbnail_url: Option<String>,
    /// Attachment metadata
    pub metadata: StringMap<serde_json::Value>,
}

impl Attachment {
    /// Create a new attachment
    pub fn new(filename: &str, mime_type: &str, size: usize, url: &str) -> (a: Self)
        ensures
            a.filename@ == filename@,
            a.mime_type@ == mime_type@,
            a.size == size,
            a.url@ == url@,
            a.thumbnail_url is None,
            a.metadata@ == Map::<Seq<char>, serde_json::Value>::empty(),
    {
        Attachment {
            id: uuid::Uuid::new_v4(),
            filename: String::from_str(filename),
            mime_type: String::from_str(mime_type),
            size,
            url: String::from_str(url),
            thumbnail_url: None,
            metadata: StringMap::new(),
        }
    }

    /// Check if this is an image attachment
    pub fn is_image(&self) -> (b: bool)
        ensures
            b == is_prefix("image/"@, self.mime_type@),
    {
        starts_with_text(self.mime_type.as_str(), "image/")
    }

    /// Check if this is a video attachment
    pub fn is_video(&self) -> (b: bool)
        ensures
            b == is_prefix("video/"@, self.mime_type@),
    {
        starts_with_text(self.mime_type.as_str(), "video/")
    }

    /// Check if this is an audio attachment
    pub fn is_audio(&self) -> (b: bool)
        ensures
            b == is_prefix("audio/"@, self.mime_type@),
    {
        starts_with_text(self.mime_type.as_str(), "audio/")
    }
}

/// The sizes of the attachments, added up.
pub open spec fn total_size(attachments: Seq<Attachment>) -> nat
    decreases attachments.len(),
{
    if attachments.len() == 0 {
        0
    } else {
        total_size(attachments.drop_last()) + attachments.last().size as nat
    }
}

/// The sizes of the first attachments add up to no more than the sizes of all.
pub proof fn lemma_total_size_of_prefix(attachments: Seq<Attachment>, n: int)
    requires
        0 <= n <= attachments.len(),
    ensures
        total_size(attachments.take(n)) <= total_size(attachments),
    decreases attachments.len(),
{
    if n == attachments.len() {
        assert(attachments.take(n) =~= attachments);
    } else {
        lemma_total_size_of_prefix(attachments.drop_last(), n);
        assert(attachments.drop_last().take(n) =~= attachments.take(n));
    }
}

/// A message sent to the bot
#[derive(Debug)]
pub struct Message {
    /// Unique message ID
    pub id: uuid::Uuid,
    /// Conversation ID for context tracking
    pub conversation_id: String,
    /// User ID who sent the message
    pub user_id: String,
    /// Message type
    pub message_type: MessageType,
    /// Message content
    pub content: String,
    /// Optional attachments
    pub attachments: Vec<Attachment>,
    /// Message metadata
    pub metadata: StringMap<serde_json::Value>,
    /// Timestamp when the message was created, in milliseconds since the Unix epoch
    pub timestamp_ms: i64,
    /// Optional parent message ID for threading
    pub parent_id: Option<uuid::Uuid>,
    /// Message flags
    pub flags: MessageFlags,
}

impl Message {
    /// Whether the content has an acceptable length.
    pub open spec fn content_in_range(&self) -> bool {
        1 <= self.content@.len() <= MAX_CONTENT_LENGTH
    }

    /// Create a new text message
    pub fn text(content: &str) -> (m: Self)
        ensures
            m.content@ == content@,
            m.message_type == MessageType::Text,
            m.user_id@ == "anonymous"@,
            m.attachments@.len() == 0,
            m.metadata@ == Map::<Seq<char>, serde_json::Value>::empty(),
            m.parent_id is None,
            m.flags == (MessageFlags {
                urgent: false,
                private: false,
                ephemeral: false,
                sensitive: false,
                bypass_filters: false,
                no_log: false,
            }),
    {
        let conversation = uuid::Uuid::new_v4();
        Message {
            id: uuid::Uuid::new_v4(),
            conversation_id: uuid_to_string(&conversation),
            user_id: String::from_str("anonymous"),
            message_type: MessageType::Text,
            content: String::from_str(content),
            attachments: Vec::new(),
            metadata: StringMap::new(),
            timestamp_ms: wall_clock_millis(),
            parent_id: None,
            flags: MessageFlags::default(),
        }
    }

    /// Create a new message with a specific type
    pub fn with_type(content: &str, message_type: MessageType) -> (m: Self)
        ensures
            m.content@ == content@,
            m.message_type == message_type,
            m.user_id@ == "anonymous"@,
            m.attachments@.len() == 0,
            m.metadata@ == Map::<Seq<char>, serde_json::Value>::empty(),
            m.parent_id is None,
    {
        let mut message = Message::text(content);
        message.message_type = message_type;
        message
    }

    /// Set the conversation ID
    pub fn with_conversation_id(self, id: &str) -> (m: Self)
        ensures
            m.conversation_id@ == id@,
            m == (Message { conversation_id: m.conversation_id, ..self }),
    {
        let mut m = self;
        m.conversation_id = String::from_str(id);
        m
    }

    /// Set the user ID
    pub fn with_user_id(self, id: &str) -> (m: Self)
        ensures
            m.user_id@ == id@,
            m == (Message { user_id: m.user_id, ..self }),
    {
        let mut m = self;
        m.user_id = String::from_str(id);
        m
    }

    /// Add an attachment
    pub fn with_attachment(self, attachment: Attachment) -> (m: Self)
        ensures
            m.attachments@ == self.attachments@.push(attachment),
            m == (Message { attachments: m.attachments, ..self }),
    {
        let mut m = self;
        m.attachments.push(attachment);
        m
    }

    /// Add metadata
    pub fn with_metadata(self, key: &str, value: serde_json::Value) -> (m: Self)
        ensures
            m.metadata@ == self.metadata@.insert(key@, value),
            m == (Message { metadata: m.metadata, ..self }),
    {
        let mut m = self;
        let mut metadata = StringMap::new();
        std::mem::swap(&mut m.metadata, &mut metadata);
        metadata.insert(String::from_str(key), value);
        m.metadata = metadata;
        m
    }

    /// Set the parent message ID for threading
    pub fn with_parent(self, parent_id: uuid::Uuid) -> (m: Self)
        ensures
            m == (Message { parent_id: Some(parent_id), ..self }),
    {
        let mut m = self;
        m.parent_id = Some(parent_id);
        m
    }

    /// Set message flags
    pub fn with_flags(self, flags: MessageFlags) -> (m: Self)
        ensures
            m == (Message { flags, ..self }),
    {
        let mut m = self;
        m.flags = flags;
        m
    }

    /// Validate the message: its content must have between one and a hundred
    /// thousand characters.
    pub fn validate(&self) -> (r: Result<(), Error>)
        ensures
            r is Ok <==> self.content_in_range(),
            r matches Err(e) ==> e is Validation && e.spec_detail() == Some(
                "content: length must be between 1 and 100000"@,
            ),
    {
        let length = self.content.as_str().unicode_len();
        if length < 1 || length > MAX_CONTENT_LENGTH {
            return Err(
                Error::Validation(String::from_str("content: length must be between 1 and 100000")),
            );
        }
        Ok(())
    }

    /// Check if this is a system message
    pub fn is_system(&self) -> (b: bool)
        ensures
            b == (self.message_type == MessageType::System),
    {
        match self.message_type {
            MessageType::System => true,
            _ => false,
        }
    }

    /// Check if this message has attachments
    pub fn has_attachments(&self) -> (b: bool)
        ensures
            b == (self.attachments@.len() > 0),
    {
        self.attachments.len() > 0
    }

    /// Get the total size of attachments in bytes
    pub fn attachment_size(&self) -> (n: usize)
        requires
            total_size(self.attachments@) <= usize::MAX,
        ensures
            n == total_size(self.attachments@),
    {
        let mut sum: usize = 0;
        let mut i: usize = 0;
        while i < self.attachments.len()
            invariant
                i <= self.attachments.len(),
                sum == total_size(self.attachments@.take(i as int)),
                total_size(self.attachments@) <= usize::MAX,
            decreases self.attachments.len() - i,
        {
            proof {
                lemma_total_size_of_prefix(self.attachments@, i + 1);
                assert(self.attachments@.take(i + 1).drop_last() =~= self.attachments@.take(
                    i as int,
                ));
            }
            sum = sum + self.attachments[i].size;
            i = i + 1;
        }
        assert(self.attachments@.take(i as int) =~= self.attachments@);
        sum
    }
}

/// Type of response
#[derive(Debug, Clone, Copy, PartialEq, Eq, Structural)]
pub enum ResponseType {
    /// Plain text response
    Text,
    /// Markdown formatted response
    Markdown,
    /// HTML formatted response
    Html,
    /// JSON structured response
    Json,
    /// Error response
    Error,
    /// Streaming response chunk
    Stream,
    /// Response with embedded content
    Embed,
}

/// Response error information
#[derive(Debug, Clone)]
pub struct ResponseError {
    /// Error code
    pub code: String,
    /// Error message
    pub message: String,
    /// Whether the error is retryable
    pub retryable: bool,
    /// Optional retry after duration in seconds
    pub retry_after: Option<u64>,
}

impl ResponseError {
    /// Create a new response error
    pub fn new(code: &str, message: &str) -> (e: Self)
        ensures
            e.code@ == code@,
            e.message@ == message@,
            !e.retryable,
            e.retry_after is None,
    {
        ResponseError {
            code: String::from_str(code),
            message: String::from_str(message),
            retryable: false,
            retry_after: None,
        }
    }

    /// Set whether the error is retryable
    pub fn retryable(self, retryable: bool) -> (e: Self)
        ensures
            e == (ResponseError { retryable, ..self }),
    {
        let mut e = self;
        e.retryable = retryable;
        e
    }

    /// Set retry after duration
    pub fn retry_after(self, seconds: u64) -> (e: Self)
        ensures
            e == (ResponseError { retry_after: Some(seconds), ..self }),
    {
        let mut e = self;
        e.retry_after = Some(seconds);
        e
    }
}

/// Response flags
#[derive(Debug, Clone, Copy, PartialEq, Eq, Structural)]
pub struct ResponseFlags {
    /// Response was truncated
    pub truncated: bool,
    /// Response is partial (streaming)
    pub partial: bool,
    /// Response was cached
    pub cached: bool,
    /// Response contains sensitive content
    pub sensitive: bool,
    /// Response should not be cached
    pub no_cache: bool,
}

impl Default for ResponseFlags {
    fn default() -> (f: Self)
        ensures
            !f.truncated && !f.partial && !f.cached && !f.sensitive && !f.no_cache,
    {
        ResponseFlags {
            truncated: false,
            partial: false,
            cached: false,
            sensitive: false,
            no_cache: false,
        }
    }
}

/// Action for a suggestion
#[derive(Debug)]
pub enum SuggestionAction {
    /// Send a message
    Message(String),
    /// Execute a command
    Command(String),
    /// Open a URL
    Url(String),
    /// Custom action
    Custom(serde_json::Value),
}

/// A suggestion for follow-up actions
#[derive(Debug)]
pub struct Suggestion {
    /// Suggestion text
    pub text: String,
    /// Action to take if selected
    pub action: SuggestionAction,
    /// Optional icon
    pub icon: Option<String>,
}

/// A response from the bot
#[derive(Debug)]
pub struct Response {
    /// Unique response ID
    pub id: uuid::Uuid,
    /// Conversation ID
    pub conversation_id: String,
    /// Response content
    pub content: String,
    /// Response type
    pub response_type: ResponseType,
    /// Optional error information
    pub error: Option<ResponseError>,
    /// Response metadata
    pub metadata: StringMap<serde_json::Value>,
    /// Timestamp, in milliseconds since the Unix epoch
    pub timestamp_ms: i64,
    /// Token usage information
    pub usage: Option<TokenUsage>,
    /// Response flags
    pub flags: ResponseFlags,
    /// Optional suggested actions
    pub suggestions: Vec<Suggestion>,
}

impl Response {
    /// Create a new text response
    pub fn text(conversation_id: &str, content: &str) -> (r: Self)
        ensures
            r.conversation_id@ == conversation_id@,
            r.content@ == content@,
            r.response_type == ResponseType::Text,
            r.error is None,
            r.metadata@ == Map::<Seq<char>, serde_json::Value>::empty(),
            r.usage is None,
            r.suggestions@.len() == 0,
            !r.flags.truncated && !r.flags.partial && !r.flags.cached && !r.flags.sensitive
                && !r.flags.no_cache,
    {
        Response {
            id: uuid::Uuid::new_v4(),
            conversation_id: String::from_str(conversation_id),
            content: String::from_str(content),
            response_type: ResponseType::Text,
            error: None,
            metadata: StringMap::new(),
            timestamp_ms: wall_clock_millis(),
            usage: None,
            flags: ResponseFlags::default(),
            suggestions: Vec::new(),
        }
    }

    /// Create an error response: its content is the error's message
    pub fn error(conversation_id: &str, error: ResponseError) -> (r: Self)
        ensures
            r.conversation_id@ == conversation_id@,
            r.content@ == error.message@,
            r.response_type == ResponseType::Error,
            r.error == Some(error),
            r.usage is None,
            r.suggestions@.len() == 0,
    {
        let mut response = Response::text(conversation_id, error.message.as_str());
        response.response_type = ResponseType::Error;
        response.error = Some(error);
        response
    }

    /// Add token usage information
    pub fn with_usage(self, usage: TokenUsage) -> (r: Self)
        ensures
            r == (Response { usage: Some(usage), ..self }),
    {
        let mut r = self;
        r.usage = Some(usage);
        r
    }

    /// Add a suggestion
    pub fn with_suggestion(self, suggestion: Suggestion) -> (r: Self)
        ensures
            r.suggestions@ == self.suggestions@.push(suggestion),
            r == (Response { suggestions: r.suggestions, ..self }),
    {
        let mut r = self;
        r.suggestions.push(suggestion);
        r
    }

    /// Set response flags
    pub fn with_flags(self, flags: ResponseFlags) -> (r: Self)
        ensures
            r == (Response { flags, ..self }),
    {
        let mut r = self;
        r.flags = flags;
        r
    }

    /// Check if this response contains an error
    pub fn is_error(&self) -> (b: bool)
        ensures
            b == (self.error is Some || self.response_type == ResponseType::Error),
    {
        self.error.is_some() || match self.response_type {
            ResponseType::Error => true,
            _ => false,
        }
    }

    /// Get the total tokens used, zero where no usage is known
    pub fn total_tokens(&self) -> (n: usize)
        ensures
            n == match self.usage {
                Some(u) => u.spec_input_tokens() + u.spec_output_tokens(),
                None => 0,
            },
    {
        match &self.usage {
            Some(u) => u.total_tokens(),
            None => 0,
        }
    }
}

} // verus!
