//! Messages, generation responses, token usage and stream chunks.

use vstd::prelude::*;
use vstd::string::*;
use vstd::slice::slice_subrange;
use crate::bedrock::error::BedrockError;
use crate::string_map::StringMap;
use crate::system::wall_clock_millis;
use crate::text::str_eq;

verus! {

/// Message role enumeration
#[derive(Debug, Clone, Copy, PartialEq, Eq, Structural)]
pub enum MessageRole {
    /// User message
    User,
    /// Assistant message
    Assistant,
    /// System message
    System,
}

/// The role of a message as the inference service knows it.
#[derive(Debug, Clone, Copy, PartialEq, Eq, Structural)]
pub enum ConversationRole {
    /// The human side of the conversation
    User,
    /// The model's side of the conversation
    Assistant,
    /// A role that this library does not know
    Unknown,
}

/// One block of a message in the service's format.
#[derive(Debug, Clone)]
pub enum ContentBlock {
    /// Plain text
    Text(String),
    /// Anything that is not text
    Other,
}

/// A message in the service's format: a role and content blocks.
#[derive(Debug, Clone)]
pub struct BedrockMessage {
    /// Who speaks
    pub role: ConversationRole,
    /// What is said, block by block
    pub content: Vec<ContentBlock>,
}

/// Universal message format for the bot
#[derive(Debug)]
pub struct UniversalMessage {
    /// Message role (user, assistant, system)
    pub role: MessageRole,
    /// Message content
    pub content: String,
    /// Optional metadata
    pub metadata: StringMap<serde_json::Value>,
}

impl UniversalMessage {
    /// Create a new user message
    pub fn user(content: &str) -> (m: Self)
        ensures
            m.role == MessageRole::User,
            m.content@ == content@,
            m.metadata@ == Map::<Seq<char>, serde_json::Value>::empty(),
    {
        UniversalMessage {
            role: MessageRole::User,
            content: String::from_str(content),
            metadata: StringMap::new(),
        }
    }

    /// Create a new assistant message
    pub fn assistant(content: &str) -> (m: Self)
        ensures
            m.role == MessageRole::Assistant,
            m.content@ == content@,
            m.metadata@ == Map::<Seq<char>, serde_json::Value>::empty(),
    {
        UniversalMessage {
            role: MessageRole::Assistant,
            content: String::from_str(content),
            metadata: StringMap::new(),
        }
    }

    /// Create a new system message
    pub fn system(content: &str) -> (m: Self)
        ensures
            m.role == MessageRole::System,
            m.content@ == content@,
            m.metadata@ == Map::<Seq<char>, serde_json::Value>::empty(),
    {
        UniversalMessage {
            role: MessageRole::System,
            content: String::from_str(content),
            metadata: StringMap::new(),
        }
    }

    /// Add metadata to the message
    pub fn with_metadata(self, key: &str, value: serde_json::Value) -> (m: Self)
        ensures
            m.role == self.role,
            m.content == self.content,
            m.metadata@ == self.metadata@.insert(key@, value),
    {
        let mut m = self;
        let mut metadata = StringMap::new();
        std::mem::swap(&mut m.metadata, &mut metadata);
        metadata.insert(String::from_str(key), value);
        m.metadata = metadata;
        m
    }

    /// Convert to the service's message format. A system message has no place
    /// there and is refused.
    pub fn to_bedrock_message(&self) -> (r: Result<BedrockMessage, BedrockError>)
        ensures
            r is Err <==> self.role == MessageRole::System,
            r matches Err(e) ==> e is InvalidInput && e.spec_detail()
                == "System messages should be handled separately in Bedrock"@,
            r matches Ok(m) ==> {
                &&& m.role == (if self.role == MessageRole::User {
                    ConversationRole::User
                } else {
                    ConversationRole::Assistant
                })
                &&& m.content@.len() == 1
                &&& m.content@[0] matches ContentBlock::Text(t)
                &&& t@ == self.content@
            },
    {
        let role = match self.role {
            MessageRole::User => ConversationRole::User,
            MessageRole::Assistant => ConversationRole::Assistant,
            MessageRole::System => {
                return Err(
                    BedrockError::InvalidInput(
                        String::from_str("System messages should be handled separately in Bedrock"),
                    ),
                );
            },
        };
        let mut content: Vec<ContentBlock> = Vec::new();
        content.push(ContentBlock::Text(self.content.clone()));
        Ok(BedrockMessage { role, content })
    }

    /// Create from a message in the service's format: the role must be known
    /// and the first block must be text.
    pub fn from_bedrock_message(message: &BedrockMessage) -> (r: Result<Self, BedrockError>)
        ensures
            r is Ok <==> message.role != ConversationRole::Unknown && message.content@.len() > 0
                && message.content@[0] is Text,
            r matches Ok(m) ==> {
                &&& m.role == (if message.role == ConversationRole::User {
                    MessageRole::User
                } else {
                    MessageRole::Assistant
                })
                &&& m.content@ == message.content@[0]->Text_0@
                &&& m.metadata@ == Map::<Seq<char>, serde_json::Value>::empty()
            },
            r matches Err(e) ==> e is InvalidResponse && e.spec_detail() == (if message.role
                == ConversationRole::Unknown {
                "Unknown message role"@
            } else {
                "No text content found"@
            }),
    {
        let role = match message.role {
            ConversationRole::User => MessageRole::User,
            ConversationRole::Assistant => MessageRole::Assistant,
            ConversationRole::Unknown => {
                return Err(BedrockError::InvalidResponse(String::from_str("Unknown message role")));
            },
        };
        if message.content.len() == 0 {
            return Err(BedrockError::InvalidResponse(String::from_str("No text content found")));
        }
        match &message.content[0] {
            ContentBlock::Text(text) => Ok(
                UniversalMessage { role, content: text.clone(), metadata: StringMap::new() },
            ),
            ContentBlock::Other => Err(
                BedrockError::InvalidResponse(String::from_str("No text content found")),
            ),
        }
    }
}

/// Token usage information. The total is always the sum of input and output.
/// Costs are in billionths of a dollar.
#[derive(Debug)]
pub struct TokenUsage {
    input_tokens: usize,
    output_tokens: usize,
    total_tokens: usize,
    estimated_cost_nanos: u64,
    model: String,
}

impl TokenUsage {
    #[verifier::type_invariant]
    spec fn inv(self) -> bool {
        self.total_tokens == self.input_tokens + self.output_tokens
    }

    /// Tokens read by the model.
    pub closed spec fn spec_input_tokens(&self) -> nat {
        self.input_tokens as nat
    }

    /// Tokens written by the model.
    pub closed spec fn spec_output_tokens(&self) -> nat {
        self.output_tokens as nat
    }

    /// The estimated cost in billionths of a dollar.
    pub closed spec fn spec_cost_nanos(&self) -> nat {
        self.estimated_cost_nanos as nat
    }

    /// The model that the tokens were spent on.
    pub closed spec fn spec_model(&self) -> Seq<char> {
        self.model@
    }

    /// Create new token usage
    pub fn new(
        input_tokens: usize,
        output_tokens: usize,
        model: &str,
        estimated_cost_nanos: u64,
    ) -> (u: Self)
        requires
            input_tokens + output_tokens <= usize::MAX,
        ensures
            u.spec_input_tokens() == input_tokens,
            u.spec_output_tokens() == output_tokens,
            u.spec_cost_nanos() == estimated_cost_nanos,
            u.spec_model() == model@,
    {
        TokenUsage {
            input_tokens,
            output_tokens,
            total_tokens: input_tokens + output_tokens,
            estimated_cost_nanos,
            model: String::from_str(model),
        }
    }

    /// Input tokens
    pub fn input_tokens(&self) -> (n: usize)
        ensures
            n == self.spec_input_tokens(),
    {
        self.input_tokens
    }

    /// Output tokens
    pub fn output_tokens(&self) -> (n: usize)
        ensures
            n == self.spec_output_tokens(),
    {
        self.output_tokens
    }

    /// Total tokens: input plus output
    pub fn total_tokens(&self) -> (n: usize)
        ensures
            n == self.spec_input_tokens() + self.spec_output_tokens(),
    {
        proof {
            use_type_invariant(self);
        }
        self.total_tokens
    }

    /// Estimated cost in billionths of a dollar
    pub fn estimated_cost_nanos(&self) -> (c: u64)
        ensures
            c == self.spec_cost_nanos(),
    {
        self.estimated_cost_nanos
    }

    /// Model identifier
    pub fn model(&self) -> (m: &str)
        ensures
            m@ == self.spec_model(),
    {
        self.model.as_str()
    }
}

impl Clone for TokenUsage {
    fn clone(&self) -> (u: Self)
        ensures
            u == *self,
    {
        proof {
            use_type_invariant(self);
        }
        TokenUsage {
            input_tokens: self.input_tokens,
            output_tokens: self.output_tokens,
            total_tokens: self.total_tokens,
            estimated_cost_nanos: self.estimated_cost_nanos,
            model: self.model.clone(),
        }
    }
}

/// Response from text generation
#[derive(Debug)]
pub struct GenerationResponse {
    /// Unique response ID
    pub id: uuid::Uuid,
    /// Generated content
    pub content: String,
    /// Model used for generation
    pub model: String,
    /// Token usage information
    pub usage: Option<TokenUsage>,
    /// Response metadata
    pub metadata: StringMap<serde_json::Value>,
    /// Response timestamp, in milliseconds since the Unix epoch
    pub timestamp_ms: i64,
    /// Reason the generation finished
    pub finish_reason: String,
}

impl GenerationResponse {
    /// Check if the response was truncated due to token limits
    pub fn is_truncated(&self) -> (b: bool)
        ensures
            b == (self.finish_reason@ == "max_tokens"@ || self.finish_reason@ == "length"@),
    {
        str_eq(self.finish_reason.as_str(), "max_tokens") || str_eq(
            self.finish_reason.as_str(),
            "length",
        )
    }

    /// Check if the response was stopped by content filtering
    pub fn is_content_filtered(&self) -> (b: bool)
        ensures
            b == (self.finish_reason@ == "content_filter"@),
    {
        str_eq(self.finish_reason.as_str(), "content_filter")
    }

    /// Get the total tokens used, zero where no usage is known
    pub fn total_tokens(&self) -> (n: usize)
        ensures
            n == match self.usage {
                Some(u) => u.spec_input_tokens() + u.spec_output_tokens(),
                None => 0,
            },
    {
        match &self.usage {
            Some(u) => u.total_tokens(),
            None => 0,
        }
    }

    /// Get the estimated cost in billionths of a dollar, zero where no usage
    /// is known
    pub fn estimated_cost_nanos(&self) -> (c: u64)
        ensures
            c == match self.usage {
                Some(u) => u.spec_cost_nanos(),
                None => 0,
            },
    {
        match &self.usage {
            Some(u) => u.estimated_cost_nanos(),
            None => 0,
        }
    }
}

/// Stream chunk for streaming responses
#[derive(Debug)]
pub struct StreamChunk {
    /// Chunk ID
    pub id: uuid::Uuid,
    /// Chunk content
    pub content: String,
    /// Whether this is the final chunk
    pub is_final: bool,
    /// Token usage (only present in final chunk)
    pub usage: Option<TokenUsage>,
    /// Chunk metadata
    pub metadata: StringMap<serde_json::Value>,
    /// Chunk timestamp, in milliseconds since the Unix epoch
    pub timestamp_ms: i64,
}

impl StreamChunk {
    /// Only the final chunk of a stream may carry usage.
    pub open spec fn wf(&self) -> bool {
        self.usage is Some ==> self.is_final
    }

    /// Create a new content chunk
    pub fn content(content: &str) -> (c: Self)
        ensures
            c.content@ == content@,
            !c.is_final,
            c.usage is None,
            c.metadata@ == Map::<Seq<char>, serde_json::Value>::empty(),
            c.wf(),
    {
        StreamChunk {
            id: uuid::Uuid::new_v4(),
            content: String::from_str(content),
            is_final: false,
            usage: None,
            metadata: StringMap::new(),
            timestamp_ms: wall_clock_millis(),
        }
    }

    /// Create a final chunk with usage information
    pub fn final_chunk(usage: TokenUsage) -> (c: Self)
        ensures
            c.content@ == Seq::<char>::empty(),
            c.is_final,
            c.usage == Some(usage),
            c.metadata@ == Map::<Seq<char>, serde_json::Value>::empty(),
            c.wf(),
    {
        StreamChunk {
            id: uuid::Uuid::new_v4(),
            content: String::new(),
            is_final: true,
            usage: Some(usage),
            metadata: StringMap::new(),
            timestamp_ms: wall_clock_millis(),
        }
    }
}

/// The token estimate that trimming assigns to each message it keeps.
pub const TOKENS_PER_KEPT_MESSAGE: usize = 100;

/// Conversation context for multi-turn interactions
#[derive(Debug)]
pub struct ConversationContext {
    /// Conversation ID
    pub id: String,
    /// Messages in the conversation
    pub messages: Vec<UniversalMessage>,
    /// Context metadata
    pub metadata: StringMap<serde_json::Value>,
    /// Total tokens used in conversation
    pub total_tokens: usize,
    /// Conversation timestamp, in milliseconds since the Unix epoch
    pub created_at_ms: i64,
    /// Last updated timestamp, in milliseconds since the Unix epoch
    pub updated_at_ms: i64,
}

impl ConversationContext {
    /// How many of `len` messages survive trimming to `max_tokens`, given the
    /// token count before: all of them where the count is within the limit,
    /// else at most one fewer, and no more than the limit pays for.
    pub open spec fn kept_after_trim(len: nat, total_tokens: nat, max_tokens: nat) -> nat {
        if total_tokens <= max_tokens || len == 0 {
            len
        } else if len - 1 <= max_tokens / (TOKENS_PER_KEPT_MESSAGE as nat) {
            (len - 1) as nat
        } else {
            max_tokens / (TOKENS_PER_KEPT_MESSAGE as nat)
        }
    }

    /// Create a new conversation context
    pub fn new(id: &str) -> (c: Self)
        ensures
            c.id@ == id@,
            c.messages@.len() == 0,
            c.metadata@ == Map::<Seq<char>, serde_json::Value>::empty(),
            c.total_tokens == 0,
            c.created_at_ms == c.updated_at_ms,
    {
        let now = wall_clock_millis();
        ConversationContext {
            id: String::from_str(id),
            messages: Vec::new(),
            metadata: StringMap::new(),
            total_tokens: 0,
            created_at_ms: now,
            updated_at_ms: now,
        }
    }

    /// Add a message to the conversation
    pub fn add_message(&mut self, message: UniversalMessage)
        ensures
            final(self).messages@ == old(self).messages@.push(message),
            final(self).id == old(self).id,
            final(self).metadata == old(self).metadata,
            final(self).total_tokens == old(self).total_tokens,
            final(self).created_at_ms == old(self).created_at_ms,
    {
        self.messages.push(message);
        self.updated_at_ms = wall_clock_millis();
    }

    /// Add a user message
    pub fn add_user_message(&mut self, content: &str)
        ensures
            final(self).messages@.len() == old(self).messages@.len() + 1,
            final(self).messages@.drop_last() == old(self).messages@,
            final(self).messages@.last().role == MessageRole::User,
            final(self).messages@.last().content@ == content@,
            final(self).id == old(self).id,
            final(self).metadata == old(self).metadata,
            final(self).total_tokens == old(self).total_tokens,
            final(self).created_at_ms == old(self).created_at_ms,
    {
        let message = UniversalMessage::user(content);
        self.add_message(message);
        assert(self.messages@.drop_last() =~= old(self).messages@);
    }

    /// Add an assistant message with token usage
    pub fn add_assistant_message(&mut self, content: &str, tokens: Option<usize>)
        requires
            tokens matches Some(n) ==> old(self).total_tokens + n <= usize::MAX,
        ensures
            final(self).messages@.len() == old(self).messages@.len() + 1,
            final(self).messages@.drop_last() == old(self).messages@,
            final(self).messages@.last().role == MessageRole::Assistant,
            final(self).messages@.last().content@ == content@,
            final(self).total_tokens == old(self).total_tokens + match tokens {
                Some(n) => n as int,
                None => 0,
            },
            final(self).id == old(self).id,
            final(self).metadata == old(self).metadata,
            final(self).created_at_ms == old(self).created_at_ms,
    {
        let message = UniversalMessage::assistant(content);
        self.add_message(message);
        assert(self.messages@.drop_last() =~= old(self).messages@);
        if let Some(token_count) = tokens {
            self.total_tokens = self.total_tokens + token_count;
        }
    }

    /// Get the last N messages, or all of them where there are fewer
    pub fn last_messages(&self, n: usize) -> (last: &[UniversalMessage])
        ensures
            last@ == self.messages@.skip(
                if n >= self.messages@.len() {
                    0
                } else {
                    self.messages@.len() - n
                },
            ),
    {
        let len = self.messages.len();
        let start = if n >= len {
            0
        } else {
            len - n
        };
        let last = slice_subrange(self.messages.as_slice(), start, len);
        assert(last@ =~= self.messages@.skip(start as int));
        last
    }

    /// Trim the conversation to fit within token limits: while the count is
    /// over the limit the oldest message goes, and the count is estimated anew
    /// at a flat rate for each message kept.
    pub fn trim_to_token_limit(&mut self, max_tokens: usize)
        requires
            old(self).messages@.len() * TOKENS_PER_KEPT_MESSAGE <= usize::MAX,
        ensures
            ({
                let len = old(self).messages@.len();
                let kept = Self::kept_after_trim(
                    len,
                    old(self).total_tokens as nat,
                    max_tokens as nat,
                );
                &&& final(self).messages@ == old(self).messages@.skip(len - kept)
                &&& final(self).total_tokens == if kept == len {
                    old(self).total_tokens as int
                } else {
                    kept * TOKENS_PER_KEPT_MESSAGE
                }
            }),
            final(self).id == old(self).id,
            final(self).metadata == old(self).metadata,
            final(self).created_at_ms == old(self).created_at_ms,
    {
        let ghost before = self.messages@;
        let ghost len = before.len();
        assert(before.skip(0) =~= before);
        while self.total_tokens > max_tokens && self.messages.len() > 0
            invariant
                self.messages@.len() <= len,
                len * TOKENS_PER_KEPT_MESSAGE <= usize::MAX,
                len == before.len(),
                self.messages@ == before.skip(len - self.messages@.len()),
                self.id == old(self).id,
                self.metadata == old(self).metadata,
                self.created_at_ms == old(self).created_at_ms,
                self.messages@.len() == len ==> self.total_tokens == old(self).total_tokens,
                self.messages@.len() < len ==> old(self).total_tokens > max_tokens
                    && self.total_tokens == self.messages@.len() * TOKENS_PER_KEPT_MESSAGE,
                self.messages@.len() + 1 < len ==> (self.messages@.len() + 1)
                    * TOKENS_PER_KEPT_MESSAGE > max_tokens,
            decreases self.messages@.len(),
        {
            let _ = self.messages.remove(0);
            assert(self.messages@ =~= before.skip(len - self.messages@.len()));
            // Recalculate tokens at the flat rate
            self.total_tokens = self.messages.len() * TOKENS_PER_KEPT_MESSAGE;
        }
        self.updated_at_ms = wall_clock_millis();
    }
}

} // verus!
