//! Conversation context: the history of a conversation with its token count,
//! and a cache of contexts that forgets those that have expired.

use vstd::prelude::*;
use vstd::string::*;
use std::collections::VecDeque;
use crate::framework::config::{ContextConfig, StorageBackend};
use crate::framework::error::Error;
use crate::framework::message::{Message, Response};
use crate::string_map::StringMap;
use crate::system::{duration_debug, wall_clock_millis};
use crate::text::{contains_text, decimal, decimal_chars, is_infix, is_prefix, string_of};

verus! {

/// The token estimate of a text: a token for every four bytes of its UTF-8 form.
pub open spec fn token_estimate(text: Seq<char>) -> nat {
    ((vstd::utf8::encode_utf8(text).len() as usize) / 4) as nat
}

/// Message role in conversation
#[derive(Debug, Clone, Copy, PartialEq, Eq, Structural)]
pub enum MessageRole {
    /// System message
    System,
    /// User message
    User,
    /// Assistant message
    Assistant,
}

/// A message in the context history
#[derive(Debug)]
pub struct ContextMessage {
    /// Message role
    pub role: MessageRole,
    /// Message content
    pub content: String,
    /// Timestamp, in milliseconds since the Unix epoch
    pub timestamp_ms: i64,
    /// Optional message ID
    pub message_id: Option<uuid::Uuid>,
}

impl ContextMessage {
    /// The token estimate of the message: a token for every four bytes.
    pub open spec fn spec_estimated_tokens(&self) -> nat {
        token_estimate(self.content@)
    }

    /// Create from a user message
    pub fn from_message(message: &Message) -> (m: Self)
        ensures
            m.role == MessageRole::User,
            m.content == message.content,
            m.timestamp_ms == message.timestamp_ms,
            m.message_id == Some(message.id),
    {
        ContextMessage {
            role: MessageRole::User,
            content: message.content.clone(),
            timestamp_ms: message.timestamp_ms,
            message_id: Some(message.id),
        }
    }

    /// Create from a bot response
    pub fn from_response(response: &Response) -> (m: Self)
        ensures
            m.role == MessageRole::Assistant,
            m.content == response.content,
            m.timestamp_ms == response.timestamp_ms,
            m.message_id == Some(response.id),
    {
        ContextMessage {
            role: MessageRole::Assistant,
            content: response.content.clone(),
            timestamp_ms: response.timestamp_ms,
            message_id: Some(response.id),
        }
    }

    /// Create a system message
    pub fn system(content: &str) -> (m: Self)
        ensures
            m.role == MessageRole::System,
            m.content@ == content@,
            m.message_id is None,
    {
        ContextMessage {
            role: MessageRole::System,
            content: String::from_str(content),
            timestamp_ms: wall_clock_millis(),
            message_id: None,
        }
    }

    /// Estimate token count: one token for every four bytes
    pub fn estimated_tokens(&self) -> (n: usize)
        ensures
            n == self.spec_estimated_tokens(),
    {
        self.content.as_str().len() / 4
    }
}

/// User context information
#[derive(Debug)]
pub struct UserContext {
    /// User ID
    pub id: Option<String>,
    /// User name
    pub name: Option<String>,
    /// User preferences
    pub preferences: StringMap<serde_json::Value>,
    /// User attributes
    pub attributes: StringMap<String>,
}

impl Default for UserContext {
    fn default() -> (u: Self)
        ensures
            u.id is None,
            u.name is None,
            u.preferences@ == Map::<Seq<char>, serde_json::Value>::empty(),
            u.attributes@ == Map::<Seq<char>, String>::empty(),
    {
        UserContext {
            id: None,
            name: None,
            preferences: StringMap::new(),
            attributes: StringMap::new(),
        }
    }
}

/// Context metadata
#[derive(Debug)]
pub struct ContextMetadata {
    /// When the context was created, in milliseconds since the Unix epoch
    pub created_at_ms: i64,
    /// Last activity timestamp, in milliseconds since the Unix epoch
    pub last_activity_ms: i64,
    /// Total message count
    pub message_count: usize,
    /// Total tokens used
    pub total_tokens: usize,
    /// Total cost incurred, in billionths of a dollar
    pub total_cost_nanos: u64,
    /// Custom tags
    pub tags: Vec<String>,
}

impl ContextMetadata {
    /// Metadata of a context made now
    pub fn new() -> (m: Self)
        ensures
            m.created_at_ms == m.last_activity_ms,
            m.message_count == 0,
            m.total_tokens == 0,
            m.total_cost_nanos == 0,
            m.tags@.len() == 0,
    {
        let now = wall_clock_millis();
        ContextMetadata {
            created_at_ms: now,
            last_activity_ms: now,
            message_count: 0,
            total_tokens: 0,
            total_cost_nanos: 0,
            tags: Vec::new(),
        }
    }
}

/// The age in milliseconds at `now_ms` of what was created at
/// `created_at_ms`, zero where the clock went back.
pub open spec fn age_between(created_at_ms: i64, now_ms: i64) -> nat {
    if now_ms <= created_at_ms {
        0
    } else {
        (now_ms - created_at_ms) as nat
    }
}

/// How many messages trimming removes from the front of a history with the
/// given token count: the oldest goes for as long as the count is over the
/// limit and a message is left.
pub open spec fn trimmed_off(history: Seq<ContextMessage>, tokens: nat, max_tokens: nat) -> nat
    decreases history.len(),
{
    if tokens > max_tokens && history.len() > 0 {
        1 + trimmed_off(
            history.drop_first(),
            tokens_without(tokens, history[0]),
            max_tokens,
        )
    } else {
        0
    }
}

/// The token count after trimming.
pub open spec fn tokens_after_trim(
    history: Seq<ContextMessage>,
    tokens: nat,
    max_tokens: nat,
) -> nat
    decreases history.len(),
{
    if tokens > max_tokens && history.len() > 0 {
        tokens_after_trim(history.drop_first(), tokens_without(tokens, history[0]), max_tokens)
    } else {
        tokens
    }
}

/// A token count less the estimate of a message, held at zero.
pub open spec fn tokens_without(tokens: nat, message: ContextMessage) -> nat {
    if tokens >= message.spec_estimated_tokens() {
        (tokens - message.spec_estimated_tokens()) as nat
    } else {
        0
    }
}

/// Trimming removes no more messages than there are, and leaves a history
/// that is within the limit or empty.
pub proof fn lemma_trim_result(history: Seq<ContextMessage>, tokens: nat, max_tokens: nat)
    ensures
        trimmed_off(history, tokens, max_tokens) <= history.len(),
        tokens_after_trim(history, tokens, max_tokens) <= max_tokens || trimmed_off(
            history,
            tokens,
            max_tokens,
        ) == history.len(),
        tokens_after_trim(history, tokens, max_tokens) <= tokens,
    decreases history.len(),
{
    if tokens > max_tokens && history.len() > 0 {
        lemma_trim_result(history.drop_first(), tokens_without(tokens, history[0]), max_tokens);
    }
}

/// Conversation context containing state and history
#[derive(Debug)]
pub struct Context {
    /// Unique context ID
    pub id: String,
    /// Conversation history
    pub history: VecDeque<ContextMessage>,
    /// User information
    pub user: UserContext,
    /// Session variables
    pub variables: StringMap<serde_json::Value>,
    /// Context metadata
    pub metadata: ContextMetadata,
    /// Token count for the context
    pub token_count: usize,
}

impl Context {
    /// Create a new context
    pub fn new(id: &str) -> (c: Self)
        ensures
            c.id@ == id@,
            c.history@.len() == 0,
            c.variables@ == Map::<Seq<char>, serde_json::Value>::empty(),
            c.token_count == 0,
            c.metadata.message_count == 0,
            c.metadata.total_tokens == 0,
            c.metadata.total_cost_nanos == 0,
            c.metadata.created_at_ms == c.metadata.last_activity_ms,
    {
        Context {
            id: String::from_str(id),
            history: VecDeque::new(),
            user: UserContext::default(),
            variables: StringMap::new(),
            metadata: ContextMetadata::new(),
            token_count: 0,
        }
    }

    /// Add an entry to the history and count it.
    fn record(&mut self, entry: ContextMessage)
        requires
            old(self).token_count + entry.spec_estimated_tokens() <= usize::MAX,
            old(self).metadata.message_count < usize::MAX,
        ensures
            final(self).history@ == old(self).history@.push(entry),
            final(self).token_count == old(self).token_count + entry.spec_estimated_tokens(),
            final(self).metadata.message_count == old(self).metadata.message_count + 1,
            final(self).metadata.total_tokens == old(self).metadata.total_tokens,
            final(self).metadata.total_cost_nanos == old(self).metadata.total_cost_nanos,
            final(self).metadata.created_at_ms == old(self).metadata.created_at_ms,
            final(self).metadata.tags == old(self).metadata.tags,
            final(self).id == old(self).id,
            final(self).user == old(self).user,
            final(self).variables == old(self).variables,
    {
        self.token_count = self.token_count + entry.estimated_tokens();
        self.history.push_back(entry);
        self.metadata.last_activity_ms = wall_clock_millis();
        self.metadata.message_count = self.metadata.message_count + 1;
    }

    /// Add a message to the history
    pub fn add_message(&mut self, message: &Message)
        requires
            old(self).token_count + token_estimate(message.content@) <= usize::MAX,
            old(self).metadata.message_count < usize::MAX,
        ensures
            final(self).history@.len() == old(self).history@.len() + 1,
            final(self).history@.drop_last() == old(self).history@,
            final(self).history@.last().role == MessageRole::User,
            final(self).history@.last().content == message.content,
            final(self).token_count == old(self).token_count
                + token_estimate(message.content@),
            final(self).metadata.message_count == old(self).metadata.message_count + 1,
            final(self).metadata.total_tokens == old(self).metadata.total_tokens,
            final(self).metadata.total_cost_nanos == old(self).metadata.total_cost_nanos,
            final(self).id == old(self).id,
            final(self).variables == old(self).variables,
    {
        let entry = ContextMessage::from_message(message);
        self.record(entry);
        assert(self.history@.drop_last() =~= old(self).history@);
    }

    /// Add a response to the history, with the tokens and the cost that it reports
    pub fn add_response(&mut self, response: &Response)
        requires
            old(self).token_count + token_estimate(response.content@)
                <= usize::MAX,
            old(self).metadata.message_count < usize::MAX,
            response.usage matches Some(u) ==> old(self).metadata.total_tokens
                + u.spec_input_tokens() + u.spec_output_tokens() <= usize::MAX
                && old(self).metadata.total_cost_nanos + u.spec_cost_nanos() <= u64::MAX,
        ensures
            final(self).history@.len() == old(self).history@.len() + 1,
            final(self).history@.drop_last() == old(self).history@,
            final(self).history@.last().role == MessageRole::Assistant,
            final(self).history@.last().content == response.content,
            final(self).token_count == old(self).token_count
                + token_estimate(response.content@),
            final(self).metadata.message_count == old(self).metadata.message_count + 1,
            final(self).metadata.total_tokens == old(self).metadata.total_tokens + match response.usage {
                Some(u) => u.spec_input_tokens() + u.spec_output_tokens(),
                None => 0,
            },
            final(self).metadata.total_cost_nanos == old(self).metadata.total_cost_nanos + match response.usage {
                Some(u) => u.spec_cost_nanos(),
                None => 0,
            },
            final(self).id == old(self).id,
            final(self).variables == old(self).variables,
    {
        let entry = ContextMessage::from_response(response);
        self.record(entry);
        assert(self.history@.drop_last() =~= old(self).history@);
        match &response.usage {
            Some(usage) => {
                self.metadata.total_tokens = self.metadata.total_tokens + usage.total_tokens();
                self.metadata.total_cost_nanos = self.metadata.total_cost_nanos
                    + usage.estimated_cost_nanos();
            },
            None => {},
        }
    }

    /// Trim history to fit within token limit: the oldest message goes for as
    /// long as the count is over the limit
    pub fn trim_to_token_limit(&mut self, max_tokens: usize)
        ensures
            final(self).history@ == old(self).history@.skip(
                trimmed_off(old(self).history@, old(self).token_count as nat, max_tokens as nat) as int,
            ),
            final(self).token_count == tokens_after_trim(
                old(self).history@,
                old(self).token_count as nat,
                max_tokens as nat,
            ),
            final(self).token_count <= max_tokens || final(self).history@.len() == 0,
            final(self).id == old(self).id,
            final(self).variables == old(self).variables,
            final(self).metadata == old(self).metadata,
            final(self).user == old(self).user,
    {
        let ghost start = self.history@;
        let ghost start_tokens = self.token_count as nat;
        let ghost mut removed: nat = 0;
        assert(start.skip(0) =~= start);
        proof {
            lemma_trim_result(start, start_tokens, max_tokens as nat);
        }
        while self.token_count > max_tokens && self.history.len() > 0
            invariant
                removed <= start.len(),
                self.history@ == start.skip(removed as int),
                trimmed_off(start, start_tokens, max_tokens as nat) == removed + trimmed_off(
                    self.history@,
                    self.token_count as nat,
                    max_tokens as nat,
                ),
                tokens_after_trim(start, start_tokens, max_tokens as nat) == tokens_after_trim(
                    self.history@,
                    self.token_count as nat,
                    max_tokens as nat,
                ),
                self.id == old(self).id,
                self.variables == old(self).variables,
                self.metadata == old(self).metadata,
                self.user == old(self).user,
            decreases self.history@.len(),
        {
            let ghost before = self.history@;
            match self.history.pop_front() {
                Some(oldest) => {
                    let estimate = oldest.estimated_tokens();
                    self.token_count = if self.token_count >= estimate {
                        self.token_count - estimate
                    } else {
                        0
                    };
                    proof {
                        assert(oldest == before[0]);
                        assert(self.history@ =~= before.drop_first());
                        removed = removed + 1;
                        assert(self.history@ =~= start.skip(removed as int));
                    }
                },
                None => {},
            }
        }
    }

    /// Get a variable value
    pub fn get_variable(&self, key: &str) -> (v: Option<&serde_json::Value>)
        ensures
            match v {
                Some(x) => self.variables@.contains_key(key@) && *x == self.variables@[key@],
                None => !self.variables@.contains_key(key@),
            },
    {
        self.variables.get(key)
    }

    /// Set a variable value
    pub fn set_variable(&mut self, key: &str, value: serde_json::Value)
        ensures
            final(self).variables@ == old(self).variables@.insert(key@, value),
            final(self).history == old(self).history,
            final(self).token_count == old(self).token_count,
            final(self).id == old(self).id,
            final(self).metadata == old(self).metadata,
    {
        self.variables.insert(String::from_str(key), value);
    }

    /// Clear all history
    pub fn clear_history(&mut self)
        ensures
            final(self).history@.len() == 0,
            final(self).token_count == 0,
            final(self).metadata.message_count == 0,
            final(self).metadata.total_tokens == old(self).metadata.total_tokens,
            final(self).metadata.created_at_ms == old(self).metadata.created_at_ms,
            final(self).id == old(self).id,
            final(self).variables == old(self).variables,
    {
        self.history.clear();
        self.token_count = 0;
        self.metadata.message_count = 0;
    }

    /// Get the age of the context at `now_ms`, in milliseconds
    pub fn age_at(&self, now_ms: i64) -> (age: u64)
        ensures
            age == age_between(self.metadata.created_at_ms, now_ms),
    {
        if now_ms <= self.metadata.created_at_ms {
            0
        } else {
            (now_ms as i128 - self.metadata.created_at_ms as i128) as u64
        }
    }

    /// Get the age of the context, in milliseconds
    pub fn age(&self) -> (age: u64)
        ensures
            exists|now_ms: i64| age == #[trigger] age_between(self.metadata.created_at_ms, now_ms),
    {
        let now = wall_clock_millis();
        let age = self.age_at(now);
        assert(age == age_between(self.metadata.created_at_ms, now));
        age
    }

    /// Check if the context is expired at `now_ms`: it is older than the time
    /// to live
    pub fn is_expired_at(&self, ttl_ms: u64, now_ms: i64) -> (b: bool)
        ensures
            b == (age_between(self.metadata.created_at_ms, now_ms) > ttl_ms),
    {
        self.age_at(now_ms) > ttl_ms
    }

    /// Check if the context is expired
    pub fn is_expired(&self, ttl_ms: u64) -> (b: bool)
        ensures
            exists|now_ms: i64|
                b == (#[trigger] age_between(self.metadata.created_at_ms, now_ms) > ttl_ms),
    {
        let now = wall_clock_millis();
        let b = self.is_expired_at(ttl_ms, now);
        assert(b == (age_between(self.metadata.created_at_ms, now) > ttl_ms));
        b
    }

    /// What a summary says before it comes to the age.
    pub open spec fn summary_head(&self) -> Seq<char> {
        "Context "@ + self.id@ + " - Messages: "@ + decimal(self.metadata.message_count as nat)
            + ", Tokens: "@ + decimal(self.token_count as nat) + ", Age: "@
    }

    /// Get a summary of the context: its identifier, its counts and its age
    pub fn summary(&self) -> (s: String)
        ensures
            is_prefix(self.summary_head(), s@),
    {
        let mut s = String::from_str("Context ");
        s.append(self.id.as_str());
        s.append(" - Messages: ");
        let messages = string_of(&decimal_chars(self.metadata.message_count));
        s.append(messages.as_str());
        s.append(", Tokens: ");
        let tokens = string_of(&decimal_chars(self.token_count));
        s.append(tokens.as_str());
        s.append(", Age: ");
        let ghost head = s@;
        let age = std::time::Duration::from_millis(self.age());
        let shown = duration_debug(&age);
        s.append(shown.as_str());
        assert(s@.subrange(0, head.len() as int) =~= head);
        s
    }
}

/// Statistics about managed contexts
#[derive(Debug, Clone, Copy, PartialEq, Eq, Structural)]
pub struct ContextStats {
    /// Total number of contexts
    pub total_contexts: usize,
    /// Total tokens across all contexts
    pub total_tokens: usize,
    /// Total messages across all contexts
    pub total_messages: usize,
    /// Number of contexts in cache
    pub cache_size: usize,
}

/// The tokens of the contexts, added up.
pub open spec fn sum_tokens(contexts: Seq<Context>) -> nat
    decreases contexts.len(),
{
    if contexts.len() == 0 {
        0
    } else {
        sum_tokens(contexts.drop_last()) + contexts.last().token_count as nat
    }
}

/// The message counts of the contexts, added up.
pub open spec fn sum_messages(contexts: Seq<Context>) -> nat
    decreases contexts.len(),
{
    if contexts.len() == 0 {
        0
    } else {
        sum_messages(contexts.drop_last()) + contexts.last().metadata.message_count as nat
    }
}

/// The sums over the first contexts are at most the sums over all.
pub proof fn lemma_sums_of_prefix(contexts: Seq<Context>, n: int)
    requires
        0 <= n <= contexts.len(),
    ensures
        sum_tokens(contexts.take(n)) <= sum_tokens(contexts),
        sum_messages(contexts.take(n)) <= sum_messages(contexts),
    decreases contexts.len(),
{
    if n == contexts.len() {
        assert(contexts.take(n) =~= contexts);
    } else {
        lemma_sums_of_prefix(contexts.drop_last(), n);
        assert(contexts.drop_last().take(n) =~= contexts.take(n));
    }
}

/// In-memory context store: contexts under their keys, each with the moment
/// at which it expires
#[derive(Debug)]
pub struct MemoryContextStore {
    data: StringMap<(Context, i64)>,
}

impl View for MemoryContextStore {
    type V = Map<Seq<char>, (Context, i64)>;

    closed spec fn view(&self) -> Map<Seq<char>, (Context, i64)> {
        self.data@
    }
}

impl MemoryContextStore {
    /// The keys in the order in which they first arrived.
    pub closed spec fn spec_keys(&self) -> Seq<Seq<char>> {
        self.data.spec_keys()
    }

    /// An empty store
    pub fn new() -> (s: Self)
        ensures
            s@ == Map::<Seq<char>, (Context, i64)>::empty(),
    {
        MemoryContextStore { data: StringMap::new() }
    }

    /// Get a context by ID
    pub fn get(&self, key: &str) -> (r: Option<&Context>)
        ensures
            match r {
                Some(c) => self@.contains_key(key@) && *c == self@[key@].0,
                None => !self@.contains_key(key@),
            },
    {
        match self.data.get(key) {
            Some(entry) => Some(&entry.0),
            None => None,
        }
    }

    /// Set a context that expires `ttl_ms` after `now_ms`
    pub fn set(&mut self, key: &str, context: Context, ttl_ms: u64, now_ms: i64)
        ensures
            final(self)@ == old(self)@.insert(
                key@,
                (
                    context,
                    if now_ms + ttl_ms > i64::MAX {
                        i64::MAX
                    } else {
                        (now_ms + ttl_ms) as i64
                    },
                ),
            ),
    {
        let expiry: i128 = now_ms as i128 + ttl_ms as i128;
        let expiry: i64 = if expiry > i64::MAX as i128 {
            i64::MAX
        } else {
            expiry as i64
        };
        self.data.insert(String::from_str(key), (context, expiry));
    }

    /// Delete a context
    pub fn delete(&mut self, key: &str)
        ensures
            final(self)@ == old(self)@.remove(key@),
    {
        let _ = self.data.remove(key);
    }

    /// List the keys that hold the pattern, in the order in which they arrived
    pub fn list_keys(&self, pattern: &str) -> (keys: Vec<String>)
        ensures
            forall|i: int|
                0 <= i < keys@.len() ==> self@.contains_key((#[trigger] keys@[i])@) && is_infix(
                    pattern@,
                    keys@[i]@,
                ),
            forall|k: Seq<char>|
                self@.contains_key(k) && is_infix(pattern@, k) ==> exists|i: int|
                    0 <= i < keys@.len() && (#[trigger] keys@[i])@ == k,
    {
        let n = self.data.len();
        let mut keys: Vec<String> = Vec::new();
        let mut i: usize = 0;
        while i < n
            invariant
                i <= n,
                n == self.data.spec_keys().len(),
                self.data.listed(),
                forall|j: int|
                    0 <= j < keys@.len() ==> self.data@.contains_key((#[trigger] keys@[j])@)
                        && is_infix(pattern@, keys@[j]@),
                forall|idx: int|
                    0 <= idx < i && is_infix(pattern@, #[trigger] self.data.spec_keys()[idx])
                        ==> exists|j: int| 0 <= j < keys@.len() && (#[trigger] keys@[j])@
                        == self.data.spec_keys()[idx],
            decreases n - i,
        {
            let key = self.data.key_at_index(i);
            if contains_text(key.as_str(), pattern) {
                let ghost before = keys@;
                keys.push(key.clone());
                proof {
                    assert(self.data@.contains_key(self.data.spec_keys()[i as int]));
                    assert forall|idx: int|
                        0 <= idx < i + 1 && is_infix(
                            pattern@,
                            #[trigger] self.data.spec_keys()[idx],
                        ) implies exists|j: int|
                        0 <= j < keys@.len() && (#[trigger] keys@[j])@
                            == self.data.spec_keys()[idx] by {
                        if idx < i {
                            let j = choose|j: int|
                                0 <= j < before.len() && (#[trigger] before[j])@
                                    == self.data.spec_keys()[idx];
                            assert(keys@[j]@ == self.data.spec_keys()[idx]);
                        } else {
                            assert(keys@[keys@.len() - 1]@ == self.data.spec_keys()[idx]);
                        }
                    }
                }
            }
            i = i + 1;
        }
        proof {
            assert forall|k: Seq<char>|
                self@.contains_key(k) && is_infix(pattern@, k) implies exists|i: int|
                0 <= i < keys@.len() && (#[trigger] keys@[i])@ == k by {
                let idx = choose|idx: int|
                    0 <= idx < self.data.spec_keys().len() && #[trigger] self.data.spec_keys()[idx]
                        == k;
                assert(is_infix(pattern@, self.data.spec_keys()[idx]));
            }
        }
        keys
    }
}

/// Context manager for handling multiple conversation contexts: a cache of
/// contexts under their identifiers
#[derive(Debug)]
pub struct ContextManager {
    config: ContextConfig,
    cache: StringMap<Context>,
}

impl View for ContextManager {
    type V = Map<Seq<char>, Context>;

    closed spec fn view(&self) -> Map<Seq<char>, Context> {
        self.cache@
    }
}

impl ContextManager {
    /// The configuration that the manager was made with.
    pub closed spec fn spec_config(&self) -> ContextConfig {
        self.config
    }

    /// How long a context lives, in milliseconds.
    pub open spec fn spec_ttl_ms(&self) -> u64 {
        self.spec_config().context_ttl_ms
    }

    /// The number of tokens that a context may hold.
    pub open spec fn spec_max_tokens(&self) -> usize {
        self.spec_config().max_context_tokens
    }

    /// Whether the cache holds a context under the key that is still alive at `now_ms`.
    pub open spec fn has_live(&self, id: Seq<char>, now_ms: i64) -> bool {
        self@.contains_key(id) && age_between(self@[id].metadata.created_at_ms, now_ms)
            <= self.spec_ttl_ms()
    }

    /// Create a new context manager. Only the in-memory backend exists.
    pub fn new(config: ContextConfig) -> (r: Result<Self, Error>)
        ensures
            r is Ok <==> config.storage_backend is Memory,
            r matches Ok(m) ==> m@ == Map::<Seq<char>, Context>::empty() && m.spec_contexts().len()
                == 0 && m.spec_config() == config,
            r matches Err(e) ==> e is Other && e.spec_detail() == Some(
                match config.storage_backend {
                    StorageBackend::Redis { .. } => "Redis store not yet implemented"@,
                    StorageBackend::Postgres { .. } => "Postgres store not yet implemented"@,
                    _ => "SQLite store not yet implemented"@,
                },
            ),
    {
        match &config.storage_backend {
            StorageBackend::Memory => {},
            StorageBackend::Redis { .. } => {
                return Err(Error::new("Redis store not yet implemented"));
            },
            StorageBackend::Postgres { .. } => {
                return Err(Error::new("Postgres store not yet implemented"));
            },
            StorageBackend::Sqlite { .. } => {
                return Err(Error::new("SQLite store not yet implemented"));
            },
        }
        Ok(ContextManager { config, cache: StringMap::new() })
    }

    /// Get the context under the key as it is at `now_ms`, making a new one
    /// where there is none or where the one that is there has expired
    pub fn get_or_create_at(&mut self, id: &str, now_ms: i64) -> (c: &Context)
        ensures
            final(self)@.contains_key(id@),
            final(self).spec_contexts().len() == old(self).spec_contexts().len() + (if old(self)@.contains_key(id@) {
                0int
            } else {
                1int
            }),
            *c == final(self)@[id@],
            old(self).has_live(id@, now_ms) ==> final(self)@ == old(self)@,
            !old(self).has_live(id@, now_ms) ==> c.id@ == id@ && c.history@.len() == 0
                && c.token_count == 0 && final(self)@.dom() == old(self)@.dom().insert(id@)
                && forall|k: Seq<char>|
                k != id@ && old(self)@.contains_key(k) ==> final(self)@[k] == old(self)@[k],
            final(self).spec_config() == old(self).spec_config(),
    {
        let live = match self.cache.get(id) {
            Some(context) => !context.is_expired_at(self.config.context_ttl_ms, now_ms),
            None => false,
        };
        if !live {
            // Expired or absent: a fresh context takes the place
            let context = Context::new(id);
            self.cache.insert(String::from_str(id), context);
        }
        match self.cache.get(id) {
            Some(context) => context,
            None => vstd::pervasive::unreached(),
        }
    }

    /// Get or create a context
    pub fn get_or_create(&mut self, id: &str) -> (c: &Context)
        ensures
            final(self)@.contains_key(id@),
            final(self).spec_contexts().len() == old(self).spec_contexts().len() + (if old(self)@.contains_key(id@) {
                0int
            } else {
                1int
            }),
            *c == final(self)@[id@],
            final(self).spec_config() == old(self).spec_config(),
    {
        let now = wall_clock_millis();
        self.get_or_create_at(id, now)
    }

    /// Update a context: it is trimmed to the token limit and put into the cache
    pub fn update(&mut self, id: &str, context: Context)
        ensures
            final(self)@.contains_key(id@),
            final(self).spec_contexts().len() == old(self).spec_contexts().len() + (if old(self)@.contains_key(id@) {
                0int
            } else {
                1int
            }),
            final(self)@.dom() == old(self)@.dom().insert(id@),
            final(self)@[id@].history@ == context.history@.skip(
                trimmed_off(
                    context.history@,
                    context.token_count as nat,
                    old(self).spec_max_tokens() as nat,
                ) as int,
            ),
            final(self)@[id@].token_count == tokens_after_trim(
                context.history@,
                context.token_count as nat,
                old(self).spec_max_tokens() as nat,
            ),
            forall|k: Seq<char>|
                k != id@ && old(self)@.contains_key(k) ==> final(self)@[k] == old(self)@[k],
            final(self).spec_config() == old(self).spec_config(),
    {
        let mut context = context;
        // Trim to token limit
        context.trim_to_token_limit(self.config.max_context_tokens);
        // Update cache
        self.cache.insert(String::from_str(id), context);
    }

    /// Delete a context
    pub fn delete(&mut self, id: &str)
        ensures
            final(self)@ == old(self)@.remove(id@),
            final(self).spec_contexts().len() + (if old(self)@.contains_key(id@) {
                1int
            } else {
                0int
            }) == old(self).spec_contexts().len(),
            final(self).spec_config() == old(self).spec_config(),
    {
        let _ = self.cache.remove(id);
    }

    /// Whether `after` is this manager once the contexts that had expired at
    /// `now_ms` were cleared: the live contexts stay as they are, the others
    /// are gone, and the settings are the same.
    pub open spec fn cleared_to(&self, after: ContextManager, now_ms: i64) -> bool {
        &&& forall|k: Seq<char>| after@.contains_key(k) <==> self.has_live(k, now_ms)
        &&& forall|k: Seq<char>| after@.contains_key(k) ==> after@[k] == self@[k]
        &&& after.spec_config() == self.spec_config()
    }

    /// Clear the contexts that have expired at `now_ms`, and say how many there were
    pub fn clear_expired_at(&mut self, now_ms: i64) -> (removed: usize)
        ensures
            old(self).cleared_to(*final(self), now_ms),
            removed + final(self).spec_contexts().len() == old(self).spec_contexts().len(),
    {
        let n = self.cache.len();
        let ttl = self.config.context_ttl_ms;
        let mut expired: Vec<String> = Vec::new();
        let ghost mut picked: Seq<int> = Seq::empty();
        let mut i: usize = 0;
        while i < n
            invariant
                i <= n,
                n == self.cache.spec_keys().len(),
                self.cache.listed(),
                picked.len() == expired@.len(),
                expired@.len() <= i,
                forall|j: int|
                    0 <= j < picked.len() ==> 0 <= #[trigger] picked[j] < i && expired@[j]@
                        == self.cache.spec_keys()[picked[j]],
                forall|a: int, b: int| 0 <= a < b < picked.len() ==> picked[a] < picked[b],
                self.cache@ == old(self).cache@,
                self.config == old(self).config,
                ttl == self.config.context_ttl_ms,
                forall|j: int|
                    0 <= j < expired@.len() ==> !old(self).has_live((#[trigger] expired@[j])@, now_ms),
                forall|idx: int|
                    0 <= idx < i && !old(self).has_live(#[trigger] self.cache.spec_keys()[idx], now_ms)
                        ==> exists|j: int| 0 <= j < expired@.len() && (#[trigger] expired@[j])@
                        == self.cache.spec_keys()[idx],
            decreases n - i,
        {
            let key = self.cache.key_at_index(i);
            let context = self.cache.value_at_index(i);
            proof {
                assert(self.cache@.contains_key(self.cache.spec_keys()[i as int]));
                assert(self.cache@[self.cache.spec_keys()[i as int]] == self.cache.spec_values()[i as int]);
            }
            if context.is_expired_at(ttl, now_ms) {
                let ghost before = expired@;
                expired.push(key.clone());
                proof {
                    picked = picked.push(i as int);
                    assert forall|idx: int|
                        0 <= idx < i + 1 && !old(self).has_live(
                            #[trigger] self.cache.spec_keys()[idx],
                            now_ms,
                        ) implies exists|j: int|
                        0 <= j < expired@.len() && (#[trigger] expired@[j])@
                            == self.cache.spec_keys()[idx] by {
                        if idx < i {
                            let j = choose|j: int|
                                0 <= j < before.len() && (#[trigger] before[j])@
                                    == self.cache.spec_keys()[idx];
                            assert(expired@[j]@ == self.cache.spec_keys()[idx]);
                        } else {
                            assert(expired@[expired@.len() - 1]@ == self.cache.spec_keys()[idx]);
                        }
                    }
                }
            }
            i = i + 1;
        }
        proof {
            assert forall|k: Seq<char>|
                old(self)@.contains_key(k) && !old(self).has_live(k, now_ms) implies exists|j: int|
                0 <= j < expired@.len() && (#[trigger] expired@[j])@ == k by {
                let idx = choose|idx: int|
                    0 <= idx < self.cache.spec_keys().len() && #[trigger] self.cache.spec_keys()[idx]
                        == k;
                assert(!old(self).has_live(self.cache.spec_keys()[idx], now_ms));
            }
        }
        proof {
            assert forall|a: int, b: int| 0 <= a < b < expired@.len() implies (
            #[trigger] expired@[a])@ != (#[trigger] expired@[b])@ by {
                assert(picked[a] < picked[b]);
                assert(self.cache.spec_keys()[picked[a]] != self.cache.spec_keys()[picked[b]]);
            }
            assert forall|d: int| 0 <= d < expired@.len() implies old(self).cache@.contains_key(
                (#[trigger] expired@[d])@,
            ) by {
                assert(self.cache@.contains_key(self.cache.spec_keys()[picked[d]]));
            }
        }
        let mut j: usize = 0;
        while j < expired.len()
            invariant
                j <= expired.len(),
                expired@.len() <= n,
                self.config == old(self).config,
                self.cache.listed(),
                self.cache.spec_keys().len() + j == n,
                forall|a: int, b: int|
                    0 <= a < b < expired@.len() ==> (#[trigger] expired@[a])@ != (
                    #[trigger] expired@[b])@,
                forall|d: int|
                    0 <= d < expired@.len() ==> old(self).cache@.contains_key(
                        (#[trigger] expired@[d])@,
                    ),
                forall|k: Seq<char>|
                    self.cache@.contains_key(k) <==> old(self).cache@.contains_key(k) && forall|
                        d: int,
                    | 0 <= d < j ==> (#[trigger] expired@[d])@ != k,
                forall|k: Seq<char>|
                    self.cache@.contains_key(k) ==> self.cache@[k] == old(self).cache@[k],
            decreases expired.len() - j,
        {
            let ghost before = self.cache@;
            proof {
                assert(old(self).cache@.contains_key(expired@[j as int]@));
                assert forall|d: int| 0 <= d < j implies (#[trigger] expired@[d])@
                    != expired@[j as int]@ by {}
                assert(before.contains_key(expired@[j as int]@));
            }
            let _ = self.cache.remove(expired[j].as_str());
            proof {
                assert forall|k: Seq<char>|
                    self.cache@.contains_key(k) <==> old(self).cache@.contains_key(k) && forall|
                        d: int,
                    | 0 <= d < j + 1 ==> (#[trigger] expired@[d])@ != k by {
                    if self.cache@.contains_key(k) {
                        assert(before.contains_key(k));
                        assert(k != expired@[j as int]@);
                        assert forall|d: int| 0 <= d < j + 1 implies (#[trigger] expired@[d])@
                            != k by {
                            if d < j {
                            }
                        }
                    }
                    if old(self).cache@.contains_key(k) && (forall|d: int|
                        0 <= d < j + 1 ==> (#[trigger] expired@[d])@ != k) {
                        assert(expired@[j as int]@ != k);
                        assert(forall|d: int| 0 <= d < j ==> (#[trigger] expired@[d])@ != k);
                        assert(before.contains_key(k));
                    }
                }
            }
            j = j + 1;
        }
        proof {
            assert forall|k: Seq<char>|
                self@.contains_key(k) <==> old(self).has_live(k, now_ms) by {
                if old(self)@.contains_key(k) && !old(self).has_live(k, now_ms) {
                    let d = choose|d: int| 0 <= d < expired@.len() && (#[trigger] expired@[d])@ == k;
                    assert(expired@[d]@ == k);
                }
                if old(self).has_live(k, now_ms) {
                    assert forall|d: int| 0 <= d < expired@.len() implies (#[trigger] expired@[d])@
                        != k by {
                        assert(!old(self).has_live(expired@[d]@, now_ms));
                    }
                }
            }
        }
        expired.len()
    }

    /// Clear the contexts that have expired by now, and say how many there
    /// were. What has expired depends on the clock and on nothing else.
    pub fn clear_expired(&mut self) -> (removed: usize)
        ensures
            exists|now_ms: i64| #[trigger] old(self).cleared_to(*final(self), now_ms),
            removed + final(self).spec_contexts().len() == old(self).spec_contexts().len(),
            forall|k: Seq<char>| #[trigger]
                final(self)@.contains_key(k) ==> old(self)@.contains_key(k) && final(self)@[k]
                    == old(self)@[k],
            final(self).spec_config() == old(self).spec_config(),
    {
        let now = wall_clock_millis();
        let ghost before = *self;
        let removed = self.clear_expired_at(now);
        proof {
            assert forall|k: Seq<char>| #[trigger] self@.contains_key(k) implies before@.contains_key(
                k,
            ) && self@[k] == before@[k] by {
                assert(before.has_live(k, now));
            }
            assert(before.cleared_to(*self, now));
        }
        removed
    }

    /// The contexts in the cache, in the order in which their keys arrived.
    pub closed spec fn spec_contexts(&self) -> Seq<Context> {
        self.cache.spec_values()
    }

    /// Get statistics about managed contexts
    pub fn stats(&self) -> (s: ContextStats)
        requires
            sum_tokens(self.spec_contexts()) <= usize::MAX,
            sum_messages(self.spec_contexts()) <= usize::MAX,
        ensures
            s.total_contexts == self.spec_contexts().len(),
            s.cache_size == self.spec_contexts().len(),
            s.total_tokens == sum_tokens(self.spec_contexts()),
            s.total_messages == sum_messages(self.spec_contexts()),
    {
        let total = self.cache.len();
        let mut total_tokens: usize = 0;
        let mut total_messages: usize = 0;
        let mut i: usize = 0;
        while i < total
            invariant
                i <= total,
                total == self.cache.spec_keys().len(),
                self.cache.listed(),
                total_tokens == sum_tokens(self.spec_contexts().take(i as int)),
                total_messages == sum_messages(self.spec_contexts().take(i as int)),
                sum_tokens(self.spec_contexts()) <= usize::MAX,
                sum_messages(self.spec_contexts()) <= usize::MAX,
            decreases total - i,
        {
            let context = self.cache.value_at_index(i);
            proof {
                lemma_sums_of_prefix(self.spec_contexts(), i + 1);
                assert(self.spec_contexts().take(i + 1).drop_last() =~= self.spec_contexts().take(
                    i as int,
                ));
            }
            total_tokens = total_tokens + context.token_count;
            total_messages = total_messages + context.metadata.message_count;
            i = i + 1;
        }
        assert(self.spec_contexts().take(total as int) =~= self.spec_contexts());
        ContextStats {
            total_contexts: total,
            total_tokens,
            total_messages,
            cache_size: total,
        }
    }
}

} // verus!
