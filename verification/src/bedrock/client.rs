//! The client interface, a test double for it, and the decisions that one
//! attempt at the upstream takes: which client to use, how to read a failure,
//! what a response is worth.

use vstd::prelude::*;
use vstd::string::*;
use crate::bedrock::config::GenerationConfig;
use crate::bedrock::error::BedrockError;
use crate::bedrock::message::{GenerationResponse, StreamChunk, TokenUsage, UniversalMessage};
use crate::bedrock::metrics::HealthStatus;
use crate::string_map::StringMap;
use crate::system::{uuid_number, wall_clock_millis};

verus! {

/// The cost of the given tokens, in billionths of a dollar, at the given
/// prices of a thousand input and a thousand output tokens, held at the
/// largest amount that can be represented.
pub open spec fn cost_of(
    input_tokens: nat,
    output_tokens: nat,
    input_rate: nat,
    output_rate: nat,
) -> nat {
    let cost = input_tokens * input_rate / 1000 + output_tokens * output_rate / 1000;
    if cost > u64::MAX {
        u64::MAX as nat
    } else {
        cost
    }
}

/// Calculate estimated cost for token usage at the given prices of a thousand
/// input and a thousand output tokens
pub fn calculate_cost(
    input_tokens: usize,
    output_tokens: usize,
    input_rate: u64,
    output_rate: u64,
) -> (cost: u64)
    ensures
        cost == cost_of(
            input_tokens as nat,
            output_tokens as nat,
            input_rate as nat,
            output_rate as nat,
        ),
{
    assert((input_tokens as u128) * (input_rate as u128) <= 0xFFFF_FFFF_FFFF_FFFF
        * 0xFFFF_FFFF_FFFF_FFFF) by (nonlinear_arith)
        requires
            input_tokens <= 0xFFFF_FFFF_FFFF_FFFF,
            input_rate <= 0xFFFF_FFFF_FFFF_FFFF,
    ;
    assert((output_tokens as u128) * (output_rate as u128) <= 0xFFFF_FFFF_FFFF_FFFF
        * 0xFFFF_FFFF_FFFF_FFFF) by (nonlinear_arith)
        requires
            output_tokens <= 0xFFFF_FFFF_FFFF_FFFF,
            output_rate <= 0xFFFF_FFFF_FFFF_FFFF,
    ;
    let input_cost: u128 = (input_tokens as u128) * (input_rate as u128) / 1000;
    let output_cost: u128 = (output_tokens as u128) * (output_rate as u128) / 1000;
    let cost: u128 = input_cost + output_cost;
    if cost > u64::MAX as u128 {
        u64::MAX
    } else {
        cost as u64
    }
}

/// The client that a request with the given number is sent through: the
/// number, cut to the machine's word, modulo the size of the pool.
pub fn select_client(request_number: u128, pool_size: usize) -> (index: usize)
    requires
        pool_size > 0,
    ensures
        index == ((request_number as int) % (usize::MAX as int + 1)) % (pool_size as int),
        index < pool_size,
{
    let word: u128 = request_number % (usize::MAX as u128 + 1);
    (word as usize) % pool_size
}

/// The client that a request with the given identifier is sent through: the
/// identifier's number picks it as `select_client` does, so one request keeps
/// its client and requests with different numbers are spread over the pool.
pub fn client_for_request(request_id: &uuid::Uuid, pool_size: usize) -> (index: usize)
    requires
        pool_size > 0,
    ensures
        index == ((uuid_number(*request_id) as int) % (usize::MAX as int + 1)) % (
        pool_size as int),
        index < pool_size,
{
    select_client(request_id.as_u128(), pool_size)
}

/// A failed attempt, with the verdict on whether it may pass.
#[derive(Debug)]
pub enum AttemptError {
    /// The failure may pass; another attempt is worth making
    Transient(BedrockError),
    /// The failure stays; no further attempt will help
    Permanent(BedrockError),
}

impl AttemptError {
    /// The failure itself.
    pub open spec fn spec_error(&self) -> BedrockError {
        match self {
            AttemptError::Transient(e) => *e,
            AttemptError::Permanent(e) => *e,
        }
    }

    /// The failure itself.
    pub fn into_error(self) -> (e: BedrockError)
        ensures
            e == self.spec_error(),
    {
        match self {
            AttemptError::Transient(e) => e,
            AttemptError::Permanent(e) => e,
        }
    }
}

/// Read the failure of a send: what the service itself reported may pass,
/// anything else stays.
pub fn classify_send_failure(is_service_error: bool, message: String) -> (r: AttemptError)
    ensures
        r == (if is_service_error {
            AttemptError::Transient(BedrockError::ServiceError(message))
        } else {
            AttemptError::Permanent(BedrockError::RequestFailed(message))
        }),
{
    if is_service_error {
        AttemptError::Transient(BedrockError::ServiceError(message))
    } else {
        AttemptError::Permanent(BedrockError::RequestFailed(message))
    }
}

/// What the service sent back for one request, as plain values.
#[derive(Debug, Clone)]
pub struct RawResponse {
    /// The text of the first content block, where it is text
    pub text: Option<String>,
    /// Input and output tokens, where the service reported them
    pub tokens: Option<(usize, usize)>,
    /// Why the generation stopped, where the service said so
    pub stop_reason: Option<String>,
}

/// Turn what the service sent back into a response. A reply without text is a
/// failure that stays. Usage is priced at the given rates, and a missing stop
/// reason reads `unknown`.
pub fn build_response(
    id: uuid::Uuid,
    model: &str,
    raw: RawResponse,
    rates: (u64, u64),
    timestamp_ms: i64,
) -> (r: Result<GenerationResponse, AttemptError>)
    requires
        raw.tokens matches Some(t) ==> t.0 + t.1 <= usize::MAX,
    ensures
        r is Ok <==> raw.text is Some,
        r matches Err(e) ==> e matches AttemptError::Permanent(inner) && inner is InvalidResponse
            && inner.spec_detail() == "No text content in response"@,
        r matches Ok(resp) ==> {
            &&& resp.id == id
            &&& resp.content == raw.text->0
            &&& resp.model@ == model@
            &&& resp.timestamp_ms == timestamp_ms
            &&& resp.metadata@ == Map::<Seq<char>, serde_json::Value>::empty()
            &&& resp.finish_reason@ == match raw.stop_reason {
                Some(reason) => reason@,
                None => "unknown"@,
            }
            &&& match raw.tokens {
                Some(t) => resp.usage matches Some(u) && u.spec_input_tokens() == t.0
                    && u.spec_output_tokens() == t.1 && u.spec_model() == model@
                    && u.spec_cost_nanos() == cost_of(
                    t.0 as nat,
                    t.1 as nat,
                    rates.0 as nat,
                    rates.1 as nat,
                ),
                None => resp.usage is None,
            }
        },
{
    let content = match raw.text {
        Some(text) => text,
        None => {
            return Err(
                AttemptError::Permanent(
                    BedrockError::InvalidResponse(String::from_str("No text content in response")),
                ),
            );
        },
    };
    let usage = match raw.tokens {
        Some((input, output)) => Some(
            TokenUsage::new(
                input,
                output,
                model,
                calculate_cost(input, output, rates.0, rates.1),
            ),
        ),
        None => None,
    };
    let finish_reason = match raw.stop_reason {
        Some(reason) => reason,
        None => String::from_str("unknown"),
    };
    Ok(
        GenerationResponse {
            id,
            content,
            model: String::from_str(model),
            usage,
            metadata: StringMap::new(),
            timestamp_ms,
            finish_reason,
        },
    )
}

/// High-level interface of Bedrock clients
pub trait BedrockClient {
    /// Generate text using the specified model
    fn generate_text(
        &self,
        model: &str,
        messages: Vec<UniversalMessage>,
        config: Option<GenerationConfig>,
    ) -> Result<GenerationResponse, BedrockError>;

    /// Stream text generation
    fn stream_text(
        &self,
        model: &str,
        messages: Vec<UniversalMessage>,
        config: Option<GenerationConfig>,
    ) -> Result<Vec<StreamChunk>, BedrockError>;

    /// Health check
    fn health_check(&self) -> Result<HealthStatus, BedrockError>;

    /// List available models
    fn list_models(&self) -> Result<Vec<String>, BedrockError>;
}

/// Mock client for testing
#[derive(Debug)]
pub struct MockBedrockClient {
    responses: StringMap<String>,
}

impl View for MockBedrockClient {
    type V = Map<Seq<char>, String>;

    closed spec fn view(&self) -> Map<Seq<char>, String> {
        self.responses@
    }
}

impl MockBedrockClient {
    /// What the mock answers for a model: the response set for it, or a
    /// sentence that names the model.
    pub open spec fn answer(&self, model: Seq<char>) -> Seq<char> {
        if self@.contains_key(model) {
            self@[model]@
        } else {
            "Mock response from "@ + model
        }
    }

    /// Create a new mock client
    pub fn new() -> (c: Self)
        ensures
            c@ == Map::<Seq<char>, String>::empty(),
    {
        MockBedrockClient { responses: StringMap::new() }
    }

    /// Add a mock response for a model
    pub fn add_response(&mut self, model: &str, response: &str)
        ensures
            final(self)@.dom() == old(self)@.dom().insert(model@),
            final(self)@[model@]@ == response@,
            forall|k: Seq<char>| k != model@ && old(self)@.contains_key(k) ==> final(self)@[k] == old(
                self,
            )@[k],
            final(self).answer(model@) == response@,
    {
        self.responses.insert(String::from_str(model), String::from_str(response));
    }
}

impl BedrockClient for MockBedrockClient {
    fn generate_text(
        &self,
        model: &str,
        messages: Vec<UniversalMessage>,
        config: Option<GenerationConfig>,
    ) -> (r: Result<GenerationResponse, BedrockError>)
        ensures
            r matches Ok(resp) && resp.content@ == self.answer(model@) && resp.model@ == model@
                && resp.usage is None && resp.finish_reason@ == "stop"@,
    {
        let content = match self.responses.get(model) {
            Some(text) => text.clone(),
            None => {
                let mut text = String::from_str("Mock response from ");
                text.append(model);
                text
            },
        };
        Ok(
            GenerationResponse {
                id: uuid::Uuid::new_v4(),
                content,
                model: String::from_str(model),
                usage: None,
                metadata: StringMap::new(),
                timestamp_ms: wall_clock_millis(),
                finish_reason: String::from_str("stop"),
            },
        )
    }

    fn stream_text(
        &self,
        model: &str,
        messages: Vec<UniversalMessage>,
        config: Option<GenerationConfig>,
    ) -> (r: Result<Vec<StreamChunk>, BedrockError>)
        ensures
            r matches Ok(chunks) && chunks@.len() == 3 && chunks@[0].content@ == "Mock"@
                && chunks@[1].content@ == " streaming"@ && chunks@[2].content@ == " response"@
                && forall|i: int| 0 <= i < 3 ==> !(#[trigger] chunks@[i]).is_final,
    {
        let mut chunks: Vec<StreamChunk> = Vec::new();
        chunks.push(StreamChunk::content("Mock"));
        chunks.push(StreamChunk::content(" streaming"));
        chunks.push(StreamChunk::content(" response"));
        Ok(chunks)
    }

    fn health_check(&self) -> (r: Result<HealthStatus, BedrockError>)
        ensures
            r matches Ok(h) && h.healthy && h.latency_ms == 1 && h.error is None,
    {
        Ok(HealthStatus::from_probe(None, 1, wall_clock_millis()))
    }

    fn list_models(&self) -> (r: Result<Vec<String>, BedrockError>)
        ensures
            r matches Ok(models) && models@.len() == 2 && models@[0]@ == "mock-model-1"@
                && models@[1]@ == "mock-model-2"@,
    {
        let mut models: Vec<String> = Vec::new();
        models.push(String::from_str("mock-model-1"));
        models.push(String::from_str("mock-model-2"));
        Ok(models)
    }
}

impl Default for MockBedrockClient {
    fn default() -> (c: Self)
        ensures
            c@ == Map::<Seq<char>, String>::empty(),
    {
        MockBedrockClient::new()
    }
}

} // verus!
