//! The models that the client knows, what they can do and what they cost.
//! Prices are in billionths of a dollar per thousand tokens.

use vstd::prelude::*;
use vstd::string::*;
use crate::string_map::StringMap;

verus! {

/// The models of the supported family on Bedrock
#[derive(Debug, Clone, Copy, PartialEq, Eq, Hash, Structural)]
pub enum ClaudeModel {
    /// The 3.5 Sonnet model
    Claude35Sonnet,
    /// The 3 Opus model
    Claude3Opus,
    /// The 3 Haiku model
    Claude3Haiku,
}

/// Task types for model recommendation
#[derive(Debug, Clone, Copy, PartialEq, Eq, Structural)]
pub enum TaskType {
    /// Code generation and programming tasks
    CodeGeneration,
    /// Data analysis and research
    Analysis,
    /// Creative writing and content generation
    CreativeWriting,
    /// Question answering
    QuestionAnswering,
    /// Text summarization
    Summarization,
    /// Language translation
    Translation,
    /// Complex reasoning tasks
    Reasoning,
}

/// Model capabilities for filtering
#[derive(Debug, Clone, Copy, PartialEq, Eq, Structural)]
pub enum ModelCapability {
    /// Vision/image processing support
    Vision,
    /// Function calling support
    FunctionCalling,
    /// Large context window (at least 100k tokens)
    LargeContext,
    /// Low cost (less than a thousandth of a dollar for a thousand input
    /// tokens, less than two thousandths for a thousand output tokens)
    LowCost,
}

/// Model capabilities and pricing information
#[derive(Debug)]
pub struct ModelCapabilities {
    /// Maximum tokens that can be generated
    pub max_tokens: usize,
    /// Context window size
    pub context_window: usize,
    /// Whether the model supports vision tasks
    pub supports_vision: bool,
    /// Whether the model supports function calling
    pub supports_function_calling: bool,
    /// Input cost per 1K tokens in billionths of a dollar
    pub input_cost_per_1k_tokens: u64,
    /// Output cost per 1K tokens in billionths of a dollar
    pub output_cost_per_1k_tokens: u64,
    /// Model description
    pub description: String,
}

impl Clone for ModelCapabilities {
    fn clone(&self) -> (c: Self)
        ensures
            c == *self,
    {
        ModelCapabilities {
            max_tokens: self.max_tokens,
            context_window: self.context_window,
            supports_vision: self.supports_vision,
            supports_function_calling: self.supports_function_calling,
            input_cost_per_1k_tokens: self.input_cost_per_1k_tokens,
            output_cost_per_1k_tokens: self.output_cost_per_1k_tokens,
            description: self.description.clone(),
        }
    }
}

impl ModelCapabilities {
    /// Whether a model with these capabilities has the given one.
    pub open spec fn has(&self, capability: ModelCapability) -> bool {
        match capability {
            ModelCapability::Vision => self.supports_vision,
            ModelCapability::FunctionCalling => self.supports_function_calling,
            ModelCapability::LargeContext => self.context_window >= 100_000,
            ModelCapability::LowCost => self.input_cost_per_1k_tokens < 1_000_000
                && self.output_cost_per_1k_tokens < 2_000_000,
        }
    }

    /// Whether a model with these capabilities has the given one.
    pub fn supports(&self, capability: ModelCapability) -> (b: bool)
        ensures
            b == self.has(capability),
    {
        match capability {
            ModelCapability::Vision => self.supports_vision,
            ModelCapability::FunctionCalling => self.supports_function_calling,
            ModelCapability::LargeContext => self.context_window >= 100_000,
            ModelCapability::LowCost => self.input_cost_per_1k_tokens < 1_000_000
                && self.output_cost_per_1k_tokens < 2_000_000,
        }
    }
}

impl ClaudeModel {
    /// The model recommended for a kind of task.
    pub open spec fn spec_recommend(task: TaskType) -> ClaudeModel {
        match task {
            TaskType::CodeGeneration => ClaudeModel::Claude35Sonnet,
            TaskType::Analysis => ClaudeModel::Claude35Sonnet,
            TaskType::CreativeWriting => ClaudeModel::Claude3Opus,
            TaskType::QuestionAnswering => ClaudeModel::Claude3Haiku,
            TaskType::Summarization => ClaudeModel::Claude3Haiku,
            TaskType::Translation => ClaudeModel::Claude35Sonnet,
            TaskType::Reasoning => ClaudeModel::Claude3Opus,
        }
    }

    /// The price of a thousand input tokens, in billionths of a dollar.
    pub open spec fn spec_input_cost(self) -> u64 {
        match self {
            ClaudeModel::Claude35Sonnet => 3_000_000,
            ClaudeModel::Claude3Opus => 15_000_000,
            ClaudeModel::Claude3Haiku => 250_000,
        }
    }

    /// The price of a thousand output tokens, in billionths of a dollar.
    pub open spec fn spec_output_cost(self) -> u64 {
        match self {
            ClaudeModel::Claude35Sonnet => 15_000_000,
            ClaudeModel::Claude3Opus => 75_000_000,
            ClaudeModel::Claude3Haiku => 1_250_000,
        }
    }

    /// Get model capabilities
    pub fn capabilities(&self) -> (c: ModelCapabilities)
        ensures
            c.max_tokens == 200_000,
            c.context_window == 200_000,
            c.supports_vision,
            c.supports_function_calling == !(*self is Claude3Haiku),
            c.input_cost_per_1k_tokens == self.spec_input_cost(),
            c.output_cost_per_1k_tokens == self.spec_output_cost(),
            c.description@ == match *self {
                ClaudeModel::Claude35Sonnet => "Most capable model for complex reasoning and analysis"@,
                ClaudeModel::Claude3Opus => "Most powerful model for complex tasks"@,
                ClaudeModel::Claude3Haiku => "Fastest and most cost-effective model"@,
            },
    {
        match self {
            ClaudeModel::Claude35Sonnet => ModelCapabilities {
                max_tokens: 200_000,
                context_window: 200_000,
                supports_vision: true,
                supports_function_calling: true,
                input_cost_per_1k_tokens: 3_000_000,
                output_cost_per_1k_tokens: 15_000_000,
                description: String::from_str(
                    "Most capable model for complex reasoning and analysis",
                ),
            },
            ClaudeModel::Claude3Opus => ModelCapabilities {
                max_tokens: 200_000,
                context_window: 200_000,
                supports_vision: true,
                supports_function_calling: true,
                input_cost_per_1k_tokens: 15_000_000,
                output_cost_per_1k_tokens: 75_000_000,
                description: String::from_str("Most powerful model for complex tasks"),
            },
            ClaudeModel::Claude3Haiku => ModelCapabilities {
                max_tokens: 200_000,
                context_window: 200_000,
                supports_vision: true,
                supports_function_calling: false,
                input_cost_per_1k_tokens: 250_000,
                output_cost_per_1k_tokens: 1_250_000,
                description: String::from_str("Fastest and most cost-effective model"),
            },
        }
    }

    /// Get all available models
    pub fn all() -> (v: Vec<Self>)
        ensures
            v@ == seq![
                ClaudeModel::Claude35Sonnet,
                ClaudeModel::Claude3Opus,
                ClaudeModel::Claude3Haiku,
            ],
    {
        let mut v: Vec<ClaudeModel> = Vec::new();
        v.push(ClaudeModel::Claude35Sonnet);
        v.push(ClaudeModel::Claude3Opus);
        v.push(ClaudeModel::Claude3Haiku);
        assert(v@ =~= seq![
            ClaudeModel::Claude35Sonnet,
            ClaudeModel::Claude3Opus,
            ClaudeModel::Claude3Haiku,
        ]);
        v
    }

    /// Get recommended model for a task type
    pub fn recommend_for_task(task: TaskType) -> (m: Self)
        ensures
            m == Self::spec_recommend(task),
    {
        match task {
            TaskType::CodeGeneration => ClaudeModel::Claude35Sonnet,
            TaskType::Analysis => ClaudeModel::Claude35Sonnet,
            TaskType::CreativeWriting => ClaudeModel::Claude3Opus,
            TaskType::QuestionAnswering => ClaudeModel::Claude3Haiku,
            TaskType::Summarization => ClaudeModel::Claude3Haiku,
            TaskType::Translation => ClaudeModel::Claude35Sonnet,
            TaskType::Reasoning => ClaudeModel::Claude3Opus,
        }
    }
}

/// Information about a model
#[derive(Debug)]
pub struct ModelInfo {
    /// Model identifier
    pub id: String,
    /// Human-readable name
    pub name: String,
    /// Model capabilities
    pub capabilities: ModelCapabilities,
    /// Whether the model is currently available
    pub available: bool,
    /// Model version
    pub version: String,
    /// Provider (e.g., "anthropic")
    pub provider: String,
}

impl Clone for ModelInfo {
    fn clone(&self) -> (c: Self)
        ensures
            c == *self,
    {
        ModelInfo {
            id: self.id.clone(),
            name: self.name.clone(),
            capabilities: self.capabilities.clone(),
            available: self.available,
            version: self.version.clone(),
            provider: self.provider.clone(),
        }
    }
}

impl ModelInfo {
    /// The registry entry of one of the family's models, under the identifier
    /// and the name that the caller knows it by.
    pub fn of(model: ClaudeModel, id: &str, name: &str) -> (info: Self)
        ensures
            info.id@ == id@,
            info.name@ == name@,
            info.available,
            info.version@ == "1.0"@,
            info.provider@ == "anthropic"@,
            info.capabilities.input_cost_per_1k_tokens == model.spec_input_cost(),
            info.capabilities.output_cost_per_1k_tokens == model.spec_output_cost(),
            info.capabilities.supports_vision,
            info.capabilities.supports_function_calling == !(model is Claude3Haiku),
            info.capabilities.context_window == 200_000,
    {
        ModelInfo {
            id: String::from_str(id),
            name: String::from_str(name),
            capabilities: model.capabilities(),
            available: true,
            version: String::from_str("1.0"),
            provider: String::from_str("anthropic"),
        }
    }

    /// Whether the model is available and, where a capability is asked for,
    /// has it.
    pub open spec fn wanted(&self, capability: Option<ModelCapability>) -> bool {
        self.available && match capability {
            Some(c) => self.capabilities.has(c),
            None => true,
        }
    }
}

/// Model registry for managing available models, each under its identifier.
#[derive(Debug)]
pub struct ModelRegistry {
    models: StringMap<ModelInfo>,
}

impl View for ModelRegistry {
    type V = Map<Seq<char>, ModelInfo>;

    closed spec fn view(&self) -> Map<Seq<char>, ModelInfo> {
        self.models@
    }
}

impl ModelRegistry {
    #[verifier::type_invariant]
    spec fn inv(self) -> bool {
        forall|k: Seq<char>| self.models@.contains_key(k) ==> (#[trigger] self.models@[k]).id@ == k
    }

    /// Create a model registry without any model
    pub fn empty() -> (r: Self)
        ensures
            r@ == Map::<Seq<char>, ModelInfo>::empty(),
    {
        ModelRegistry { models: StringMap::new() }
    }

    /// Get model information by ID
    pub fn get(&self, id: &str) -> (r: Option<&ModelInfo>)
        ensures
            match r {
                Some(info) => self@.contains_key(id@) && *info == self@[id@] && info.id@ == id@,
                None => !self@.contains_key(id@),
            },
    {
        proof {
            use_type_invariant(self);
        }
        self.models.get(id)
    }

    /// The models that are available and, where a capability is asked for,
    /// have it, in the order in which they were registered.
    fn select(&self, capability: Option<ModelCapability>) -> (r: Vec<&ModelInfo>)
        ensures
            forall|i: int|
                0 <= i < r@.len() ==> (#[trigger] r@[i]).wanted(capability) && self@.contains_key(
                    r@[i].id@,
                ) && self@[r@[i].id@] == *r@[i],
            forall|k: Seq<char>|
                self@.contains_key(k) && self@[k].wanted(capability) ==> exists|i: int|
                    0 <= i < r@.len() && *(#[trigger] r@[i]) == self@[k],
            forall|i: int, j: int| 0 <= i < j < r@.len() ==> r@[i].id@ != r@[j].id@,
    {
        proof {
            use_type_invariant(self);
        }
        let n = self.models.len();
        let mut r: Vec<&ModelInfo> = Vec::new();
        let ghost mut picked: Seq<int> = Seq::empty();
        let mut i: usize = 0;
        while i < n
            invariant
                i <= n,
                n == self.models.spec_keys().len(),
                self.models.listed(),
                forall|k: Seq<char>|
                    self.models@.contains_key(k) ==> (#[trigger] self.models@[k]).id@ == k,
                picked.len() == r@.len(),
                forall|j: int|
                    0 <= j < r@.len() ==> 0 <= #[trigger] picked[j] < i && *r@[j]
                        == self.models.spec_values()[picked[j]] && r@[j].wanted(capability),
                forall|a: int, b: int| 0 <= a < b < picked.len() ==> picked[a] < picked[b],
                forall|idx: int|
                    0 <= idx < i && (#[trigger] self.models.spec_values()[idx]).wanted(capability)
                        ==> exists|j: int| 0 <= j < r@.len() && picked[j] == idx,
            decreases n - i,
        {
            let info = self.models.value_at_index(i);
            let wanted = info.available && match capability {
                Some(c) => info.capabilities.supports(c),
                None => true,
            };
            if wanted {
                r.push(info);
                proof {
                    let ghost old_picked = picked;
                    picked = picked.push(i as int);
                    assert forall|idx: int|
                        0 <= idx < i + 1 && (#[trigger] self.models.spec_values()[idx]).wanted(
                            capability,
                        ) implies exists|j: int| 0 <= j < r@.len() && picked[j] == idx by {
                        if idx < i {
                            let j = choose|j: int| 0 <= j < old_picked.len() && old_picked[j] == idx;
                            assert(picked[j] == idx);
                        } else {
                            assert(picked[r@.len() - 1] == idx);
                        }
                    }
                }
            }
            i = i + 1;
        }
        proof {
            assert forall|j: int| 0 <= j < r@.len() implies (#[trigger] r@[j]).wanted(capability)
                && self@.contains_key(r@[j].id@) && self@[r@[j].id@] == *r@[j] by {
                let p = picked[j];
                assert(self.models@.contains_key(self.models.spec_keys()[p]));
                assert(self.models@[self.models.spec_keys()[p]] == self.models.spec_values()[p]);
            }
            assert forall|k: Seq<char>|
                self@.contains_key(k) && self@[k].wanted(capability) implies exists|j: int|
                0 <= j < r@.len() && *(#[trigger] r@[j]) == self@[k] by {
                let p = choose|p: int|
                    0 <= p < self.models.spec_keys().len() && #[trigger] self.models.spec_keys()[p]
                        == k;
                assert(self.models@[self.models.spec_keys()[p]] == self.models.spec_values()[p]);
                assert(self.models.spec_values()[p].wanted(capability));
                let j = choose|j: int| 0 <= j < r@.len() && picked[j] == p;
                assert(*r@[j] == self@[k]);
            }
            assert forall|a: int, b: int| 0 <= a < b < r@.len() implies r@[a].id@ != r@[b].id@ by {
                let pa = picked[a];
                let pb = picked[b];
                assert(pa < pb);
                assert(self.models@[self.models.spec_keys()[pa]] == self.models.spec_values()[pa]);
                assert(self.models@[self.models.spec_keys()[pb]] == self.models.spec_values()[pb]);
                assert(self.models@.contains_key(self.models.spec_keys()[pa]));
                assert(self.models@.contains_key(self.models.spec_keys()[pb]));
                assert(self.models.spec_keys()[pa] != self.models.spec_keys()[pb]);
            }
        }
        r
    }

    /// List all available models: each of them once, and no other
    pub fn list_available(&self) -> (r: Vec<&ModelInfo>)
        ensures
            forall|i: int|
                0 <= i < r@.len() ==> (#[trigger] r@[i]).available && self@.contains_key(r@[i].id@)
                    && self@[r@[i].id@] == *r@[i],
            forall|k: Seq<char>|
                self@.contains_key(k) && self@[k].available ==> exists|i: int|
                    0 <= i < r@.len() && *(#[trigger] r@[i]) == self@[k],
            forall|i: int, j: int| 0 <= i < j < r@.len() ==> r@[i].id@ != r@[j].id@,
    {
        let r = self.select(None);
        proof {
            assert forall|k: Seq<char>| self@.contains_key(k) && self@[k].available implies exists|
                i: int,
            | 0 <= i < r@.len() && *(#[trigger] r@[i]) == self@[k] by {
                assert(self@[k].wanted(None));
            }
        }
        r
    }

    /// Register a new model under its identifier, in place of any model that
    /// was registered under it before
    pub fn register(&mut self, info: ModelInfo)
        ensures
            final(self)@ == old(self)@.insert(info.id@, info),
    {
        proof {
            use_type_invariant(&*self);
        }
        let mut models = StringMap::new();
        std::mem::swap(&mut models, &mut self.models);
        let key = info.id.clone();
        models.insert(key, info);
        self.models = models;
    }

    /// Mark a model as unavailable. An identifier that is not registered
    /// changes nothing.
    pub fn mark_unavailable(&mut self, id: &str)
        ensures
            final(self)@ == if old(self)@.contains_key(id@) {
                old(self)@.insert(id@, ModelInfo { available: false, ..old(self)@[id@] })
            } else {
                old(self)@
            },
    {
        proof {
            use_type_invariant(&*self);
        }
        let mut models = StringMap::new();
        std::mem::swap(&mut models, &mut self.models);
        let updated: Option<ModelInfo> = match models.get(id) {
            Some(info) => {
                let mut copy = info.clone();
                copy.available = false;
                Some(copy)
            },
            None => None,
        };
        match updated {
            Some(info) => {
                models.insert(String::from_str(id), info);
            },
            None => {},
        }
        self.models = models;
    }

    /// Get models that are available and support a specific capability: each
    /// of them once, and no other
    pub fn models_with_capability(&self, capability: ModelCapability) -> (r: Vec<&ModelInfo>)
        ensures
            forall|i: int|
                0 <= i < r@.len() ==> (#[trigger] r@[i]).available && r@[i].capabilities.has(
                    capability,
                ) && self@.contains_key(r@[i].id@) && self@[r@[i].id@] == *r@[i],
            forall|k: Seq<char>|
                self@.contains_key(k) && self@[k].available && self@[k].capabilities.has(
                    capability,
                ) ==> exists|i: int| 0 <= i < r@.len() && *(#[trigger] r@[i]) == self@[k],
            forall|i: int, j: int| 0 <= i < j < r@.len() ==> r@[i].id@ != r@[j].id@,
    {
        let r = self.select(Some(capability));
        proof {
            assert forall|i: int| 0 <= i < r@.len() implies (#[trigger] r@[i]).available
                && r@[i].capabilities.has(capability) by {
                assert(r@[i].wanted(Some(capability)));
            }
            assert forall|k: Seq<char>|
                self@.contains_key(k) && self@[k].available && self@[k].capabilities.has(
                    capability,
                ) implies exists|i: int| 0 <= i < r@.len() && *(#[trigger] r@[i]) == self@[k] by {
                assert(self@[k].wanted(Some(capability)));
            }
        }
        r
    }
}

} // verus!
