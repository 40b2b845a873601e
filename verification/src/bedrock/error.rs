//! Failures of the inference client and the categories they fall into.

use vstd::prelude::*;
use vstd::string::*;

verus! {

/// The retry-relevant class of a failure. Every failure belongs to exactly one.
#[derive(Debug, Clone, Copy, PartialEq, Eq, Hash, Structural)]
pub enum ErrorCategory {
    /// Configuration or setup error
    Configuration,
    /// Client-side error (bad request)
    Client,
    /// Server-side error
    Server,
    /// Network connectivity error
    Network,
    /// Resource exhaustion
    Resource,
    /// Rate limiting
    RateLimit,
    /// Content policy violation
    Content,
    /// Authentication failure
    Authentication,
    /// Authorization failure
    Authorization,
    /// Internal system error
    Internal,
}

impl ErrorCategory {
    /// Whether failures of this category are transient by default.
    pub open spec fn retryable(self) -> bool {
        self is Server || self is Network || self is Resource || self is RateLimit
            || self is Internal
    }

    /// The position of the category in declaration order, used as a map key.
    pub open spec fn index(self) -> u64 {
        match self {
            ErrorCategory::Configuration => 0,
            ErrorCategory::Client => 1,
            ErrorCategory::Server => 2,
            ErrorCategory::Network => 3,
            ErrorCategory::Resource => 4,
            ErrorCategory::RateLimit => 5,
            ErrorCategory::Content => 6,
            ErrorCategory::Authentication => 7,
            ErrorCategory::Authorization => 8,
            ErrorCategory::Internal => 9,
        }
    }

    /// Check if errors in this category are typically retryable
    pub fn is_retryable(&self) -> (r: bool)
        ensures
            r == self.retryable(),
    {
        match self {
            ErrorCategory::Configuration => false,
            ErrorCategory::Client => false,
            ErrorCategory::Server => true,
            ErrorCategory::Network => true,
            ErrorCategory::Resource => true,
            ErrorCategory::RateLimit => true,
            ErrorCategory::Content => false,
            ErrorCategory::Authentication => false,
            ErrorCategory::Authorization => false,
            ErrorCategory::Internal => true,
        }
    }

    /// The key under which a policy for this category is stored.
    pub fn key(&self) -> (k: u64)
        ensures
            k == self.index(),
            k < 10,
    {
        match self {
            ErrorCategory::Configuration => 0,
            ErrorCategory::Client => 1,
            ErrorCategory::Server => 2,
            ErrorCategory::Network => 3,
            ErrorCategory::Resource => 4,
            ErrorCategory::RateLimit => 5,
            ErrorCategory::Content => 6,
            ErrorCategory::Authentication => 7,
            ErrorCategory::Authorization => 8,
            ErrorCategory::Internal => 9,
        }
    }
}

/// Errors that can occur when using the Bedrock client
#[derive(Debug, Clone)]
pub enum BedrockError {
    /// Configuration error
    Configuration(String),
    /// Invalid input parameters
    InvalidInput(String),
    /// Invalid response from Bedrock
    InvalidResponse(String),
    /// AWS service error
    ServiceError(String),
    /// Request failed
    RequestFailed(String),
    /// Connection pool exhausted
    PoolExhausted(String),
    /// Timeout error
    Timeout(String),
    /// Rate limit exceeded
    RateLimited(String),
    /// Model not available
    ModelUnavailable(String),
    /// Content filtering error
    ContentFiltered(String),
    /// Token limit exceeded
    TokenLimitExceeded(String),
    /// Authentication error
    Authentication(String),
    /// Authorization error
    Authorization(String),
    /// Internal error
    Internal(String),
}

impl BedrockError {
    /// The category a failure belongs to.
    pub open spec fn spec_category(&self) -> ErrorCategory {
        match self {
            BedrockError::Configuration(_) => ErrorCategory::Configuration,
            BedrockError::InvalidInput(_) => ErrorCategory::Client,
            BedrockError::InvalidResponse(_) => ErrorCategory::Server,
            BedrockError::ServiceError(_) => ErrorCategory::Server,
            BedrockError::RequestFailed(_) => ErrorCategory::Network,
            BedrockError::PoolExhausted(_) => ErrorCategory::Resource,
            BedrockError::Timeout(_) => ErrorCategory::Network,
            BedrockError::RateLimited(_) => ErrorCategory::RateLimit,
            BedrockError::ModelUnavailable(_) => ErrorCategory::Server,
            BedrockError::ContentFiltered(_) => ErrorCategory::Content,
            BedrockError::TokenLimitExceeded(_) => ErrorCategory::Resource,
            BedrockError::Authentication(_) => ErrorCategory::Authentication,
            BedrockError::Authorization(_) => ErrorCategory::Authorization,
            BedrockError::Internal(_) => ErrorCategory::Internal,
        }
    }

    /// Whether this kind of failure is worth another attempt on its own account.
    pub open spec fn spec_is_retryable(&self) -> bool {
        self is ServiceError || self is RequestFailed || self is Timeout || self is RateLimited
            || self is ModelUnavailable || self is Internal
    }

    /// The HTTP status that stands for this failure.
    pub open spec fn spec_status_code(&self) -> u16 {
        match self {
            BedrockError::Configuration(_) => 500,
            BedrockError::InvalidInput(_) => 400,
            BedrockError::InvalidResponse(_) => 502,
            BedrockError::ServiceError(_) => 502,
            BedrockError::RequestFailed(_) => 503,
            BedrockError::PoolExhausted(_) => 503,
            BedrockError::Timeout(_) => 504,
            BedrockError::RateLimited(_) => 429,
            BedrockError::ModelUnavailable(_) => 503,
            BedrockError::ContentFiltered(_) => 400,
            BedrockError::TokenLimitExceeded(_) => 400,
            BedrockError::Authentication(_) => 401,
            BedrockError::Authorization(_) => 403,
            BedrockError::Internal(_) => 500,
        }
    }

    /// The text that the failure carries.
    pub open spec fn spec_detail(&self) -> Seq<char> {
        match self {
            BedrockError::Configuration(m) => m@,
            BedrockError::InvalidInput(m) => m@,
            BedrockError::InvalidResponse(m) => m@,
            BedrockError::ServiceError(m) => m@,
            BedrockError::RequestFailed(m) => m@,
            BedrockError::PoolExhausted(m) => m@,
            BedrockError::Timeout(m) => m@,
            BedrockError::RateLimited(m) => m@,
            BedrockError::ModelUnavailable(m) => m@,
            BedrockError::ContentFiltered(m) => m@,
            BedrockError::TokenLimitExceeded(m) => m@,
            BedrockError::Authentication(m) => m@,
            BedrockError::Authorization(m) => m@,
            BedrockError::Internal(m) => m@,
        }
    }

    /// The fixed text that introduces the detail in the rendered message.
    pub open spec fn spec_prefix(&self) -> Seq<char> {
        match self {
            BedrockError::Configuration(_) => "Configuration error: "@,
            BedrockError::InvalidInput(_) => "Invalid input: "@,
            BedrockError::InvalidResponse(_) => "Invalid response: "@,
            BedrockError::ServiceError(_) => "AWS service error: "@,
            BedrockError::RequestFailed(_) => "Request failed: "@,
            BedrockError::PoolExhausted(_) => "Connection pool exhausted: "@,
            BedrockError::Timeout(_) => "Request timed out: "@,
            BedrockError::RateLimited(_) => "Rate limit exceeded: "@,
            BedrockError::ModelUnavailable(_) => "Model not available: "@,
            BedrockError::ContentFiltered(_) => "Content filtered: "@,
            BedrockError::TokenLimitExceeded(_) => "Token limit exceeded: "@,
            BedrockError::Authentication(_) => "Authentication failed: "@,
            BedrockError::Authorization(_) => "Authorization failed: "@,
            BedrockError::Internal(_) => "Internal error: "@,
        }
    }

    /// Check if this error is retryable
    pub fn is_retryable(&self) -> (r: bool)
        ensures
            r == self.spec_is_retryable(),
    {
        match self {
            BedrockError::ServiceError(_) => true,
            BedrockError::RequestFailed(_) => true,
            BedrockError::Timeout(_) => true,
            BedrockError::RateLimited(_) => true,
            BedrockError::ModelUnavailable(_) => true,
            BedrockError::Internal(_) => true,
            _ => false,
        }
    }

    /// Get the error category
    pub fn category(&self) -> (c: ErrorCategory)
        ensures
            c == self.spec_category(),
    {
        match self {
            BedrockError::Configuration(_) => ErrorCategory::Configuration,
            BedrockError::InvalidInput(_) => ErrorCategory::Client,
            BedrockError::InvalidResponse(_) => ErrorCategory::Server,
            BedrockError::ServiceError(_) => ErrorCategory::Server,
            BedrockError::RequestFailed(_) => ErrorCategory::Network,
            BedrockError::PoolExhausted(_) => ErrorCategory::Resource,
            BedrockError::Timeout(_) => ErrorCategory::Network,
            BedrockError::RateLimited(_) => ErrorCategory::RateLimit,
            BedrockError::ModelUnavailable(_) => ErrorCategory::Server,
            BedrockError::ContentFiltered(_) => ErrorCategory::Content,
            BedrockError::TokenLimitExceeded(_) => ErrorCategory::Resource,
            BedrockError::Authentication(_) => ErrorCategory::Authentication,
            BedrockError::Authorization(_) => ErrorCategory::Authorization,
            BedrockError::Internal(_) => ErrorCategory::Internal,
        }
    }

    /// Get the HTTP status code that would be appropriate for this error
    pub fn status_code(&self) -> (code: u16)
        ensures
            code == self.spec_status_code(),
    {
        match self {
            BedrockError::Configuration(_) => 500,
            BedrockError::InvalidInput(_) => 400,
            BedrockError::InvalidResponse(_) => 502,
            BedrockError::ServiceError(_) => 502,
            BedrockError::RequestFailed(_) => 503,
            BedrockError::PoolExhausted(_) => 503,
            BedrockError::Timeout(_) => 504,
            BedrockError::RateLimited(_) => 429,
            BedrockError::ModelUnavailable(_) => 503,
            BedrockError::ContentFiltered(_) => 400,
            BedrockError::TokenLimitExceeded(_) => 400,
            BedrockError::Authentication(_) => 401,
            BedrockError::Authorization(_) => 403,
            BedrockError::Internal(_) => 500,
        }
    }

    /// The text that the failure carries, without its prefix.
    pub fn detail(&self) -> (m: &String)
        ensures
            m@ == self.spec_detail(),
    {
        match self {
            BedrockError::Configuration(m) => m,
            BedrockError::InvalidInput(m) => m,
            BedrockError::InvalidResponse(m) => m,
            BedrockError::ServiceError(m) => m,
            BedrockError::RequestFailed(m) => m,
            BedrockError::PoolExhausted(m) => m,
            BedrockError::Timeout(m) => m,
            BedrockError::RateLimited(m) => m,
            BedrockError::ModelUnavailable(m) => m,
            BedrockError::ContentFiltered(m) => m,
            BedrockError::TokenLimitExceeded(m) => m,
            BedrockError::Authentication(m) => m,
            BedrockError::Authorization(m) => m,
            BedrockError::Internal(m) => m,
        }
    }

    /// The human-readable message: a prefix that names the kind, then the detail.
    pub fn to_string(&self) -> (s: String)
        ensures
            s@ == self.spec_prefix() + self.spec_detail(),
    {
        let prefix: &str = match self {
            BedrockError::Configuration(_) => "Configuration error: ",
            BedrockError::InvalidInput(_) => "Invalid input: ",
            BedrockError::InvalidResponse(_) => "Invalid response: ",
            BedrockError::ServiceError(_) => "AWS service error: ",
            BedrockError::RequestFailed(_) => "Request failed: ",
            BedrockError::PoolExhausted(_) => "Connection pool exhausted: ",
            BedrockError::Timeout(_) => "Request timed out: ",
            BedrockError::RateLimited(_) => "Rate limit exceeded: ",
            BedrockError::ModelUnavailable(_) => "Model not available: ",
            BedrockError::ContentFiltered(_) => "Content filtered: ",
            BedrockError::TokenLimitExceeded(_) => "Token limit exceeded: ",
            BedrockError::Authentication(_) => "Authentication failed: ",
            BedrockError::Authorization(_) => "Authorization failed: ",
            BedrockError::Internal(_) => "Internal error: ",
        };
        let mut s = String::from_str(prefix);
        s.append(self.detail().as_str());
        s
    }
}

} // verus!
