//! Error types of the bot framework.

use vstd::prelude::*;
use vstd::string::*;
use crate::system::duration_debug;
use crate::text::is_prefix;

verus! {

/// Main error type for Universal Bot
#[derive(Debug)]
pub enum Error {
    /// Configuration error
    Configuration(String),
    /// Validation error
    Validation(String),
    /// Pipeline processing error
    Pipeline(String),
    /// Context management error
    Context(String),
    /// Plugin error
    Plugin(String),
    /// AI provider error
    Provider(String),
    /// Network error
    Network(String),
    /// Timeout error
    Timeout(std::time::Duration),
    /// Rate limit error
    RateLimit,
    /// Authentication error
    Authentication(String),
    /// Authorization error
    Authorization(String),
    /// Resource not found
    NotFound(String),
    /// Invalid input
    InvalidInput(String),
    /// Serialization/deserialization error
    Serialization(String),
    /// Database error
    Database(String),
    /// Cache error
    Cache(String),
    /// Initialization error
    Initialization(String),
    /// Internal error (should not happen)
    Internal(String),
    /// Other error with context
    Other {
        /// Error message
        message: String,
        /// The message of the error that caused this one, if any
        source: Option<String>,
    },
}

impl Error {
    /// Whether another attempt may succeed.
    pub open spec fn spec_is_retryable(&self) -> bool {
        self is Network || self is Timeout || self is RateLimit || self is Provider
    }

    /// Whether the caller is at fault.
    pub open spec fn spec_is_client_error(&self) -> bool {
        self is InvalidInput || self is Validation || self is Authentication
            || self is Authorization || self is NotFound
    }

    /// Whether the server is at fault.
    pub open spec fn spec_is_server_error(&self) -> bool {
        self is Internal || self is Database || self is Cache || self is Initialization
    }

    /// The code that API responses carry for this error.
    pub open spec fn spec_error_code(&self) -> Seq<char> {
        match self {
            Error::Configuration(_) => "E001"@,
            Error::Validation(_) => "E002"@,
            Error::Pipeline(_) => "E003"@,
            Error::Context(_) => "E004"@,
            Error::Plugin(_) => "E005"@,
            Error::Provider(_) => "E006"@,
            Error::Network(_) => "E007"@,
            Error::Timeout(_) => "E008"@,
            Error::RateLimit => "E009"@,
            Error::Authentication(_) => "E010"@,
            Error::Authorization(_) => "E011"@,
            Error::NotFound(_) => "E012"@,
            Error::InvalidInput(_) => "E013"@,
            Error::Serialization(_) => "E014"@,
            Error::Database(_) => "E015"@,
            Error::Cache(_) => "E016"@,
            Error::Initialization(_) => "E017"@,
            Error::Internal(_) => "E018"@,
            Error::Other { .. } => "E999"@,
        }
    }

    /// The HTTP status that stands for this error.
    pub open spec fn spec_http_status_code(&self) -> u16 {
        match self {
            Error::InvalidInput(_) => 400,
            Error::Validation(_) => 400,
            Error::Authentication(_) => 401,
            Error::Authorization(_) => 403,
            Error::NotFound(_) => 404,
            Error::Timeout(_) => 408,
            Error::RateLimit => 429,
            Error::Internal(_) => 500,
            Error::Database(_) => 500,
            Error::Cache(_) => 500,
            Error::Network(_) => 502,
            Error::Provider(_) => 502,
            Error::Initialization(_) => 503,
            _ => 500,
        }
    }

    /// The fixed text that the rendered message begins with.
    pub open spec fn spec_prefix(&self) -> Seq<char> {
        match self {
            Error::Configuration(_) => "Configuration error: "@,
            Error::Validation(_) => "Validation error: "@,
            Error::Pipeline(_) => "Pipeline error: "@,
            Error::Context(_) => "Context error: "@,
            Error::Plugin(_) => "Plugin error: "@,
            Error::Provider(_) => "AI provider error: "@,
            Error::Network(_) => "Network error: "@,
            Error::Timeout(_) => "Operation timed out after "@,
            Error::RateLimit => "Rate limit exceeded"@,
            Error::Authentication(_) => "Authentication failed: "@,
            Error::Authorization(_) => "Authorization failed: "@,
            Error::NotFound(_) => "Resource not found: "@,
            Error::InvalidInput(_) => "Invalid input: "@,
            Error::Serialization(_) => "Serialization error: "@,
            Error::Database(_) => "Database error: "@,
            Error::Cache(_) => "Cache error: "@,
            Error::Initialization(_) => "Initialization failed: "@,
            Error::Internal(_) => "Internal error: "@,
            Error::Other { .. } => Seq::empty(),
        }
    }

    /// The text that the error carries, where it carries text.
    pub open spec fn spec_detail(&self) -> Option<Seq<char>> {
        match self {
            Error::Configuration(m) => Some(m@),
            Error::Validation(m) => Some(m@),
            Error::Pipeline(m) => Some(m@),
            Error::Context(m) => Some(m@),
            Error::Plugin(m) => Some(m@),
            Error::Provider(m) => Some(m@),
            Error::Network(m) => Some(m@),
            Error::Timeout(_) => None,
            Error::RateLimit => Some(Seq::empty()),
            Error::Authentication(m) => Some(m@),
            Error::Authorization(m) => Some(m@),
            Error::NotFound(m) => Some(m@),
            Error::InvalidInput(m) => Some(m@),
            Error::Serialization(m) => Some(m@),
            Error::Database(m) => Some(m@),
            Error::Cache(m) => Some(m@),
            Error::Initialization(m) => Some(m@),
            Error::Internal(m) => Some(m@),
            Error::Other { message, .. } => Some(message@),
        }
    }

    /// Create a new error with a message
    pub fn new(message: &str) -> (e: Self)
        ensures
            e matches Error::Other { message: m, source: s } && m@ == message@ && s is None,
    {
        Error::Other { message: String::from_str(message), source: None }
    }

    /// Create a new error with a message and the message of its cause
    pub fn with_source(message: &str, source: String) -> (e: Self)
        ensures
            e matches Error::Other { message: m, source: s } && m@ == message@ && s == Some(
                source,
            ),
    {
        Error::Other { message: String::from_str(message), source: Some(source) }
    }

    /// The message of the error that caused this one, if one is recorded.
    pub fn source(&self) -> (s: Option<&String>)
        ensures
            match self {
                Error::Other { source: Some(inner), .. } => s == Some(inner),
                _ => s is None,
            },
    {
        match self {
            Error::Other { source: Some(inner), .. } => Some(inner),
            _ => None,
        }
    }

    /// Check if this error is retryable
    pub fn is_retryable(&self) -> (b: bool)
        ensures
            b == self.spec_is_retryable(),
    {
        match self {
            Error::Network(_) => true,
            Error::Timeout(_) => true,
            Error::RateLimit => true,
            Error::Provider(_) => true,
            _ => false,
        }
    }

    /// Check if this error is a client error
    pub fn is_client_error(&self) -> (b: bool)
        ensures
            b == self.spec_is_client_error(),
    {
        match self {
            Error::InvalidInput(_) => true,
            Error::Validation(_) => true,
            Error::Authentication(_) => true,
            Error::Authorization(_) => true,
            Error::NotFound(_) => true,
            _ => false,
        }
    }

    /// Check if this error is a server error
    pub fn is_server_error(&self) -> (b: bool)
        ensures
            b == self.spec_is_server_error(),
    {
        match self {
            Error::Internal(_) => true,
            Error::Database(_) => true,
            Error::Cache(_) => true,
            Error::Initialization(_) => true,
            _ => false,
        }
    }

    /// Get the error code for API responses
    pub fn error_code(&self) -> (c: &'static str)
        ensures
            c@ == self.spec_error_code(),
    {
        match self {
            Error::Configuration(_) => "E001",
            Error::Validation(_) => "E002",
            Error::Pipeline(_) => "E003",
            Error::Context(_) => "E004",
            Error::Plugin(_) => "E005",
            Error::Provider(_) => "E006",
            Error::Network(_) => "E007",
            Error::Timeout(_) => "E008",
            Error::RateLimit => "E009",
            Error::Authentication(_) => "E010",
            Error::Authorization(_) => "E011",
            Error::NotFound(_) => "E012",
            Error::InvalidInput(_) => "E013",
            Error::Serialization(_) => "E014",
            Error::Database(_) => "E015",
            Error::Cache(_) => "E016",
            Error::Initialization(_) => "E017",
            Error::Internal(_) => "E018",
            Error::Other { .. } => "E999",
        }
    }

    /// Get the HTTP status code for this error
    pub fn http_status_code(&self) -> (code: u16)
        ensures
            code == self.spec_http_status_code(),
    {
        match self {
            Error::InvalidInput(_) => 400,
            Error::Validation(_) => 400,
            Error::Authentication(_) => 401,
            Error::Authorization(_) => 403,
            Error::NotFound(_) => 404,
            Error::Timeout(_) => 408,
            Error::RateLimit => 429,
            Error::Internal(_) => 500,
            Error::Database(_) => 500,
            Error::Cache(_) => 500,
            Error::Network(_) => 502,
            Error::Provider(_) => 502,
            Error::Initialization(_) => 503,
            _ => 500,
        }
    }

    /// The human-readable message: a prefix that names the kind, then the
    /// text that the error carries. A timeout shows its duration after the
    /// prefix.
    pub fn to_string(&self) -> (s: String)
        ensures
            match self.spec_detail() {
                Some(detail) => s@ == self.spec_prefix() + detail,
                None => is_prefix(self.spec_prefix(), s@),
            },
    {
        match self {
            Error::Configuration(m) => prefixed("Configuration error: ", m),
            Error::Validation(m) => prefixed("Validation error: ", m),
            Error::Pipeline(m) => prefixed("Pipeline error: ", m),
            Error::Context(m) => prefixed("Context error: ", m),
            Error::Plugin(m) => prefixed("Plugin error: ", m),
            Error::Provider(m) => prefixed("AI provider error: ", m),
            Error::Network(m) => prefixed("Network error: ", m),
            Error::Timeout(d) => {
                let shown = duration_debug(d);
                let s = prefixed("Operation timed out after ", &shown);
                assert(s@.subrange(0, "Operation timed out after "@.len() as int)
                    =~= "Operation timed out after "@);
                s
            },
            Error::RateLimit => {
                let s = String::from_str("Rate limit exceeded");
                assert(s@ =~= "Rate limit exceeded"@ + Seq::<char>::empty());
                s
            },
            Error::Authentication(m) => prefixed("Authentication failed: ", m),
            Error::Authorization(m) => prefixed("Authorization failed: ", m),
            Error::NotFound(m) => prefixed("Resource not found: ", m),
            Error::InvalidInput(m) => prefixed("Invalid input: ", m),
            Error::Serialization(m) => prefixed("Serialization error: ", m),
            Error::Database(m) => prefixed("Database error: ", m),
            Error::Cache(m) => prefixed("Cache error: ", m),
            Error::Initialization(m) => prefixed("Initialization failed: ", m),
            Error::Internal(m) => prefixed("Internal error: ", m),
            Error::Other { message, .. } => {
                let s = message.clone();
                assert(s@ =~= Seq::<char>::empty() + message@);
                s
            },
        }
    }
}

/// A prefix followed by a detail.
fn prefixed(prefix: &str, detail: &String) -> (s: String)
    ensures
        s@ == prefix@ + detail@,
{
    let mut s = String::from_str(prefix);
    s.append(detail.as_str());
    s
}

/// Extension trait for converting errors with context
pub trait ErrorContext<T> {
    /// Add context to an error
    fn context(self, msg: &str) -> Result<T, Error>;

    /// Add context with a closure
    fn with_context<F: FnOnce() -> String>(self, f: F) -> Result<T, Error>
        requires
            f.requires(()),
    ;
}

impl<T> ErrorContext<T> for Result<T, String> {
    fn context(self, msg: &str) -> (r: Result<T, Error>)
        ensures
            match self {
                Ok(v) => r == Ok::<T, Error>(v),
                Err(cause) => r matches Err(Error::Other { message, source }) && message@ == msg@
                    && source == Some(cause),
            },
    {
        match self {
            Ok(v) => Ok(v),
            Err(cause) => Err(Error::with_source(msg, cause)),
        }
    }

    fn with_context<F: FnOnce() -> String>(self, f: F) -> (r: Result<T, Error>)
        ensures
            match self {
                Ok(v) => r == Ok::<T, Error>(v),
                Err(cause) => r matches Err(Error::Other { message, source }) && f.ensures(
                    (),
                    message,
                ) && source == Some(cause),
            },
    {
        match self {
            Ok(v) => Ok(v),
            Err(cause) => {
                let message = f();
                Err(Error::Other { message, source: Some(cause) })
            },
        }
    }
}

/// Error response for API
#[derive(Debug)]
pub struct ErrorResponse {
    /// Error code
    pub code: String,
    /// Error message
    pub message: String,
    /// Additional details
    pub details: Option<serde_json::Value>,
    /// Request ID for tracing
    pub request_id: Option<String>,
}

impl ErrorResponse {
    /// Create a new error response
    pub fn new(code: &str, message: &str) -> (r: Self)
        ensures
            r.code@ == code@,
            r.message@ == message@,
            r.details is None,
            r.request_id is None,
    {
        ErrorResponse {
            code: String::from_str(code),
            message: String::from_str(message),
            details: None,
            request_id: None,
        }
    }

    /// The response that reports an error: its code and its message.
    pub fn from_error(error: &Error) -> (r: Self)
        ensures
            r.code@ == error.spec_error_code(),
            match error.spec_detail() {
                Some(detail) => r.message@ == error.spec_prefix() + detail,
                None => is_prefix(error.spec_prefix(), r.message@),
            },
            r.details is None,
            r.request_id is None,
    {
        ErrorResponse {
            code: String::from_str(error.error_code()),
            message: error.to_string(),
            details: None,
            request_id: None,
        }
    }

    /// Add details to the error response
    pub fn with_details(self, details: serde_json::Value) -> (r: Self)
        ensures
            r == (ErrorResponse { details: Some(details), ..self }),
    {
        let mut r = self;
        r.details = Some(details);
        r
    }

    /// Add request ID for tracing
    pub fn with_request_id(self, request_id: &str) -> (r: Self)
        ensures
            r.request_id is Some,
            r.request_id->0@ == request_id@,
            r.code == self.code,
            r.message == self.message,
            r.details == self.details,
    {
        let mut r = self;
        r.request_id = Some(String::from_str(request_id));
        r
    }
}

impl From<Error> for ErrorResponse {
    /// The response that reports an error; `from_error` states what it holds.
    fn from(error: Error) -> (r: Self) {
        ErrorResponse::from_error(&error)
    }
}

impl vstd::std_specs::convert::FromSpecImpl<Error> for ErrorResponse {
    /// The message of a timeout shows a duration, whose text is not modelled:
    /// no function of the error alone says what the conversion yields.
    open spec fn obeys_from_spec() -> bool {
        false
    }

    open spec fn from_spec(error: Error) -> Self {
        arbitrary()
    }
}

} // verus!
