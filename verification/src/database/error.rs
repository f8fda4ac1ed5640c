//! Database error types and result aliases.

use vstd::prelude::*;
use vstd::std_specs::convert::FromSpecImpl;
use vstd::string::*;

verus! {

/// `std::io::Error`, carried through as it is.
#[verifier::external_type_specification]
#[verifier::external_body]
pub struct ExIoError(std::io::Error);

/// `serde_json::Error`, carried through as it is.
#[verifier::external_type_specification]
#[verifier::external_body]
pub struct ExJsonError(serde_json::Error);

/// `anyhow::Error`, carried through as it is.
#[verifier::external_type_specification]
#[verifier::external_body]
pub struct ExAnyhowError(anyhow::Error);

/// Database-specific error types.
#[derive(Debug)]
pub enum DatabaseError {
    ConnectionFailed(String),
    ConfigurationError(String),
    QueryFailed(String),
    SerializationError(String),
    TimeRangeError(String),
    SensorNotFound(String),
    InvalidDataFormat(String),
    TransactionFailed(String),
    ConnectionTimeout { timeout_secs: u64 },
    QueryTimeout { timeout_secs: u64 },
    DatabaseUnavailable { reason: String },
    FeatureNotSupported { feature: String },
    IoError(std::io::Error),
    JsonError(serde_json::Error),
    Other(anyhow::Error),
}

/// Result type alias for database operations.
pub type DatabaseResult<T> = Result<T, DatabaseError>;

/// The character of a decimal digit.
pub open spec fn digit_spec(value: nat) -> Seq<char> {
    if value == 0 {
        "0"@
    } else if value == 1 {
        "1"@
    } else if value == 2 {
        "2"@
    } else if value == 3 {
        "3"@
    } else if value == 4 {
        "4"@
    } else if value == 5 {
        "5"@
    } else if value == 6 {
        "6"@
    } else if value == 7 {
        "7"@
    } else if value == 8 {
        "8"@
    } else {
        "9"@
    }
}

/// A number written in decimal digits, without leading zeros.
pub open spec fn decimal_spec(number: nat) -> Seq<char>
    decreases number,
{
    if number < 10 {
        digit_spec(number)
    } else {
        decimal_spec(number / 10) + digit_spec(number % 10)
    }
}

/// The character of a decimal digit.
fn digit(value: u64) -> (text: &'static str)
    requires
        value < 10,
    ensures
        text@ == digit_spec(value as nat),
{
    if value == 0 {
        "0"
    } else if value == 1 {
        "1"
    } else if value == 2 {
        "2"
    } else if value == 3 {
        "3"
    } else if value == 4 {
        "4"
    } else if value == 5 {
        "5"
    } else if value == 6 {
        "6"
    } else if value == 7 {
        "7"
    } else if value == 8 {
        "8"
    } else {
        "9"
    }
}

/// Writes a number in decimal digits.
pub fn decimal(number: u64) -> (text: String)
    ensures
        text@ == decimal_spec(number as nat),
    decreases number,
{
    if number < 10 {
        String::from_str(digit(number))
    } else {
        let mut text = decimal(number / 10);
        text.append(digit(number % 10));
        text
    }
}

/// The text of a `std::io::Error`, as its `Display` gives it. Nothing is
/// claimed of the text.
#[verifier::external_body]
fn io_error_text(error: &std::io::Error) -> String {
    error.to_string()
}

/// The text of a `serde_json::Error`, as its `Display` gives it. Nothing is
/// claimed of the text.
#[verifier::external_body]
fn json_error_text(error: &serde_json::Error) -> String {
    error.to_string()
}

/// The text of an `anyhow::Error`, as its `Display` gives it. Nothing is
/// claimed of the text.
#[verifier::external_body]
fn other_error_text(error: &anyhow::Error) -> String {
    error.to_string()
}

/// A lead followed by a detail.
fn lead_and_detail(lead: &str, detail: &str) -> (text: String)
    ensures
        text@ == lead@ + detail@,
{
    let mut text = String::from_str(lead);
    text.append(detail);
    text
}

/// A timeout, with the seconds that were waited.
fn timeout_text(lead: &str, seconds: u64) -> (text: String)
    ensures
        text@ == lead@ + decimal_spec(seconds as nat) + " seconds"@,
{
    let mut text = String::from_str(lead);
    let waited = decimal(seconds);
    text.append(waited.as_str());
    text.append(" seconds");
    text
}

impl DatabaseError {
    /// The words with which the message of an error begins.
    pub open spec fn lead(&self) -> Seq<char> {
        match self {
            DatabaseError::ConnectionFailed(_) => "Connection failed: "@,
            DatabaseError::ConfigurationError(_) => "Configuration error: "@,
            DatabaseError::QueryFailed(_) => "Query execution failed: "@,
            DatabaseError::SerializationError(_) => "Serialization error: "@,
            DatabaseError::TimeRangeError(_) => "Time range error: "@,
            DatabaseError::SensorNotFound(_) => "Sensor not found: "@,
            DatabaseError::InvalidDataFormat(_) => "Invalid data format: "@,
            DatabaseError::TransactionFailed(_) => "Transaction failed: "@,
            DatabaseError::ConnectionTimeout { .. } => "Connection timeout after "@,
            DatabaseError::QueryTimeout { .. } => "Query timeout after "@,
            DatabaseError::DatabaseUnavailable { .. } => "Database not available: "@,
            DatabaseError::FeatureNotSupported { .. } => "Feature not supported by backend: "@,
            DatabaseError::IoError(_) => "IO error: "@,
            DatabaseError::JsonError(_) => "JSON error: "@,
            DatabaseError::Other(_) => "Other error: "@,
        }
    }

    /// What follows the lead in the message of an error, where the error
    /// itself holds it; a wrapped error brings its own words.
    pub open spec fn detail(&self) -> Option<Seq<char>> {
        match self {
            DatabaseError::ConnectionFailed(detail) => Some(detail@),
            DatabaseError::ConfigurationError(detail) => Some(detail@),
            DatabaseError::QueryFailed(detail) => Some(detail@),
            DatabaseError::SerializationError(detail) => Some(detail@),
            DatabaseError::TimeRangeError(detail) => Some(detail@),
            DatabaseError::SensorNotFound(detail) => Some(detail@),
            DatabaseError::InvalidDataFormat(detail) => Some(detail@),
            DatabaseError::TransactionFailed(detail) => Some(detail@),
            DatabaseError::ConnectionTimeout { timeout_secs } => Some(
                decimal_spec(*timeout_secs as nat) + " seconds"@,
            ),
            DatabaseError::QueryTimeout { timeout_secs } => Some(
                decimal_spec(*timeout_secs as nat) + " seconds"@,
            ),
            DatabaseError::DatabaseUnavailable { reason } => Some(reason@),
            DatabaseError::FeatureNotSupported { feature } => Some(feature@),
            DatabaseError::IoError(_) => None,
            DatabaseError::JsonError(_) => None,
            DatabaseError::Other(_) => None,
        }
    }

    /// The message of the error: its lead, then its detail. Of a wrapped
    /// error the detail is that error's own text.
    pub fn message(&self) -> (text: String)
        ensures
            match self.detail() {
                Some(detail) => text@ == self.lead() + detail,
                None => self.lead().is_prefix_of(text@),
            },
    {
        match self {
            DatabaseError::ConnectionFailed(detail) => lead_and_detail(
                "Connection failed: ",
                detail.as_str(),
            ),
            DatabaseError::ConfigurationError(detail) => lead_and_detail(
                "Configuration error: ",
                detail.as_str(),
            ),
            DatabaseError::QueryFailed(detail) => lead_and_detail(
                "Query execution failed: ",
                detail.as_str(),
            ),
            DatabaseError::SerializationError(detail) => lead_and_detail(
                "Serialization error: ",
                detail.as_str(),
            ),
            DatabaseError::TimeRangeError(detail) => lead_and_detail(
                "Time range error: ",
                detail.as_str(),
            ),
            DatabaseError::SensorNotFound(detail) => lead_and_detail(
                "Sensor not found: ",
                detail.as_str(),
            ),
            DatabaseError::InvalidDataFormat(detail) => lead_and_detail(
                "Invalid data format: ",
                detail.as_str(),
            ),
            DatabaseError::TransactionFailed(detail) => lead_and_detail(
                "Transaction failed: ",
                detail.as_str(),
            ),
            DatabaseError::ConnectionTimeout { timeout_secs } => {
                let text = timeout_text("Connection timeout after ", *timeout_secs);
                assert(text@ =~= self.lead() + self.detail()->Some_0);
                text
            },
            DatabaseError::QueryTimeout { timeout_secs } => {
                let text = timeout_text("Query timeout after ", *timeout_secs);
                assert(text@ =~= self.lead() + self.detail()->Some_0);
                text
            },
            DatabaseError::DatabaseUnavailable { reason } => lead_and_detail(
                "Database not available: ",
                reason.as_str(),
            ),
            DatabaseError::FeatureNotSupported { feature } => lead_and_detail(
                "Feature not supported by backend: ",
                feature.as_str(),
            ),
            DatabaseError::IoError(error) => {
                let detail = io_error_text(error);
                lead_and_detail("IO error: ", detail.as_str())
            },
            DatabaseError::JsonError(error) => {
                let detail = json_error_text(error);
                lead_and_detail("JSON error: ", detail.as_str())
            },
            DatabaseError::Other(error) => {
                let detail = other_error_text(error);
                lead_and_detail("Other error: ", detail.as_str())
            },
        }
    }

    /// Whether the operation may succeed when it is tried again: after a
    /// timeout of the connection or of the query, and while the database is
    /// unavailable.
    pub fn is_retryable(&self) -> (retryable: bool)
        ensures
            retryable == (self is ConnectionTimeout || self is QueryTimeout
                || self is DatabaseUnavailable),
    {
        match self {
            DatabaseError::ConnectionTimeout { .. } => true,
            DatabaseError::QueryTimeout { .. } => true,
            DatabaseError::DatabaseUnavailable { .. } => true,
            _ => false,
        }
    }

    /// Whether the error lies in the connection: it failed, it timed out, or
    /// the database is unavailable.
    pub fn is_connection_error(&self) -> (connection: bool)
        ensures
            connection == (self is ConnectionFailed || self is ConnectionTimeout
                || self is DatabaseUnavailable),
    {
        match self {
            DatabaseError::ConnectionFailed(_) => true,
            DatabaseError::ConnectionTimeout { .. } => true,
            DatabaseError::DatabaseUnavailable { .. } => true,
            _ => false,
        }
    }
}

impl From<std::io::Error> for DatabaseError {
    fn from(error: std::io::Error) -> (wrapped: DatabaseError) {
        DatabaseError::IoError(error)
    }
}

impl FromSpecImpl<std::io::Error> for DatabaseError {
    open spec fn obeys_from_spec() -> bool {
        true
    }

    open spec fn from_spec(error: std::io::Error) -> DatabaseError {
        DatabaseError::IoError(error)
    }
}

impl From<serde_json::Error> for DatabaseError {
    fn from(error: serde_json::Error) -> (wrapped: DatabaseError) {
        DatabaseError::JsonError(error)
    }
}

impl FromSpecImpl<serde_json::Error> for DatabaseError {
    open spec fn obeys_from_spec() -> bool {
        true
    }

    open spec fn from_spec(error: serde_json::Error) -> DatabaseError {
        DatabaseError::JsonError(error)
    }
}

impl From<anyhow::Error> for DatabaseError {
    fn from(error: anyhow::Error) -> (wrapped: DatabaseError) {
        DatabaseError::Other(error)
    }
}

impl FromSpecImpl<anyhow::Error> for DatabaseError {
    open spec fn obeys_from_spec() -> bool {
        true
    }

    open spec fn from_spec(error: anyhow::Error) -> DatabaseError {
        DatabaseError::Other(error)
    }
}

} // verus!
