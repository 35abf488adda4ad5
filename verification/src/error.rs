//! Everything that can go wrong in the relay, and how each failure turns
//! into an HTTP status code and a readable message.
//!
//! `MissingEnvVar`, `InvalidPort` and `InvalidSmtpServer` arise while the
//! process comes up and are meant to stop it. The rest belong to a single
//! request: `Unauthorized` surfaces as 401, `Validation` as 400, and
//! everything else as 500.

use vstd::prelude::*;
use vstd::string::StringExecFns;

use crate::service::RelayResponse;

verus! {

/// Every failure the relay can report, with the detail that its message
/// carries. Variants that wrap an upstream failure hold that failure's
/// description as a plain string.
#[derive(Debug, Clone)]
pub enum RelayError {
    /// A required environment setting was absent at startup; holds its name.
    MissingEnvVar(String),
    /// An internal invariant failed; holds a description.
    InternalServerError(String),
    /// A numeric setting did not parse at startup; holds a description.
    InvalidPort(String),
    /// The configured SMTP host could not be turned into a transport.
    InvalidSmtpServer,
    /// A sender or recipient address was rejected at send time.
    InvalidEmail(String),
    /// The message could not be constructed; holds the builder's description.
    EmailBuild(String),
    /// The upstream transport failed; holds the transport's description.
    EmailSend(String),
    /// A request field failed validation; holds a field-identifying message.
    Validation(String),
    /// The bearer token did not match the configured API key.
    Unauthorized,
}

impl RelayError {
    /// The HTTP status this error surfaces as: 401 for an authorization
    /// failure, 400 for a validation failure, 500 for everything else.
    pub open spec fn spec_status_code(&self) -> u16 {
        match self {
            RelayError::Unauthorized => 401,
            RelayError::Validation(_) => 400,
            _ => 500,
        }
    }

    /// The message the response envelope carries for this error.
    pub open spec fn spec_message(&self) -> Seq<char> {
        match self {
            RelayError::MissingEnvVar(name) => "missing environment variable: "@ + name@,
            RelayError::InternalServerError(d) => "internal server error: "@ + d@,
            RelayError::InvalidPort(d) => "invalid port configuration: "@ + d@,
            RelayError::InvalidSmtpServer => "invalid SMTP server configuration"@,
            RelayError::InvalidEmail(d) => "invalid email address: "@ + d@,
            RelayError::EmailBuild(d) => "failed to build email message: "@ + d@,
            RelayError::EmailSend(d) => "failed to send email: "@ + d@,
            RelayError::Validation(d) => "validation error: "@ + d@,
            RelayError::Unauthorized => "invalid api key"@,
        }
    }

    /// The HTTP status code for this error.
    pub fn status_code(&self) -> (code: u16)
        ensures
            code == self.spec_status_code(),
    {
        match self {
            RelayError::Unauthorized => 401,
            RelayError::Validation(_) => 400,
            _ => 500,
        }
    }

    /// The human-readable description of this error, safe to surface to the
    /// caller.
    pub fn message(&self) -> (m: String)
        ensures
            m@ == self.spec_message(),
    {
        match self {
            RelayError::MissingEnvVar(name) => {
                "missing environment variable: ".to_owned().concat(name.as_str())
            },
            RelayError::InternalServerError(d) => {
                "internal server error: ".to_owned().concat(d.as_str())
            },
            RelayError::InvalidPort(d) => {
                "invalid port configuration: ".to_owned().concat(d.as_str())
            },
            RelayError::InvalidSmtpServer => "invalid SMTP server configuration".to_owned(),
            RelayError::InvalidEmail(d) => "invalid email address: ".to_owned().concat(d.as_str()),
            RelayError::EmailBuild(d) => {
                "failed to build email message: ".to_owned().concat(d.as_str())
            },
            RelayError::EmailSend(d) => "failed to send email: ".to_owned().concat(d.as_str()),
            RelayError::Validation(d) => "validation error: ".to_owned().concat(d.as_str()),
            RelayError::Unauthorized => "invalid api key".to_owned(),
        }
    }

    /// The whole response this error surfaces as: its status code and the
    /// failure envelope carrying its message.
    pub fn to_response(&self) -> (r: (u16, RelayResponse))
        ensures
            r.0 == self.spec_status_code(),
            r.1.success == false,
            r.1.message@ == self.spec_message(),
    {
        let status = self.status_code();
        let message = self.message();
        (status, RelayResponse { success: false, message })
    }
}

} // verus!
