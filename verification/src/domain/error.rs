//! Domain and application errors.
use vstd::prelude::*;

use crate::text::{push_str, string_from_chars};

verus! {

/// The errors of the application. Errors that arise in outside code (I/O, the
/// network) carry that code's message.
#[derive(Debug, Clone)]
pub enum AppError {
    CoreProcess(String),
    Api(String),
    SubParse(String),
    CircuitBreakerTripped,
    AdminPrivilegeRequired,
    Io(String),
    Network(String),
    Generic(String),
}

/// The message of an error, as shown to the user.
pub open spec fn error_message(e: AppError) -> Seq<char> {
    match e {
        AppError::CoreProcess(s) => "Core process error: "@ + s@,
        AppError::Api(s) => "REST API error: "@ + s@,
        AppError::SubParse(s) => "Subscription parse error: "@ + s@,
        AppError::CircuitBreakerTripped => "All nodes are dead or sleeping. Standby circuit-breaker activated."@,
        AppError::AdminPrivilegeRequired => "Permission denied: Administrator privileges required for Wintun TUN adapter."@,
        AppError::Io(s) => "System I/O error: "@ + s@,
        AppError::Network(s) => "Network request failed: "@ + s@,
        AppError::Generic(s) => "Generic error: "@ + s@,
    }
}

impl AppError {
    /// The message of the error, as shown to the user.
    pub fn message(&self) -> (r: String)
        ensures
            r@ == error_message(*self),
    {
        let mut out: Vec<char> = Vec::new();
        match self {
            AppError::CoreProcess(s) => {
                push_str(&mut out, "Core process error: ");
                push_str(&mut out, s.as_str());
            },
            AppError::Api(s) => {
                push_str(&mut out, "REST API error: ");
                push_str(&mut out, s.as_str());
            },
            AppError::SubParse(s) => {
                push_str(&mut out, "Subscription parse error: ");
                push_str(&mut out, s.as_str());
            },
            AppError::CircuitBreakerTripped => {
                push_str(&mut out, "All nodes are dead or sleeping. Standby circuit-breaker activated.");
            },
            AppError::AdminPrivilegeRequired => {
                push_str(
                    &mut out,
                    "Permission denied: Administrator privileges required for Wintun TUN adapter.",
                );
            },
            AppError::Io(s) => {
                push_str(&mut out, "System I/O error: ");
                push_str(&mut out, s.as_str());
            },
            AppError::Network(s) => {
                push_str(&mut out, "Network request failed: ");
                push_str(&mut out, s.as_str());
            },
            AppError::Generic(s) => {
                push_str(&mut out, "Generic error: ");
                push_str(&mut out, s.as_str());
            },
        }
        proof {
            assert(out@ =~= error_message(*self));
        }
        string_from_chars(&out)
    }
}

} // verus!
