//! Error taxonomy of a completion call, and the human-readable message each
//! error carries to the UI boundary.
//!
//! Malformed frames inside the event stream are recoverable per line and
//! never become a value of this type; cancellation is silent early
//! termination and is likewise no error.

use vstd::prelude::*;

verus! {

/// Terminal failure of one completion call.
#[derive(Debug, Clone)]
pub enum GenerationError {
    /// Missing credential, endpoint or model path: reported before any
    /// network or model work begins.
    ConfigError { message: String },
    /// Bad model path, corrupt model, or backend initialization failure.
    ModelLoadError { message: String },
    /// Context allocation, tokenization, batch or decode failure during
    /// local generation.
    ContextError { message: String },
    /// Network failure (`status` absent) or a non-success HTTP status with
    /// the response body verbatim (`status` present).
    TransportError { status: Option<u16>, message: String },
}

/// The decimal digits of `n`, most significant first.
pub open spec fn spec_dec_u64(n: nat) -> Seq<char>
    decreases n,
{
    if n < 10 {
        spec_digit(n)
    } else {
        spec_dec_u64(n / 10) + spec_digit(n % 10)
    }
}

/// One decimal digit as a one-character sequence.
pub open spec fn spec_digit(d: nat) -> Seq<char> {
    if d == 0 {
        "0"@
    } else if d == 1 {
        "1"@
    } else if d == 2 {
        "2"@
    } else if d == 3 {
        "3"@
    } else if d == 4 {
        "4"@
    } else if d == 5 {
        "5"@
    } else if d == 6 {
        "6"@
    } else if d == 7 {
        "7"@
    } else if d == 8 {
        "8"@
    } else {
        "9"@
    }
}

fn digit_str(d: u64) -> (s: &'static str)
    requires
        d < 10,
    ensures
        s@ == spec_digit(d as nat),
{
    if d == 0 {
        "0"
    } else if d == 1 {
        "1"
    } else if d == 2 {
        "2"
    } else if d == 3 {
        "3"
    } else if d == 4 {
        "4"
    } else if d == 5 {
        "5"
    } else if d == 6 {
        "6"
    } else if d == 7 {
        "7"
    } else if d == 8 {
        "8"
    } else {
        "9"
    }
}

/// Renders `n` in decimal.
pub fn dec_u64(n: u64) -> (s: String)
    ensures
        s@ == spec_dec_u64(n as nat),
    decreases n,
{
    if n < 10 {
        digit_str(n).to_owned()
    } else {
        let mut s = dec_u64(n / 10);
        s.append(digit_str(n % 10));
        s
    }
}

impl GenerationError {
    /// The human-readable message of this error, as the UI boundary shows it.
    pub open spec fn spec_message(self) -> Seq<char> {
        match self {
            GenerationError::ConfigError { message } => message@,
            GenerationError::ModelLoadError { message } => message@,
            GenerationError::ContextError { message } => message@,
            GenerationError::TransportError { status, message } => match status {
                Some(code) => "API error "@ + spec_dec_u64(code as nat) + ": "@ + message@,
                None => "Stream error: "@ + message@,
            },
        }
    }

    /// Renders the error for the UI boundary. A status-bearing transport
    /// error shows the status code and the response body verbatim.
    pub fn message(&self) -> (s: String)
        ensures
            s@ == self.spec_message(),
    {
        match self {
            GenerationError::ConfigError { message } => message.clone(),
            GenerationError::ModelLoadError { message } => message.clone(),
            GenerationError::ContextError { message } => message.clone(),
            GenerationError::TransportError { status, message } => match status {
                Some(code) => {
                    let mut s = "API error ".to_owned();
                    s.append(dec_u64(*code as u64).as_str());
                    s.append(": ");
                    s.append(message.as_str());
                    s
                },
                None => {
                    let mut s = "Stream error: ".to_owned();
                    s.append(message.as_str());
                    s
                },
            },
        }
    }
}

} // verus!
