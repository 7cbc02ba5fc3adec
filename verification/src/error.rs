//! The error type shared by the LAN and cloud clients.
use vstd::prelude::*;
use vstd::string::*;
use crate::text::{decimal, push_decimal};

verus! {

/// `std::io::Error`, carried through as it came from the socket.
#[verifier::external_type_specification]
#[verifier::external_body]
pub struct ExIoError(std::io::Error);

/// `serde_json::Error`, carried through as it came from the decoder.
#[verifier::external_type_specification]
#[verifier::external_body]
pub struct ExJsonError(serde_json::Error);

/// `reqwest::Error`, carried through as it came from the HTTP client.
#[verifier::external_type_specification]
#[verifier::external_body]
pub struct ExHttpError(reqwest::Error);

#[derive(Debug)]
pub enum GoveeError {
    Network(std::io::Error),
    Http(reqwest::Error),
    Json(serde_json::Error),
    DeviceNotFound(String),
    InvalidBrightness { value: u8 },
    InvalidColorTemp { value: u16 },
    ApiError { status: u16, message: String },
    Timeout,
}

/// The text of an I/O error, as its `Display` writes it.
/// Nothing is stated of it: it may carry the operating system's message.
#[verifier::external_body]
fn io_error_text(e: &std::io::Error) -> String {
    e.to_string()
}

/// The text of an HTTP client error, as `reqwest::Error`'s `Display` writes it.
/// Nothing is stated of it: the error's contents are not visible here.
#[verifier::external_body]
fn http_error_text(e: &reqwest::Error) -> String {
    e.to_string()
}

/// The text of a JSON error, as `serde_json::Error`'s `Display` writes it.
/// Nothing is stated of it: the error's contents are not visible here.
#[verifier::external_body]
fn json_error_text(e: &serde_json::Error) -> String {
    e.to_string()
}

/// For an error that carries an outside error, the start of its message;
/// the rest is the outside error's own text.
pub open spec fn message_prefix(e: GoveeError) -> Option<Seq<char>> {
    match e {
        GoveeError::Network(_) => Some("network error: "@),
        GoveeError::Http(_) => Some("HTTP error: "@),
        GoveeError::Json(_) => Some("JSON error: "@),
        _ => None,
    }
}

/// The message of an error that carries no outside error.
pub open spec fn own_message(e: GoveeError) -> Seq<char> {
    match e {
        GoveeError::DeviceNotFound(m) => "device not found: "@ + m@,
        GoveeError::InvalidBrightness { value } => "invalid brightness "@ + decimal(value as nat)
            + ": must be 1\u{2013}100"@,
        GoveeError::InvalidColorTemp { value } => "invalid color temperature "@ + decimal(value as nat)
            + "K: must be 2000\u{2013}9000"@,
        GoveeError::ApiError { status, message } => "API error ("@ + decimal(status as nat) + "): "@
            + message@,
        GoveeError::Timeout => "timeout waiting for device response"@,
        _ => Seq::empty(),
    }
}

impl GoveeError {
    /// The error's message as it is shown to the user.
    pub fn message(&self) -> (m: String)
        ensures
            match message_prefix(*self) {
                Some(p) => p.is_prefix_of(m@),
                None => m@ == own_message(*self),
            },
    {
        let mut m = String::new();
        match self {
            GoveeError::Network(e) => {
                m.append("network error: ");
                let t = io_error_text(e);
                m.append(t.as_str());
            },
            GoveeError::Http(e) => {
                m.append("HTTP error: ");
                let t = http_error_text(e);
                m.append(t.as_str());
            },
            GoveeError::Json(e) => {
                m.append("JSON error: ");
                let t = json_error_text(e);
                m.append(t.as_str());
            },
            GoveeError::DeviceNotFound(d) => {
                m.append("device not found: ");
                m.append(d.as_str());
            },
            GoveeError::InvalidBrightness { value } => {
                m.append("invalid brightness ");
                push_decimal(&mut m, *value as u64);
                m.append(": must be 1\u{2013}100");
            },
            GoveeError::InvalidColorTemp { value } => {
                m.append("invalid color temperature ");
                push_decimal(&mut m, *value as u64);
                m.append("K: must be 2000\u{2013}9000");
            },
            GoveeError::ApiError { status, message } => {
                m.append("API error (");
                push_decimal(&mut m, *status as u64);
                m.append("): ");
                m.append(message.as_str());
            },
            GoveeError::Timeout => {
                m.append("timeout waiting for device response");
            },
        }
        proof {
            match message_prefix(*self) {
                Some(p) => {
                    assert(p.is_prefix_of(m@));
                },
                None => {
                    assert(m@ =~= own_message(*self));
                },
            }
        }
        m
    }
}

pub type Result<T> = std::result::Result<T, GoveeError>;

} // verus!
