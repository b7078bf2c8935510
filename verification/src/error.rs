//! The library's error type.
use vstd::prelude::*;

verus! {

#[verifier::external_type_specification]
#[verifier::external_body]
pub struct ExIoError(std::io::Error);

#[verifier::external_type_specification]
#[verifier::external_body]
pub struct ExTomlDeError(toml::de::Error);

#[verifier::external_type_specification]
#[verifier::external_body]
pub struct ExTomlSerError(toml::ser::Error);

#[verifier::external_type_specification]
#[verifier::external_body]
pub struct ExJsonError(serde_json::Error);

/// Everything that can go wrong in Wispr.
#[derive(Debug)]
pub enum WisprError {
    Message(String),
    Io(std::io::Error),
    TomlDe(toml::de::Error),
    TomlSer(toml::ser::Error),
    Json(serde_json::Error),
    SecretService(String),
    Dbus(String),
    InvalidState(String),
    Http(String),
}

/// `r` is the outcome `choice` describes.
pub open spec fn gives(r: Result<String>, choice: std::result::Result<Seq<char>, Seq<char>>) -> bool {
    match choice {
        Ok(d) => r matches Ok(p) && p@ == d,
        Err(m) => r matches Err(e) && is_invalid_state(e, m),
    }
}

/// `e` is an invalid-state error carrying `msg`.
pub open spec fn is_invalid_state(e: WisprError, msg: Seq<char>) -> bool {
    e matches WisprError::InvalidState(m) && m@ == msg
}

/// An invalid-state error with the given message.
pub fn invalid_state(msg: &str) -> (e: WisprError)
    ensures
        is_invalid_state(e, msg@),
{
    WisprError::InvalidState(msg.to_owned())
}

/// The library's result type.
pub type Result<T> = std::result::Result<T, WisprError>;


/// The display text of an I/O error (`Display` of `std::io::Error`). It
/// depends on the error's kind and origin: nothing is stated of it.
#[verifier::external_body]
fn io_error_text(e: &std::io::Error) -> (r: String) {
    e.to_string()
}

/// The display text of a TOML parse error (`Display` of
/// `toml::de::Error`). Nothing is stated of it.
#[verifier::external_body]
fn toml_de_error_text(e: &toml::de::Error) -> (r: String) {
    e.to_string()
}

/// The display text of a TOML write error (`Display` of
/// `toml::ser::Error`). Nothing is stated of it.
#[verifier::external_body]
fn toml_ser_error_text(e: &toml::ser::Error) -> (r: String) {
    e.to_string()
}

/// The display text of a JSON error (`Display` of `serde_json::Error`).
/// Nothing is stated of it.
#[verifier::external_body]
fn json_error_text(e: &serde_json::Error) -> (r: String) {
    e.to_string()
}

/// How an error reads: the prefix of its kind, then its message.
pub open spec fn error_prefix(e: WisprError) -> Seq<char> {
    match e {
        WisprError::Message(_) => Seq::empty(),
        WisprError::Io(_) => "i/o error: "@,
        WisprError::TomlDe(_) => "toml deserialize error: "@,
        WisprError::TomlSer(_) => "toml serialize error: "@,
        WisprError::Json(_) => "serde json error: "@,
        WisprError::SecretService(_) => "secret-service error: "@,
        WisprError::Dbus(_) => "dbus error: "@,
        WisprError::InvalidState(_) => "invalid state: "@,
        WisprError::Http(_) => "http error: "@,
    }
}

/// The message an error carries as text, where it carries one.
pub open spec fn error_message(e: WisprError) -> Option<Seq<char>> {
    match e {
        WisprError::Message(m) => Some(m@),
        WisprError::SecretService(m) => Some(m@),
        WisprError::Dbus(m) => Some(m@),
        WisprError::InvalidState(m) => Some(m@),
        WisprError::Http(m) => Some(m@),
        _ => None,
    }
}

impl WisprError {
    /// How the error reads for people: the prefix of its kind followed by
    /// its message, or by the display text of the outside error it wraps.
    pub fn text(&self) -> (r: String)
        ensures
            error_prefix(*self).is_prefix_of(r@),
            error_message(*self) matches Some(m) ==> r@ == error_prefix(*self) + m,
    {
        let r = match self {
            WisprError::Message(m) => crate::text::owned(m.as_str()),
            WisprError::Io(e) => crate::text::concat2("i/o error: ", io_error_text(e).as_str()),
            WisprError::TomlDe(e) => crate::text::concat2("toml deserialize error: ", toml_de_error_text(e).as_str()),
            WisprError::TomlSer(e) => crate::text::concat2("toml serialize error: ", toml_ser_error_text(e).as_str()),
            WisprError::Json(e) => crate::text::concat2("serde json error: ", json_error_text(e).as_str()),
            WisprError::SecretService(m) => crate::text::concat2("secret-service error: ", m.as_str()),
            WisprError::Dbus(m) => crate::text::concat2("dbus error: ", m.as_str()),
            WisprError::InvalidState(m) => crate::text::concat2("invalid state: ", m.as_str()),
            WisprError::Http(m) => crate::text::concat2("http error: ", m.as_str()),
        };
        proof {
            assert(error_prefix(*self).is_prefix_of(r@)) by {
                assert(r@.subrange(0, error_prefix(*self).len() as int) =~= error_prefix(*self));
            }
        }
        r
    }
}

} // verus!
