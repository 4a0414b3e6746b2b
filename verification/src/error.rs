//! The library's error type. Outside failures (file reads, YAML parsing,
//! server startup) are handed in as plain messages by the caller.

use vstd::prelude::*;
use vstd::string::*;

verus! {

/// One error of the proxy core, with the message that describes it.
#[derive(Debug)]
pub enum TppError {
    /// The configuration is unusable.
    Config(String),
    /// Token acquisition or pool handling failed.
    TokenPool(String),
    /// An I/O failure, reported by the caller as text.
    Io(String),
    /// A YAML parse failure, reported by the caller as text.
    Yaml(String),
    /// Server initialization failed.
    ServerInit(String),
}

impl TppError {
    /// The message carried by this error, without its category prefix.
    pub fn message(&self) -> (r: &String)
        ensures
            r@ == self.message_view(),
    {
        match self {
            TppError::Config(m) => m,
            TppError::TokenPool(m) => m,
            TppError::Io(m) => m,
            TppError::Yaml(m) => m,
            TppError::ServerInit(m) => m,
        }
    }

    /// The message carried by this error, as a sequence of characters.
    pub open spec fn message_view(&self) -> Seq<char> {
        match self {
            TppError::Config(m) => m@,
            TppError::TokenPool(m) => m@,
            TppError::Io(m) => m@,
            TppError::Yaml(m) => m@,
            TppError::ServerInit(m) => m@,
        }
    }

    /// The category prefix that the error renders with.
    pub open spec fn prefix_view(&self) -> Seq<char> {
        match self {
            TppError::Config(_) => "Configuration error: "@,
            TppError::TokenPool(_) => "Token pool error: "@,
            TppError::Io(_) => "IO error: "@,
            TppError::Yaml(_) => "YAML parse error: "@,
            TppError::ServerInit(_) => "Server initialization error: "@,
        }
    }

    /// Renders the error as `<category>: <message>`.
    pub fn describe(&self) -> (r: String)
        ensures
            r@ == self.prefix_view() + self.message_view(),
    {
        let prefix: &str = match self {
            TppError::Config(_) => "Configuration error: ",
            TppError::TokenPool(_) => "Token pool error: ",
            TppError::Io(_) => "IO error: ",
            TppError::Yaml(_) => "YAML parse error: ",
            TppError::ServerInit(_) => "Server initialization error: ",
        };
        let mut s = prefix.to_owned();
        s.append(self.message().as_str());
        s
    }
}

} // verus!
