//! The client's configuration: the one remote address it connects to.

use vstd::prelude::*;
use vstd::string::StringExecFns;

verus! {

/// What `url::Url::parse` makes of an input: the serialization of the parsed
/// URL, or the text of the parse error.
pub uninterp spec fn parsed_url(input: Seq<char>) -> Result<Seq<char>, Seq<char>>;

/// What parsing an address as an `http::Uri` yields: the text of the parsed
/// URI, which is the request target, or the text of the error.
pub uninterp spec fn parsed_request_target(address: Seq<char>) -> Result<Seq<char>, Seq<char>>;

/// Calls `url::Url::parse` and hands back the URL's serialization, or the
/// error's text. The outcome depends on the input alone.
#[verifier::external_body]
fn parse_url(input: &str) -> (parsed: Result<String, String>)
    ensures
        match parsed {
            Ok(serialization) => parsed_url(input@) == Ok::<Seq<char>, Seq<char>>(serialization@),
            Err(reason) => parsed_url(input@) == Err::<Seq<char>, Seq<char>>(reason@),
        },
{
    match url::Url::parse(input) {
        Ok(url) => Ok(String::from(url)),
        Err(error) => Err(error.to_string()),
    }
}

/// Calls `str::parse::<http::Uri>`, which is `http::Uri::from_str`, and hands
/// back the text of the parsed URI, or the error's text. The outcome depends
/// on the address alone.
#[verifier::external_body]
fn parse_request_target(address: &str) -> (parsed: Result<String, String>)
    ensures
        match parsed {
            Ok(target) => parsed_request_target(address@) == Ok::<Seq<char>, Seq<char>>(target@),
            Err(reason) => parsed_request_target(address@) == Err::<Seq<char>, Seq<char>>(reason@),
        },
{
    match address.parse::<tokio_tungstenite::tungstenite::http::Uri>() {
        Ok(uri) => Ok(uri.to_string()),
        Err(error) => Err(error.to_string()),
    }
}

/// Why a configuration was refused.
#[derive(Debug, PartialEq, Eq)]
pub enum ConfigError {
    /// The server address is no valid URL; the parser's words are attached.
    InvalidUrl(String),
}

impl ConfigError {
    /// The parser's words.
    pub open spec fn reason(&self) -> Seq<char> {
        match self {
            ConfigError::InvalidUrl(reason) => reason@,
        }
    }

    /// The text of the error, for whoever reports it.
    pub fn message(&self) -> (text: &str)
        ensures
            text@ == self.reason(),
    {
        match self {
            ConfigError::InvalidUrl(reason) => reason.as_str(),
        }
    }
}

/// Why an endpoint could not be turned into a request target.
#[derive(Debug, PartialEq, Eq)]
pub struct AddressParseError {
    /// The parser's words.
    pub reason: String,
}

/// The validated address of the remote server. Its text is the normalized
/// serialization of a URL, fixed once the configuration is loaded.
#[derive(Debug, PartialEq, Eq)]
pub struct Endpoint {
    address: String,
}

impl View for Endpoint {
    type V = Seq<char>;

    closed spec fn view(&self) -> Seq<char> {
        self.address@
    }
}

impl Endpoint {
    /// The address is the serialization of some input that parses as a URL.
    pub open spec fn validated(&self) -> bool {
        exists|input: Seq<char>| #[trigger] parsed_url(input) == Ok::<Seq<char>, Seq<char>>(self@)
    }

    /// Every endpoint is validated: there is no other way to make one.
    #[verifier::type_invariant]
    spec fn made_by_parsing(self) -> bool {
        self.validated()
    }

    /// Parses an address. Succeeds exactly on the inputs that are URLs; the
    /// endpoint then holds the URL's serialization.
    pub fn parse(input: &str) -> (parsed: Result<Endpoint, ConfigError>)
        ensures
            match parsed {
                Ok(endpoint) => parsed_url(input@) == Ok::<Seq<char>, Seq<char>>(endpoint@)
                    && endpoint.validated(),
                Err(error) => parsed_url(input@) == Err::<Seq<char>, Seq<char>>(error.reason()),
            },
    {
        match parse_url(input) {
            Ok(address) => Ok(Endpoint { address }),
            Err(reason) => Err(ConfigError::InvalidUrl(reason)),
        }
    }

    /// The address as text; it is the serialization of a URL.
    pub fn as_str(&self) -> (text: &str)
        ensures
            text@ == self@,
            self.validated(),
    {
        proof {
            use_type_invariant(self);
        }
        self.address.as_str()
    }

    /// Turns the endpoint into the target of a connection request. Succeeds
    /// exactly where the address parses as a URI; the target is then the
    /// text of that URI.
    pub fn request_target(&self) -> (target: Result<String, AddressParseError>)
        ensures
            match target {
                Ok(text) => parsed_request_target(self@) == Ok::<Seq<char>, Seq<char>>(text@),
                Err(error) => parsed_request_target(self@) == Err::<Seq<char>, Seq<char>>(
                    error.reason@,
                ),
            },
    {
        match parse_request_target(self.address.as_str()) {
            Ok(text) => Ok(text),
            Err(reason) => Err(AddressParseError { reason }),
        }
    }
}

/// Turns the text met while reading a configuration into an endpoint.
pub struct UrlVisitor;

impl UrlVisitor {
    /// What the visitor accepts, for the message of a type mismatch.
    pub fn expecting(&self) -> (description: String)
        ensures
            description@ == "a valid URL string"@,
    {
        String::from_str("a valid URL string")
    }

    /// Parses the text as a URL.
    pub fn visit_str(self, value: &str) -> (visited: Result<Endpoint, ConfigError>)
        ensures
            match visited {
                Ok(endpoint) => parsed_url(value@) == Ok::<Seq<char>, Seq<char>>(endpoint@)
                    && endpoint.validated(),
                Err(error) => parsed_url(value@) == Err::<Seq<char>, Seq<char>>(error.reason()),
            },
    {
        Endpoint::parse(value)
    }
}

/// Reads the server address of a configuration from its text.
pub fn deserialize_url(value: &str) -> (read: Result<Endpoint, ConfigError>)
    ensures
        match read {
            Ok(endpoint) => parsed_url(value@) == Ok::<Seq<char>, Seq<char>>(endpoint@)
                && endpoint.validated(),
            Err(error) => parsed_url(value@) == Err::<Seq<char>, Seq<char>>(error.reason()),
        },
{
    UrlVisitor.visit_str(value)
}

/// The settings that a client is started with.
#[derive(Debug, PartialEq, Eq)]
pub struct Config {
    /// Address of the remote server.
    pub server_url: Endpoint,
}

impl Config {
    /// Builds the configuration from the text of its one field. Fails exactly
    /// where the text is no URL.
    pub fn from_server_url(value: &str) -> (loaded: Result<Config, ConfigError>)
        ensures
            match loaded {
                Ok(config) => parsed_url(value@) == Ok::<Seq<char>, Seq<char>>(config.server_url@)
                    && config.server_url.validated(),
                Err(error) => parsed_url(value@) == Err::<Seq<char>, Seq<char>>(error.reason()),
            },
    {
        match deserialize_url(value) {
            Ok(server_url) => Ok(Config { server_url }),
            Err(error) => Err(error),
        }
    }
}

} // verus!
