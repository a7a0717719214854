mod json;
mod local;
mod normalize;
mod remote;

pub use json::JsonValue;
pub use json::ResultMap;
pub use json::json_obj_of;
pub use local::Client;
pub use local::MediaType;
pub use local::format_arg;
pub use local::java_bin;
pub use local::mime_of;
pub use normalize::lemma_metadata_round_trip;
pub use normalize::local_metadata_norm;
pub use normalize::mime_norm;
pub use normalize::process_output;
pub use normalize::remote_metadata_norm;
pub use normalize::string_field;
pub use normalize::text_result;
pub use remote::DataFetch;
pub use remote::RemoteClient;
pub use remote::RequestPlan;
pub use remote::url_join_of;
use vstd::prelude::*;

verus! {

/// Which of the four extraction operations a request performs. A `Format`
/// selects exactly one request shape and one response-normalization rule.
#[derive(Clone, Copy, Debug, PartialEq, Eq, Structural)]
pub enum Format {
    Html,
    Text,
    Mime,
    Metadata,
}

/// The failure taxonomy of the client: every operation either fully succeeds
/// or surfaces exactly one of these to the caller.
#[derive(Clone, Copy, Debug, PartialEq, Eq, Structural)]
pub enum Error {
    /// A malformed URL, MIME type, or JSON body.
    ParseError,
    /// The engine subprocess failed to spawn.
    ProcessError,
    /// Non-UTF8 subprocess output, or a network failure.
    TransportError,
    /// A remote accessor was invoked with no input set.
    InputNotSetError,
    /// An expected field was absent, or had the wrong type, in normalized output.
    MissingContentError,
    /// A file or scratch-directory read or write failed.
    IoError,
}

impl Error {
    /// A short human-readable description of the failure kind.
    pub fn message(&self) -> (r: &'static str)
        ensures
            self is ParseError ==> r@ == "parse error"@,
            self is ProcessError ==> r@ == "error spawning engine process"@,
            self is TransportError ==> r@ == "transport error"@,
            self is InputNotSetError ==> r@ == "input not set"@,
            self is MissingContentError ==> r@ == "missing or empty content"@,
            self is IoError ==> r@ == "i/o error"@,
    {
        match self {
            Error::ParseError => "parse error",
            Error::ProcessError => "error spawning engine process",
            Error::TransportError => "transport error",
            Error::InputNotSetError => "input not set",
            Error::MissingContentError => "missing or empty content",
            Error::IoError => "i/o error",
        }
    }
}

/// The serialized form that a string takes when read as an absolute URL, or
/// `None` when it is not a well-formed absolute URL.
pub uninterp spec fn url_normal_of(s: Seq<char>) -> Option<Seq<char>>;

/// Relies on url::Url::parse and url::Url::as_str: a string parses to at
/// most one URL, whose serialization depends on the string alone.
#[verifier::external_body]
pub(crate) fn parse_url_str(s: &str) -> (r: Option<String>)
    ensures
        r is Some <==> url_normal_of(s@) is Some,
        r matches Some(t) ==> url_normal_of(s@) == Some(t@),
{
    match url::Url::parse(s) {
        Ok(u) => Some(u.as_str().to_owned()),
        Err(_) => None,
    }
}

/// A validated absolute URL, held in its serialized form.
#[derive(Debug, PartialEq)]
pub struct UrlStr {
    serialized: String,
}

impl View for UrlStr {
    type V = Seq<char>;

    closed spec fn view(&self) -> Seq<char> {
        self.serialized@
    }
}

impl UrlStr {
    /// Read a string as an absolute URL; a string that is not one is
    /// rejected at construction time.
    pub fn parse(s: &str) -> (r: Result<UrlStr, Error>)
        ensures
            r is Ok <==> url_normal_of(s@) is Some,
            r matches Ok(u) ==> Some(u@) == url_normal_of(s@),
            r is Err ==> r == Err::<UrlStr, Error>(Error::ParseError),
    {
        match parse_url_str(s) {
            Some(t) => Ok(UrlStr { serialized: t }),
            None => Err(Error::ParseError),
        }
    }

    /// The URL in its serialized form.
    pub fn as_str(&self) -> (r: &str)
        ensures
            r@ == self@,
    {
        self.serialized.as_str()
    }
}

impl Clone for UrlStr {
    fn clone(&self) -> (r: Self)
        ensures
            r == *self,
    {
        UrlStr { serialized: self.serialized.clone() }
    }
}

/// What to extract from: a local file, opaque until read, or a validated
/// absolute URL. Construction from a path always succeeds; the model exposes
/// no behavior beyond identity.
#[derive(Debug, PartialEq)]
pub enum Input {
    FilePath(String),
    Url(UrlStr),
}

impl Clone for Input {
    fn clone(&self) -> (r: Self)
        ensures
            r == *self,
    {
        match self {
            Input::FilePath(p) => Input::FilePath(p.clone()),
            Input::Url(u) => Input::Url(u.clone()),
        }
    }
}

/// The single string an input resolves to when handed to the engine: the
/// file path itself, or the URL's serialized form.
pub open spec fn source_view(i: Input) -> Seq<char> {
    match i {
        Input::FilePath(p) => p@,
        Input::Url(u) => u@,
    }
}

} // verus!
