use crate::Error;
use crate::Format;
use crate::Input;
use crate::UrlStr;
use crate::json::JsonValue;
use crate::json::ResultMap;
use crate::json::json_obj_of;
use crate::json::parse_json_object;
use crate::normalize::remote_metadata_norm;
use crate::normalize::string_field;
use vstd::prelude::*;

verus! {

/// The URL that resolving a relative path against a serialized base URL
/// yields, or `None` when the resolution fails.
pub uninterp spec fn url_join_of(base: Seq<char>, path: Seq<char>) -> Option<Seq<char>>;

/// Relies on url::Url::parse and url::Url::join: resolving a relative path
/// against a serialized base URL yields at most one URL, a function of the
/// two strings alone.
#[verifier::external_body]
fn join_url_str(base: &str, path: &str) -> (r: Option<String>)
    ensures
        r is Some <==> url_join_of(base@, path@) is Some,
        r matches Some(t) ==> url_join_of(base@, path@) == Some(t@),
{
    match url::Url::parse(base) {
        Ok(u) => match u.join(path) {
            Ok(j) => Some(j.as_str().to_owned()),
            Err(_) => None,
        },
        Err(_) => None,
    }
}

/// The service path of a format: text and HTML extraction have paths of
/// their own, while the MIME and metadata operations share one and differ
/// only in downstream filtering.
pub open spec fn request_path(format: Format) -> Seq<char> {
    match format {
        Format::Html => "tika/html"@,
        Format::Text => "tika/text"@,
        Format::Mime => "meta"@,
        Format::Metadata => "meta"@,
    }
}

/// The service path of a format.
pub fn request_path_str(format: Format) -> (r: &'static str)
    ensures
        r@ == request_path(format),
{
    match format {
        Format::Html => "tika/html",
        Format::Text => "tika/text",
        Format::Mime => "meta",
        Format::Metadata => "meta",
    }
}

/// How the current input's bytes are to be fetched: read from disk, or
/// taken from the body of a GET against the input URL.
#[derive(Debug, PartialEq)]
pub enum DataFetch {
    ReadFile(String),
    GetUrl(String),
}

/// Whether a fetch resolves the given input: a file path is read from disk,
/// a URL is fetched over the network.
pub open spec fn fetch_resolves(i: Input, f: DataFetch) -> bool {
    match i {
        Input::FilePath(p) => f matches DataFetch::ReadFile(q) && q@ == p@,
        Input::Url(u) => f matches DataFetch::GetUrl(q) && q@ == u@,
    }
}

/// Everything the transport needs for one extraction call: how to fetch the
/// input bytes, where to PUT them, and the Accept header to send with them.
#[derive(Debug, PartialEq)]
pub struct RequestPlan {
    pub fetch: DataFetch,
    pub put_url: String,
    pub accept: String,
}

/// The engine reached as a remotely hosted service: each extraction call
/// resolves the current input to raw bytes and issues an HTTP PUT with a
/// format-specific path, whose JSON response is normalized into the common
/// result shape.
#[derive(Debug)]
pub struct RemoteClient {
    url: UrlStr,
    input: Option<Input>,
    last_output: Option<ResultMap>,
}

impl RemoteClient {
    /// The service's base address.
    pub closed spec fn base_url(&self) -> Seq<char> {
        self.url@
    }

    /// The current input, if one is set.
    pub closed spec fn input_view(&self) -> Option<Input> {
        self.input
    }

    /// The cached most recent result map, if any.
    pub closed spec fn last_output_view(&self) -> Option<ResultMap> {
        self.last_output
    }

    /// A client of the service at the given base address, with no cached
    /// result.
    pub fn new(url: UrlStr, input: Option<Input>) -> (c: Self)
        ensures
            c.base_url() == url@,
            c.input_view() == input,
            c.last_output_view() is None,
    {
        RemoteClient { url, input, last_output: None }
    }

    /// Replace the current input. Whatever its prior value, any cached
    /// result is invalidated: a new input never sees a stale result.
    pub fn input(&mut self, input: Input)
        ensures
            final(self).input_view() == Some(input),
            final(self).last_output_view() is None,
            final(self).base_url() == old(self).base_url(),
    {
        self.input = Some(input);
        self.last_output = None;
    }

    /// The cached most recent result map, if any.
    pub fn last_result(&self) -> (r: &Option<ResultMap>)
        ensures
            *r == self.last_output_view(),
    {
        &self.last_output
    }

    /// How the current input's bytes are to be fetched. An unset input is
    /// rejected here, before any transport work can fail.
    pub fn data_request(&self) -> (r: Result<DataFetch, Error>)
        ensures
            self.input_view() is None <==> r == Err::<DataFetch, Error>(Error::InputNotSetError),
            self.input_view() matches Some(i) ==> r matches Ok(f) && fetch_resolves(i, f),
    {
        match &self.input {
            Some(Input::FilePath(p)) => Ok(DataFetch::ReadFile(p.clone())),
            Some(Input::Url(u)) => Ok(DataFetch::GetUrl(u.as_str().to_owned())),
            None => Err(Error::InputNotSetError),
        }
    }

    /// Build the transport request for one extraction call: an input must be
    /// set (else the call fails with the input unset, never with a transport
    /// failure), and the format's path must resolve against the base
    /// address.
    pub fn request(&self, format: Format) -> (r: Result<RequestPlan, Error>)
        ensures
            self.input_view() is None ==> r == Err::<RequestPlan, Error>(Error::InputNotSetError),
            self.input_view() is Some && url_join_of(self.base_url(), request_path(format))
                is None ==> r == Err::<RequestPlan, Error>(Error::ParseError),
            self.input_view() matches Some(i) ==> (url_join_of(
                self.base_url(),
                request_path(format),
            ) matches Some(t) ==> (r matches Ok(p) && p.put_url@ == t && p.accept@
                == "application/json"@ && fetch_resolves(i, p.fetch))),
    {
        let fetch = match self.data_request() {
            Ok(f) => f,
            Err(e) => return Err(e),
        };
        let target = match join_url_str(self.url.as_str(), request_path_str(format)) {
            Some(t) => t,
            None => return Err(Error::ParseError),
        };
        Ok(RequestPlan { fetch, put_url: target, accept: "application/json".to_owned() })
    }

    /// Interpret a service response body for an HTML extraction: the body's
    /// JSON object must carry the engine's content key as a string.
    pub fn html(&self, body: &str) -> (r: Result<String, Error>)
        ensures
            json_obj_of(body@) is None ==> r == Err::<String, Error>(Error::ParseError),
            json_obj_of(body@) matches Some(m) && !(m.contains_key("X-TIKA:content"@)
                && m["X-TIKA:content"@] is Str) ==> r == Err::<String, Error>(
                Error::MissingContentError,
            ),
            json_obj_of(body@) matches Some(m) ==> (m.contains_key("X-TIKA:content"@)
                && m["X-TIKA:content"@] is Str ==> r is Ok && (r->Ok_0)@ == (m["X-TIKA:content"@]->Str_0)@),
    {
        response_field(body, "X-TIKA:content")
    }

    /// Interpret a service response body for a text extraction: the body's
    /// JSON object must carry the engine's content key as a string.
    pub fn text(&self, body: &str) -> (r: Result<String, Error>)
        ensures
            json_obj_of(body@) is None ==> r == Err::<String, Error>(Error::ParseError),
            json_obj_of(body@) matches Some(m) && !(m.contains_key("X-TIKA:content"@)
                && m["X-TIKA:content"@] is Str) ==> r == Err::<String, Error>(
                Error::MissingContentError,
            ),
            json_obj_of(body@) matches Some(m) ==> (m.contains_key("X-TIKA:content"@)
                && m["X-TIKA:content"@] is Str ==> r is Ok && (r->Ok_0)@ == (m["X-TIKA:content"@]->Str_0)@),
    {
        response_field(body, "X-TIKA:content")
    }

    /// Interpret a service response body for a MIME-type extraction: the
    /// body's JSON object must carry `Content-Type` as a string.
    pub fn mimetype(&self, body: &str) -> (r: Result<String, Error>)
        ensures
            json_obj_of(body@) is None ==> r == Err::<String, Error>(Error::ParseError),
            json_obj_of(body@) matches Some(m) && !(m.contains_key("Content-Type"@)
                && m["Content-Type"@] is Str) ==> r == Err::<String, Error>(
                Error::MissingContentError,
            ),
            json_obj_of(body@) matches Some(m) ==> (m.contains_key("Content-Type"@)
                && m["Content-Type"@] is Str ==> r is Ok && (r->Ok_0)@ == (m["Content-Type"@]->Str_0)@),
    {
        response_field(body, "Content-Type")
    }

    /// Interpret a service response body for a metadata extraction: the
    /// body must be a JSON object, handed back whole.
    pub fn metadata(&self, body: &str) -> (r: Result<ResultMap, Error>)
        ensures
            r is Ok <==> remote_metadata_norm(body@) is Some,
            r matches Ok(m) ==> Some(m@) == remote_metadata_norm(body@),
            r is Err ==> r == Err::<ResultMap, Error>(Error::ParseError),
    {
        match parse_json_object(body) {
            Some(m) => Ok(m),
            None => Err(Error::ParseError),
        }
    }
}

/// The named string field of a response body's JSON object: absent object,
/// absent field and non-string field are told apart.
fn response_field(body: &str, key: &str) -> (r: Result<String, Error>)
    ensures
        json_obj_of(body@) is None ==> r == Err::<String, Error>(Error::ParseError),
        json_obj_of(body@) matches Some(m) && !(m.contains_key(key@) && m[key@] is Str) ==> r
            == Err::<String, Error>(Error::MissingContentError),
        json_obj_of(body@) matches Some(m) ==> (m.contains_key(key@) && m[key@] is Str
            ==> r is Ok && (r->Ok_0)@ == (m[key@]->Str_0)@),
{
    match parse_json_object(body) {
        Some(m) => string_field(&m, key),
        None => Err(Error::ParseError),
    }
}

} // verus!
