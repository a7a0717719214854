use crate::Error;
use crate::Format;
use crate::Input;
use crate::json::JsonValue;
use crate::json::ResultMap;
use crate::json::json_obj_of;
use crate::normalize::local_metadata_norm;
use crate::normalize::process_output;
use crate::normalize::string_field;
use crate::normalize::text_result;
use crate::source_view;
use vstd::prelude::*;
use vstd::string::StringExecFns;

verus! {

/// The canonical textual form that a string takes when read as a MIME type
/// (type, subtype and parameter names lowercased), or `None` when it is not
/// a well-formed MIME type.
pub uninterp spec fn mime_of(s: Seq<char>) -> Option<Seq<char>>;

/// Relies on mime::Mime's FromStr and AsRef<str>: a string parses to at most
/// one media type, whose canonical source form depends on the string alone.
#[verifier::external_body]
fn parse_mime(s: &str) -> (r: Option<String>)
    ensures
        r is Some <==> mime_of(s@) is Some,
        r matches Some(t) ==> mime_of(s@) == Some(t@),
{
    match s.parse::<mime::Mime>() {
        Ok(m) => Some(m.as_ref().to_owned()),
        Err(_) => None,
    }
}

/// A parsed MIME type, held in its canonical textual form.
#[derive(Debug, PartialEq)]
pub struct MediaType {
    text: String,
}

impl View for MediaType {
    type V = Seq<char>;

    closed spec fn view(&self) -> Seq<char> {
        self.text@
    }
}

impl MediaType {
    /// The MIME type's canonical textual form.
    pub fn as_str(&self) -> (r: &str)
        ensures
            r@ == self@,
    {
        self.text.as_str()
    }
}

/// The engine invoked through a locally staged artifact: each extraction
/// call resolves to one subprocess invocation whose captured output is
/// normalized into the common result shape. The backend owns a scratch
/// directory holding the staged artifact and the active configuration file.
pub struct Client {
    input: Input,
    ocr: bool,
    scratch_dir: String,
}

/// Which configuration template governs the engine: the OCR-enabled one
/// exactly when OCR was selected at construction.
pub open spec fn config_choice(ocr: bool, ocr_template: Seq<u8>, plain_template: Seq<u8>) -> Seq<
    u8,
> {
    if ocr {
        ocr_template
    } else {
        plain_template
    }
}

/// The flag selecting the engine's output form: HTML, plain text, or JSON
/// (the latter serving both the MIME and the metadata operation).
pub open spec fn format_flag(format: Format) -> Seq<char> {
    match format {
        Format::Html => "-h"@,
        Format::Text => "-t"@,
        Format::Mime => "-j"@,
        Format::Metadata => "-j"@,
    }
}

/// The engine flag for a format.
pub fn format_arg(format: Format) -> (r: &'static str)
    ensures
        r@ == format_flag(format),
{
    match format {
        Format::Html => "-h",
        Format::Text => "-t",
        Format::Mime => "-j",
        Format::Metadata => "-j",
    }
}

/// Resolve the runtime binary: a designated installation's own binary when
/// one is given, the bare command name (left to the system search path)
/// otherwise.
pub fn java_bin(java_home: Option<String>) -> (r: String)
    ensures
        java_home matches Some(h) ==> r@ == h@ + "/bin/java"@,
        java_home is None ==> r@ == "java"@,
{
    match java_home {
        Some(h) => {
            let mut s: String = h;
            s.append("/bin/java");
            s
        },
        None => "java".to_owned(),
    }
}

impl Client {
    /// Whether OCR was selected at construction.
    pub closed spec fn ocr_enabled(&self) -> bool {
        self.ocr
    }

    /// The input this backend extracts from.
    pub closed spec fn input_view(&self) -> Input {
        self.input
    }

    /// The scratch directory staging the artifact and configuration.
    pub closed spec fn scratch_view(&self) -> Seq<char> {
        self.scratch_dir@
    }

    /// The path of the staged engine artifact.
    pub open spec fn jar_path_view(&self) -> Seq<char> {
        self.scratch_view() + "/"@ + "tika-app-2.4.0.jar"@
    }

    /// The path of the active configuration file; one fixed name whatever
    /// the OCR mode, so only one variant is ever present at a time.
    pub open spec fn config_path_view(&self) -> Seq<char> {
        self.scratch_view() + "/"@ + "tika-config.xml"@
    }

    /// A backend over the given input, OCR mode and scratch directory. The
    /// directory is expected to be freshly allocated and exclusively owned.
    pub fn try_new(input: Input, ocr: bool, scratch_dir: String) -> (c: Client)
        ensures
            c.input_view() == input,
            c.ocr_enabled() == ocr,
            c.scratch_view() == scratch_dir@,
    {
        Client { input, ocr, scratch_dir }
    }

    /// The staged artifact's full path, for the `-jar` argument.
    pub fn tmp_jar_cmd(&self) -> (r: String)
        ensures
            r@ == self.jar_path_view(),
    {
        let mut s: String = self.scratch_dir.clone();
        s.append("/");
        s.append("tika-app-2.4.0.jar");
        s
    }

    /// The active configuration file's full path.
    pub fn config_path(&self) -> (r: String)
        ensures
            r@ == self.config_path_view(),
    {
        let mut s: String = self.scratch_dir.clone();
        s.append("/");
        s.append("tika-config.xml");
        s
    }

    /// The configuration bytes to write before an invocation, selected from
    /// the two bundled templates by the OCR mode.
    pub fn config_contents<'a>(&self, ocr_template: &'a [u8], plain_template: &'a [u8]) -> (r:
        &'a [u8])
        ensures
            r@ == config_choice(self.ocr_enabled(), ocr_template@, plain_template@),
    {
        if self.ocr {
            ocr_template
        } else {
            plain_template
        }
    }

    /// The single string handed to the engine as its input source.
    pub fn data_source(&self) -> (r: String)
        ensures
            r@ == source_view(self.input_view()),
    {
        match &self.input {
            Input::FilePath(p) => p.clone(),
            Input::Url(u) => u.as_str().to_owned(),
        }
    }

    /// The engine invocation's argument list, in order: the headless-mode
    /// flag, `-jar`, the staged artifact path, the configuration argument,
    /// the format flag, and the resolved input source.
    pub fn command_args(&self, format: Format) -> (r: Vec<String>)
        ensures
            r@.len() == 6,
            r@[0]@ == "-Djava.awt.headless=true"@,
            r@[1]@ == "-jar"@,
            r@[2]@ == self.jar_path_view(),
            r@[3]@ == "--config="@ + self.config_path_view(),
            r@[4]@ == format_flag(format),
            r@[5]@ == source_view(self.input_view()),
    {
        let mut args: Vec<String> = Vec::new();
        args.push("-Djava.awt.headless=true".to_owned());
        args.push("-jar".to_owned());
        args.push(self.tmp_jar_cmd());
        let mut cfg: String = "--config=".to_owned();
        let path: String = self.config_path();
        cfg.append(path.as_str());
        args.push(cfg);
        args.push(format_arg(format).to_owned());
        args.push(self.data_source());
        args
    }

    /// Interpret captured engine output for a text extraction: the raw text
    /// is wrapped under the well-known key and handed back whole.
    pub fn text(&self, output: String) -> (r: Result<String, Error>)
        ensures
            r matches Ok(s) && s@ == output@,
    {
        let m = match process_output(output, Format::Text) {
            Ok(m) => m,
            Err(e) => return Err(e),
        };
        text_result(&m)
    }

    /// Interpret captured engine output for an HTML extraction: the raw
    /// markup is wrapped under the well-known key and handed back whole.
    pub fn html(&self, output: String) -> (r: Result<String, Error>)
        ensures
            r matches Ok(s) && s@ == output@,
    {
        let m = match process_output(output, Format::Html) {
            Ok(m) => m,
            Err(e) => return Err(e),
        };
        text_result(&m)
    }

    /// Interpret captured engine output for a MIME-type extraction: the
    /// output must be a JSON object whose `Content-Type` member is a string
    /// that reads as a MIME type.
    pub fn mimetype(&self, output: String) -> (r: Result<MediaType, Error>)
        ensures
            json_obj_of(output@) is None ==> r == Err::<MediaType, Error>(Error::ParseError),
            json_obj_of(output@) matches Some(m) && !(m.contains_key("Content-Type"@)
                && m["Content-Type"@] is Str) ==> r == Err::<MediaType, Error>(
                Error::MissingContentError,
            ),
            json_obj_of(output@) matches Some(m) ==> (m.contains_key("Content-Type"@)
                && m["Content-Type"@] is Str ==> (match mime_of((m["Content-Type"@]->Str_0)@) {
                Some(e) => r matches Ok(mt) && mt@ == e,
                None => r == Err::<MediaType, Error>(Error::ParseError),
            })),
    {
        let m = match process_output(output, Format::Mime) {
            Ok(m) => m,
            Err(e) => return Err(e),
        };
        let ct = match string_field(&m, "Content-Type") {
            Ok(s) => s,
            Err(e) => return Err(e),
        };
        match parse_mime(ct.as_str()) {
            Some(t) => Ok(MediaType { text: t }),
            None => Err(Error::ParseError),
        }
    }

    /// Interpret captured engine output for a metadata extraction: the
    /// output must be a JSON object, handed back whole.
    pub fn metadata(&self, output: String) -> (r: Result<ResultMap, Error>)
        ensures
            r is Ok <==> local_metadata_norm(output@) is Some,
            r matches Ok(m) ==> Some(m@) == local_metadata_norm(output@),
            r is Err ==> r == Err::<ResultMap, Error>(Error::ParseError),
    {
        process_output(output, Format::Metadata)
    }
}

/// Two local backends over the same scratch directory that differ in OCR
/// mode write different bytes (whenever the two templates differ) at the
/// same configuration path: mode selection picks the correct template.
pub proof fn lemma_config_mode_selects_template(
    a: Client,
    b: Client,
    ocr_template: Seq<u8>,
    plain_template: Seq<u8>,
)
    requires
        a.ocr_enabled() != b.ocr_enabled(),
        a.scratch_view() == b.scratch_view(),
        ocr_template != plain_template,
    ensures
        a.config_path_view() == b.config_path_view(),
        config_choice(a.ocr_enabled(), ocr_template, plain_template) != config_choice(
            b.ocr_enabled(),
            ocr_template,
            plain_template,
        ),
{
}

} // verus!
