use tika_client::Client;
use tika_client::DataFetch;
use tika_client::Error;
use tika_client::Format;
use tika_client::Input;
use tika_client::JsonValue;
use tika_client::RemoteClient;
use tika_client::UrlStr;
use tika_client::format_arg;
use tika_client::java_bin;
use tika_client::process_output;

fn plain_client(ocr: bool) -> Client {
    Client::try_new(
        Input::FilePath("doc.txt".to_string()),
        ocr,
        "/tmp/scratch".to_string(),
    )
}

#[test]
fn format_arg_flags() {
    assert_eq!(format_arg(Format::Html), "-h");
    assert_eq!(format_arg(Format::Text), "-t");
    assert_eq!(format_arg(Format::Mime), "-j");
    assert_eq!(format_arg(Format::Metadata), "-j");
}

#[test]
fn java_bin_prefers_designated_installation() {
    assert_eq!(java_bin(Some("/opt/jdk".to_string())), "/opt/jdk/bin/java");
    assert_eq!(java_bin(None), "java");
}

#[test]
fn local_text_is_passthrough() {
    let c = plain_client(false);
    assert_eq!(
        c.text("plain file body\n".to_string()).unwrap(),
        "plain file body\n"
    );
}

#[test]
fn local_html_is_passthrough() {
    let c = plain_client(false);
    assert_eq!(c.html("<p>x</p>".to_string()).unwrap(), "<p>x</p>");
}

#[test]
fn text_output_is_wrapped_under_result_key() {
    let m = process_output("hello".to_string(), Format::Text).unwrap();
    assert_eq!(m.len(), 1);
    match m.get("result") {
        Some(JsonValue::Str(s)) => assert_eq!(s, "hello"),
        other => panic!("unexpected value: {:?}", other),
    }
}

#[test]
fn mime_output_keeps_only_content_type() {
    let raw = "{\"Content-Type\": \"application/pdf\", \"X-TIKA:other\": \"x\"}";
    let m = process_output(raw.to_string(), Format::Mime).unwrap();
    assert_eq!(m.len(), 1);
    match m.get("Content-Type") {
        Some(JsonValue::Str(s)) => assert_eq!(s, "application/pdf"),
        other => panic!("unexpected value: {:?}", other),
    }
    assert!(m.get("X-TIKA:other").is_none());
}

#[test]
fn metadata_output_is_kept_whole() {
    let raw = "{\"Content-Type\": \"text/plain\", \"X-TIKA:parse_ms\": 12, \"ok\": true}";
    let m = process_output(raw.to_string(), Format::Metadata).unwrap();
    assert_eq!(m.len(), 3);
    match m.get("Content-Type") {
        Some(JsonValue::Str(s)) => assert_eq!(s, "text/plain"),
        other => panic!("unexpected value: {:?}", other),
    }
    match m.get("X-TIKA:parse_ms") {
        Some(JsonValue::Other(v)) => assert_eq!(v, &serde_json::Value::from(12)),
        other => panic!("unexpected value: {:?}", other),
    }
}

#[test]
fn malformed_engine_json_is_a_parse_error() {
    let c = plain_client(false);
    assert!(matches!(
        c.metadata("not json".to_string()),
        Err(Error::ParseError)
    ));
    assert!(matches!(
        process_output("[1, 2]".to_string(), Format::Mime),
        Err(Error::ParseError)
    ));
}

#[test]
fn local_mimetype_reads_content_type() {
    let c = plain_client(false);
    let mt = c
        .mimetype("{\"Content-Type\": \"text/plain\"}".to_string())
        .unwrap();
    assert_eq!(mt.as_str(), "text/plain");
}

#[test]
fn local_mimetype_is_canonicalized() {
    let c = plain_client(false);
    let mt = c
        .mimetype("{\"Content-Type\": \"TEXT/PLAIN\"}".to_string())
        .unwrap();
    assert_eq!(mt.as_str(), "text/plain");
}

#[test]
fn local_mimetype_missing_field() {
    let c = plain_client(false);
    assert!(matches!(
        c.mimetype("{\"X-TIKA:other\": \"x\"}".to_string()),
        Err(Error::MissingContentError)
    ));
    assert!(matches!(
        c.mimetype("{\"Content-Type\": 7}".to_string()),
        Err(Error::MissingContentError)
    ));
}

#[test]
fn local_mimetype_unparseable_value() {
    let c = plain_client(false);
    assert!(matches!(
        c.mimetype("{\"Content-Type\": \"not a mime\"}".to_string()),
        Err(Error::ParseError)
    ));
}

#[test]
fn url_parse_normalizes_serialization() {
    let u = UrlStr::parse("HTTP://Example.COM/Path").unwrap();
    assert_eq!(u.as_str(), "http://example.com/Path");
    assert!(matches!(UrlStr::parse("not a url"), Err(Error::ParseError)));
    assert!(matches!(UrlStr::parse("relative/only"), Err(Error::ParseError)));
}

#[test]
fn remote_request_plan_targets_format_path() {
    let url = UrlStr::parse("http://localhost:9998/").unwrap();
    let rc = RemoteClient::new(url, Some(Input::FilePath("a.txt".to_string())));
    let plan = rc.request(Format::Html).unwrap();
    assert_eq!(plan.put_url, "http://localhost:9998/tika/html");
    assert_eq!(plan.accept, "application/json");
    assert_eq!(plan.fetch, DataFetch::ReadFile("a.txt".to_string()));
    let plan = rc.request(Format::Text).unwrap();
    assert_eq!(plan.put_url, "http://localhost:9998/tika/text");
    let plan = rc.request(Format::Mime).unwrap();
    assert_eq!(plan.put_url, "http://localhost:9998/meta");
    let plan = rc.request(Format::Metadata).unwrap();
    assert_eq!(plan.put_url, "http://localhost:9998/meta");
}

#[test]
fn remote_request_resolves_relative_to_base() {
    let url = UrlStr::parse("http://h/prefix/").unwrap();
    let rc = RemoteClient::new(url, Some(Input::FilePath("a".to_string())));
    let plan = rc.request(Format::Metadata).unwrap();
    assert_eq!(plan.put_url, "http://h/prefix/meta");
}

#[test]
fn remote_url_input_is_fetched() {
    let base = UrlStr::parse("http://localhost:9998/").unwrap();
    let doc = UrlStr::parse("https://example.com/doc.pdf").unwrap();
    let rc = RemoteClient::new(base, Some(Input::Url(doc)));
    match rc.data_request().unwrap() {
        DataFetch::GetUrl(u) => assert_eq!(u, "https://example.com/doc.pdf"),
        other => panic!("unexpected fetch: {:?}", other),
    }
}

#[test]
fn remote_without_input_never_reaches_transport() {
    let url = UrlStr::parse("http://localhost:9998/").unwrap();
    let rc = RemoteClient::new(url, None);
    assert!(matches!(rc.data_request(), Err(Error::InputNotSetError)));
    assert!(matches!(
        rc.request(Format::Metadata),
        Err(Error::InputNotSetError)
    ));
    assert!(matches!(
        rc.request(Format::Mime),
        Err(Error::InputNotSetError)
    ));
}

#[test]
fn setting_input_clears_last_output() {
    let url = UrlStr::parse("http://localhost:9998/").unwrap();
    let mut rc = RemoteClient::new(url, None);
    assert!(rc.last_result().is_none());
    rc.input(Input::FilePath("a.txt".to_string()));
    assert!(rc.last_result().is_none());
    rc.input(Input::FilePath("b.txt".to_string()));
    assert!(rc.last_result().is_none());
}

#[test]
fn remote_mimetype_from_mocked_body() {
    let url = UrlStr::parse("http://localhost:9998/").unwrap();
    let rc = RemoteClient::new(url, Some(Input::FilePath("a.txt".to_string())));
    let body = "{\"Content-Type\": \"application/pdf\", \"X-TIKA:other\": \"x\"}";
    assert_eq!(rc.mimetype(body), Ok("application/pdf".to_string()));
}

#[test]
fn remote_html_missing_content_key() {
    let url = UrlStr::parse("http://localhost:9998/").unwrap();
    let rc = RemoteClient::new(url, Some(Input::FilePath("a.txt".to_string())));
    assert!(matches!(
        rc.html("{\"X-TIKA:other\": \"x\"}"),
        Err(Error::MissingContentError)
    ));
    assert!(matches!(rc.html("nonsense"), Err(Error::ParseError)));
}

#[test]
fn remote_text_and_html_read_content_key() {
    let url = UrlStr::parse("http://localhost:9998/").unwrap();
    let rc = RemoteClient::new(url, None);
    let body = "{\"X-TIKA:content\": \"<html/>\", \"Content-Type\": \"text/html\"}";
    assert_eq!(rc.html(body), Ok("<html/>".to_string()));
    assert_eq!(rc.text(body), Ok("<html/>".to_string()));
}

#[test]
fn both_backends_normalize_metadata_alike() {
    let body = "{\"Content-Type\": \"text/plain\", \"author\": \"a\", \"n\": 3}";
    let c = plain_client(false);
    let local = c.metadata(body.to_string()).unwrap();
    let url = UrlStr::parse("http://localhost:9998/").unwrap();
    let rc = RemoteClient::new(url, None);
    let remote = rc.metadata(body).unwrap();
    assert_eq!(local, remote);
}

#[test]
fn command_args_are_exact() {
    let c = Client::try_new(
        Input::FilePath("file.pdf".to_string()),
        false,
        "/tmp/s".to_string(),
    );
    let args = c.command_args(Format::Text);
    let expected = vec![
        "-Djava.awt.headless=true",
        "-jar",
        "/tmp/s/tika-app-2.4.0.jar",
        "--config=/tmp/s/tika-config.xml",
        "-t",
        "file.pdf",
    ];
    assert_eq!(args, expected);
}

#[test]
fn command_args_resolve_url_input() {
    let doc = UrlStr::parse("https://example.com/").unwrap();
    let c = Client::try_new(Input::Url(doc), true, "/tmp/s".to_string());
    let args = c.command_args(Format::Html);
    assert_eq!(args[4], "-h");
    assert_eq!(args[5], "https://example.com/");
}

#[test]
fn ocr_mode_selects_config_template() {
    let with_ocr = plain_client(true);
    let without = plain_client(false);
    let ocr_template: &[u8] = b"<properties>ocr</properties>";
    let plain_template: &[u8] = b"<properties>plain</properties>";
    assert_eq!(
        with_ocr.config_contents(ocr_template, plain_template),
        ocr_template
    );
    assert_eq!(
        without.config_contents(ocr_template, plain_template),
        plain_template
    );
    assert_eq!(with_ocr.config_path(), without.config_path());
    assert_ne!(
        with_ocr.config_contents(ocr_template, plain_template),
        without.config_contents(ocr_template, plain_template)
    );
}

#[test]
fn scratch_paths_are_fixed_names() {
    let c = plain_client(false);
    assert_eq!(c.tmp_jar_cmd(), "/tmp/scratch/tika-app-2.4.0.jar");
    assert_eq!(c.config_path(), "/tmp/scratch/tika-config.xml");
    assert_eq!(c.data_source(), "doc.txt");
}

#[test]
fn error_messages_name_the_failure() {
    assert_eq!(Error::ParseError.message(), "parse error");
    assert_eq!(Error::InputNotSetError.message(), "input not set");
    assert_eq!(Error::MissingContentError.message(), "missing or empty content");
}
