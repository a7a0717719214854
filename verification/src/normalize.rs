use crate::Error;
use crate::Format;
use crate::json::JsonValue;
use crate::json::ResultMap;
use crate::json::json_obj_of;
use crate::json::parse_json_object;
use vstd::prelude::*;

verus! {

/// The normalized metadata map the local backend derives from raw engine
/// output: the engine's own JSON object, every member kept.
pub open spec fn local_metadata_norm(s: Seq<char>) -> Option<Map<Seq<char>, JsonValue>> {
    json_obj_of(s)
}

/// The normalized metadata map the remote backend derives from a service
/// response body: the body's JSON object, every member kept.
pub open spec fn remote_metadata_norm(s: Seq<char>) -> Option<Map<Seq<char>, JsonValue>> {
    json_obj_of(s)
}

/// The normalized MIME map: the raw JSON object narrowed to its
/// `Content-Type` member, every other member discarded.
pub open spec fn mime_norm(s: Seq<char>) -> Option<Map<Seq<char>, JsonValue>> {
    match json_obj_of(s) {
        Some(m) => Some(m.restrict(set!["Content-Type"@])),
        None => None,
    }
}

/// Feeding one engine output to either backend's metadata normalization
/// yields the same map: the two transports share one semantic contract.
pub proof fn lemma_metadata_round_trip(s: Seq<char>)
    ensures
        local_metadata_norm(s) == remote_metadata_norm(s),
{
}

/// Translate one backend's raw response into the common result-map shape:
/// raw text is wrapped whole under the well-known `result` key, while MIME
/// and metadata responses are parsed as JSON, the former keeping only its
/// `Content-Type` member.
pub fn process_output(output: String, format: Format) -> (r: Result<ResultMap, Error>)
    ensures
        format is Html || format is Text ==> (r matches Ok(m) && m@ == Map::<
            Seq<char>,
            JsonValue,
        >::empty().insert("result"@, JsonValue::Str(output))),
        format is Mime ==> (match mime_norm(output@) {
            Some(mm) => r matches Ok(m) && m@ == mm,
            None => r == Err::<ResultMap, Error>(Error::ParseError),
        }),
        format is Mime ==> (r matches Ok(m) ==> m@.dom().subset_of(set!["Content-Type"@])),
        format is Metadata ==> (match local_metadata_norm(output@) {
            Some(mm) => r matches Ok(m) && m@ == mm,
            None => r == Err::<ResultMap, Error>(Error::ParseError),
        }),
{
    match format {
        Format::Html | Format::Text => Ok(ResultMap::single_entry("result", JsonValue::Str(output))),
        Format::Mime => match parse_json_object(output.as_str()) {
            Some(m) => Ok(m.retain_key("Content-Type")),
            None => Err(Error::ParseError),
        },
        Format::Metadata => match parse_json_object(output.as_str()) {
            Some(m) => Ok(m),
            None => Err(Error::ParseError),
        },
    }
}

/// Extract the named field of a normalized map as plain text; the field must
/// be present and be a string, else the content is missing.
pub fn string_field(res: &ResultMap, key: &str) -> (r: Result<String, Error>)
    ensures
        r is Ok <==> res@.contains_key(key@) && res@[key@] is Str,
        r matches Ok(s) ==> res@[key@] == JsonValue::Str(s),
        r is Err ==> r == Err::<String, Error>(Error::MissingContentError),
{
    match res.get(key) {
        Some(v) => match v {
            JsonValue::Str(s) => Ok(s.clone()),
            JsonValue::Other(_) => Err(Error::MissingContentError),
        },
        None => Err(Error::MissingContentError),
    }
}

/// Extract the wrapped raw text of a text or HTML normalization, held under
/// the well-known `result` key.
pub fn text_result(res: &ResultMap) -> (r: Result<String, Error>)
    ensures
        r is Ok <==> res@.contains_key("result"@) && res@["result"@] is Str,
        r matches Ok(s) ==> res@["result"@] == JsonValue::Str(s),
        r is Err ==> r == Err::<String, Error>(Error::MissingContentError),
{
    string_field(res, "result")
}

} // verus!
