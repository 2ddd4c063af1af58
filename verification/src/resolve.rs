use vstd::prelude::*;

use crate::errors::DriverError;

verus! {

/// Whether `serde_json` accepts the text as a valid JSON document.
pub uninterp spec fn json_parses(body: Seq<char>) -> bool;

/// The string at `channels.Stable.version` of the parsed document: `Some` of
/// that string when the document parses and the path leads to a JSON string,
/// `None` when it parses but the path is absent or leads to something else.
pub uninterp spec fn stable_version_of(body: Seq<char>) -> Option<Seq<char>>;

/// Relies on `serde_json::from_str::<Value>` to decide whether the text is a
/// valid JSON document, and, when it is, on
/// `Value::pointer("/channels/Stable/version")` with `Value::as_str` to read
/// the stable-channel version string out of it. Both results depend on the
/// text alone.
#[verifier::external_body]
fn read_stable_version(body: &str) -> (r: Result<Option<String>, ()>)
    ensures
        r is Ok <==> json_parses(body@),
        match r {
            Ok(Some(v)) => stable_version_of(body@) == Some(v@),
            Ok(None) => stable_version_of(body@) is None,
            Err(_) => true,
        },
{
    match serde_json::from_str::<serde_json::Value>(body) {
        Err(_) => Err(()),
        Ok(doc) => Ok(
            doc.pointer("/channels/Stable/version").and_then(serde_json::Value::as_str).map(
                str::to_owned,
            ),
        ),
    }
}

/// The Version Resolver's decision on a fetched metadata body: the version
/// string when the document parses and carries `channels.Stable.version` as
/// a string; `ParseError` when the body does not parse; `MissingFieldError`
/// when it parses but the field is absent.
pub fn resolve_version_from_body(body: &str) -> (r: Result<String, DriverError>)
    ensures
        !json_parses(body@) ==> r == Err::<String, DriverError>(DriverError::ParseError),
        json_parses(body@) && stable_version_of(body@) is None ==> r == Err::<
            String,
            DriverError,
        >(DriverError::MissingFieldError),
        json_parses(body@) && stable_version_of(body@) is Some ==> (r matches Ok(v)
            && stable_version_of(body@) == Some(v@)),
{
    match read_stable_version(body) {
        Err(_) => Err(DriverError::ParseError),
        Ok(None) => Err(DriverError::MissingFieldError),
        Ok(Some(v)) => Ok(v),
    }
}

} // verus!
