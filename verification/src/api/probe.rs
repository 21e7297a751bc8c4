//! Probing response bodies as JSON, and classifying responses.
//!
//! The trusted wrappers here are the only place where the library touches a
//! JSON parser; each one turns one fact about the body into a plain value.
//! The classification itself — which error a response maps to — is the
//! verified function [`classify_response`], whose contract states the rule
//! exactly for every combination of status and probe outcomes.

use vstd::prelude::*;

use crate::api::error::ApiError;

verus! {

/// Whether the bytes parse as a JSON document.
pub uninterp spec fn json_parses(body: Seq<u8>) -> bool;

/// The canonical JSON text of the body when it parses, as the parser
/// re-serializes it.
pub uninterp spec fn json_canon(body: Seq<u8>) -> Seq<char>;

/// Relies on `serde_json::from_slice` and `serde_json::Value::to_string`:
/// the canonical text of the body when it parses as JSON, `None` otherwise.
#[verifier::external_body]
pub(crate) fn json_text(body: &Vec<u8>) -> (r: Option<String>)
    ensures
        r is Some <==> json_parses(body@),
        r matches Some(text) ==> text@ == json_canon(body@),
{
    match serde_json::from_slice::<serde_json::Value>(body.as_slice()) {
        Ok(v) => Some(v.to_string()),
        Err(_) => None,
    }
}

/// The outcome of probing one field of a JSON document.
#[derive(Debug, Clone, PartialEq, Eq)]
pub enum FieldProbe {
    /// The document does not parse, or the field is absent.
    Absent,
    /// The field holds a string, carried here.
    Text(String),
    /// The field holds a non-string value, carried here as JSON text.
    NonText(String),
}

/// The probe of one field of the body, addressed by a JSON pointer: a
/// function of the bytes and the pointer alone.
pub uninterp spec fn json_field_of(body: Seq<u8>, pointer: Seq<char>) -> FieldProbe;

/// Relies on `serde_json::Value::pointer` and `serde_json::Value::as_str`:
/// the probe of one field of the body, addressed by a JSON pointer.
#[verifier::external_body]
pub(crate) fn json_field(body: &Vec<u8>, pointer: &str) -> (r: FieldProbe)
    ensures
        r == json_field_of(body@, pointer@),
{
    let v: serde_json::Value = match serde_json::from_slice(body.as_slice()) {
        Ok(v) => v,
        Err(_) => return FieldProbe::Absent,
    };
    match v.pointer(pointer) {
        None => FieldProbe::Absent,
        Some(f) => match f.as_str() {
            Some(s) => FieldProbe::Text(s.to_owned()),
            None => FieldProbe::NonText(f.to_string()),
        },
    }
}

/// The elements of the body when it parses as a JSON array, each element as
/// its canonical JSON text bytes; nothing otherwise.
pub uninterp spec fn json_array_items(body: Seq<u8>) -> Option<Seq<Seq<u8>>>;

/// Relies on `serde_json::Value::as_array`: when the body is a JSON array,
/// its elements, each re-serialized as JSON text bytes; `None` otherwise.
#[verifier::external_body]
pub(crate) fn json_array(body: &Vec<u8>) -> (r: Option<Vec<Vec<u8>>>)
    ensures
        match r {
            Some(items) => json_array_items(body@) == Some(items.deep_view()),
            None => json_array_items(body@) is None,
        },
{
    let v: serde_json::Value = match serde_json::from_slice(body.as_slice()) {
        Ok(v) => v,
        Err(_) => return None,
    };
    let arr = v.as_array()?;
    let mut items: Vec<Vec<u8>> = Vec::with_capacity(arr.len());
    for item in arr {
        items.push(item.to_string().into_bytes());
    }
    Some(items)
}

/// Whether an HTTP status code reports success.
pub open spec fn is_success_status(status: u16) -> bool {
    200 <= status < 300
}

/// Decide whether an HTTP status code reports success.
pub fn status_is_success(status: u16) -> (r: bool)
    ensures
        r == is_success_status(status),
{
    200 <= status && status < 300
}

/// The error extracted from a structured error payload: a `message` field is
/// preferred, then an `error` field; a string field becomes a remote
/// message, any other value a remote object, and a payload with neither
/// field is unrecognized and carried whole.
pub open spec fn remote_error_spec<E>(
    message: FieldProbe,
    error: FieldProbe,
    text: String,
) -> ApiError<E> {
    match message {
        FieldProbe::Text(msg) => ApiError::Marketstack { msg },
        FieldProbe::NonText(obj) => ApiError::MarketstackObject { obj },
        FieldProbe::Absent => match error {
            FieldProbe::Text(msg) => ApiError::Marketstack { msg },
            FieldProbe::NonText(obj) => ApiError::MarketstackObject { obj },
            FieldProbe::Absent => ApiError::MarketstackUnrecognized { obj: text },
        },
    }
}

/// Extract the error reported by a structured error payload.
pub fn remote_error<E>(message: FieldProbe, error: FieldProbe, text: String) -> (r: ApiError<E>)
    ensures
        r == remote_error_spec::<E>(message, error, text),
{
    match message {
        FieldProbe::Text(msg) => ApiError::Marketstack { msg },
        FieldProbe::NonText(obj) => ApiError::MarketstackObject { obj },
        FieldProbe::Absent => match error {
            FieldProbe::Text(msg) => ApiError::Marketstack { msg },
            FieldProbe::NonText(obj) => ApiError::MarketstackObject { obj },
            FieldProbe::Absent => ApiError::MarketstackUnrecognized { obj: text },
        },
    }
}

/// Whether a classified error is exactly what [`remote_error_spec`] gives
/// for these probes, with the unrecognized payload compared by its text.
pub open spec fn remote_error_matches<E>(
    e: ApiError<E>,
    message: FieldProbe,
    error: FieldProbe,
    canon: Seq<char>,
) -> bool {
    match message {
        FieldProbe::Text(msg) => e == (ApiError::<E>::Marketstack { msg }),
        FieldProbe::NonText(obj) => e == (ApiError::<E>::MarketstackObject { obj }),
        FieldProbe::Absent => match error {
            FieldProbe::Text(msg) => e == (ApiError::<E>::Marketstack { msg }),
            FieldProbe::NonText(obj) => e == (ApiError::<E>::MarketstackObject { obj }),
            FieldProbe::Absent => e matches ApiError::MarketstackUnrecognized { obj } && obj@
                == canon,
        },
    }
}

/// Classify a non-success response body: the remote error it reports when
/// it is structured data, else a service error carrying the raw status and
/// bytes.  This is the error path shared by the `Ignore` and `Raw`
/// modifiers, which skip body parsing on success.
pub fn error_from_response<E>(status: u16, body: &Vec<u8>) -> (r: ApiError<E>)
    ensures
        !json_parses(body@) ==> (r matches ApiError::MarketstackService {
            status: s,
            data,
        } && s == status && data@ == body@),
        json_parses(body@) ==> remote_error_matches(
            r,
            json_field_of(body@, "/message"@),
            json_field_of(body@, "/error"@),
            json_canon(body@),
        ),
{
    match json_text(body) {
        Some(text) => {
            let message = json_field(body, "/message");
            let error = json_field(body, "/error");
            remote_error(message, error, text)
        },
        None => ApiError::server_error(status, body),
    }
}

/// Probe the body and classify the response in one step: a body that is
/// not JSON is a service error carrying status and bytes, whatever the
/// status was; a structured body under a success status passes; a
/// structured body under a non-success status is exactly the remote error
/// its `message`/`error` fields report.
pub fn classify_body<E>(status: u16, body: &Vec<u8>) -> (r: Result<(), ApiError<E>>)
    ensures
        !json_parses(body@) ==> (r matches Err(e) && e matches ApiError::MarketstackService {
            status: s,
            data,
        } && s == status && data@ == body@),
        json_parses(body@) && is_success_status(status) ==> r is Ok,
        json_parses(body@) && !is_success_status(status) ==> (r matches Err(e)
            && remote_error_matches(
            e,
            json_field_of(body@, "/message"@),
            json_field_of(body@, "/error"@),
            json_canon(body@),
        )),
{
    let parsed = json_text(body);
    let message = json_field(body, "/message");
    let error = json_field(body, "/error");
    classify_response(status, body, parsed, message, error)
}

/// Classify one response, given the probes of its body.
///
/// A body that is not structured data is a service error carrying the raw
/// status and bytes, whatever the status was.  A structured body under a
/// non-success status maps to the remote error it reports.  A structured
/// body under a success status passes.
pub fn classify_response<E>(
    status: u16,
    body: &Vec<u8>,
    parsed: Option<String>,
    message: FieldProbe,
    error: FieldProbe,
) -> (r: Result<(), ApiError<E>>)
    ensures
        match parsed {
            None => r matches Err(e) && e matches ApiError::MarketstackService {
                status: s,
                data,
            } && s == status && data@ == body@,
            Some(text) => {
                if is_success_status(status) {
                    r is Ok
                } else {
                    r == Err::<(), ApiError<E>>(remote_error_spec(message, error, text))
                }
            },
        },
{
    let text = match parsed {
        Some(text) => text,
        None => {
            return Err(ApiError::server_error(status, body));
        },
    };
    if status_is_success(status) {
        Ok(())
    } else {
        Err(remote_error(message, error, text))
    }
}

} // verus!
