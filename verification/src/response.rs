//! Classification of server responses.
//!
//! The protocol is uniform for every operation and its ordering is the
//! defining contract: the status line is checked first, and the body
//! shape is only trusted once the status confirms success. A failure
//! status yields an API response error carrying the body's detail message
//! (or a fallback built from the status code); a success status yields
//! the decoded payload, or a deserialization error where the body does
//! not match the expected shape.
//!
//! Decoding reads each field of a body through a small trusted item
//! whose result is tied to a named function of the body's characters;
//! the payload shapes are then verified compositions of those names, so
//! every handler owes the decoded value exactly: success with a
//! well-formed body must return it, success with a malformed body must
//! fail, and the two cases are decided by the body alone.

use vstd::prelude::*;

use crate::client::HttpResponse;
use crate::errors::build_status_fallback;
use crate::errors::status_fallback_message;
use crate::errors::ApiError;
use crate::models::EffectDetailedInfo;
use crate::models::EffectInfo;
use crate::models::EffectParameter;
use crate::models::EffectStatusResponse;
use crate::models::EffectsListResponse;
use crate::models::ErrorResponse;

verus! {

/// Whether the status code indicates success.
pub open spec fn is_success(status: u16) -> bool {
    200 <= status < 300
}

/// The decoded model of one effect parameter: name, type tag,
/// description, whether a minimum and a maximum are given, and the
/// enumerated options.
pub type ParameterModel = (Seq<char>, Seq<char>, Seq<char>, bool, bool, Option<Seq<Seq<char>>>);

/// The decoded model of a detailed effect description: name, description,
/// and one model per declared parameter.
pub type InfoModel = (Seq<char>, Seq<char>, Seq<ParameterModel>);

/// The decoded model of the status payload: the running flag, the
/// optional name, description, start time and runtime literal, and
/// whether a parameters object is present.
pub type StatusModel = (
    bool,
    Option<Seq<char>>,
    Option<Seq<char>>,
    Option<Seq<char>>,
    Option<Seq<char>>,
    bool,
);

/// The detail message of a failing response body: the `detail` string
/// field of the body read as a JSON object, or `None` where the body does
/// not parse to such an object. A function of the body's characters
/// alone.
pub uninterp spec fn detail_of(body: Seq<char>) -> Option<Seq<char>>;

/// The decoded effects list of a success body: one (name, description)
/// pair per entry, in the body's order, or `None` where the body does not
/// match the expected shape. A function of the body's characters alone.
pub uninterp spec fn effects_list_of(body: Seq<char>) -> Option<Seq<(Seq<char>, Seq<char>)>>;

/// The named boolean field of the body read as a JSON object: `None`
/// where the body, the field, or its type does not match.
pub uninterp spec fn bool_field_of(body: Seq<char>, key: Seq<char>) -> Option<bool>;

/// The named required string field of the body: `None` where the body,
/// the field, or its type does not match.
pub uninterp spec fn string_field_of(body: Seq<char>, key: Seq<char>) -> Option<Seq<char>>;

/// The named optional string field: `Some(None)` where the body is an
/// object and the field is absent or null, `Some(Some(..))` where it is a
/// string, `None` otherwise.
pub uninterp spec fn opt_string_field_of(body: Seq<char>, key: Seq<char>) -> Option<
    Option<Seq<char>>,
>;

/// The canonical literal of the named optional number field: `Some(None)`
/// where absent or null, `Some(Some(..))` where it is a number, `None`
/// otherwise.
pub uninterp spec fn opt_number_literal_field_of(body: Seq<char>, key: Seq<char>) -> Option<
    Option<Seq<char>>,
>;

/// Whether the named optional object field is present: `Some(true)` where
/// it is an object, `Some(false)` where absent or null, `None` otherwise.
pub uninterp spec fn opt_object_field_of(body: Seq<char>, key: Seq<char>) -> Option<bool>;

/// Whether the body reads as a JSON object carrying the named field.
pub uninterp spec fn has_json_field(body: Seq<char>, key: Seq<char>) -> bool;

/// Whether the named field is present and non-null in the body read as a
/// JSON object.
pub uninterp spec fn opt_field_present_of(body: Seq<char>, key: Seq<char>) -> bool;

/// The `options` field of a parameter document: `Some(None)` where absent
/// or null, `Some(Some(..))` where it is an array of strings, `None`
/// otherwise.
pub uninterp spec fn options_field_of(doc: Seq<char>) -> Option<Option<Seq<Seq<char>>>>;

/// The named array field with each element re-rendered as its own compact
/// JSON document, in order: `None` where the body, the field, or its type
/// does not match.
pub uninterp spec fn doc_array_field_of(body: Seq<char>, key: Seq<char>) -> Option<Seq<Seq<char>>>;

/// The top split of an effect-detail body: its name, its description, and
/// each parameter re-rendered as its own JSON document, in order.
pub open spec fn info_split_of(body: Seq<char>) -> Option<(Seq<char>, Seq<char>, Seq<Seq<char>>)> {
    match (
        string_field_of(body, "name"@),
        string_field_of(body, "description"@),
        doc_array_field_of(body, "parameters"@),
    ) {
        (Some(n), Some(d), Some(docs)) => Some((n, d, docs)),
        _ => None,
    }
}

/// The decoded model of one parameter document: required name, type tag
/// and description strings, a required default of any shape, optional
/// bounds, and optional enumerated options.
pub open spec fn parameter_of(doc: Seq<char>) -> Option<ParameterModel> {
    match (
        string_field_of(doc, "name"@),
        string_field_of(doc, "type"@),
        string_field_of(doc, "description"@),
        options_field_of(doc),
    ) {
        (Some(n), Some(t), Some(d), Some(opts)) => if has_json_field(doc, "default"@) {
            Some(
                (
                    n,
                    t,
                    d,
                    opt_field_present_of(doc, "min_value"@),
                    opt_field_present_of(doc, "max_value"@),
                    opts,
                ),
            )
        } else {
            None
        },
        _ => None,
    }
}

/// The decoded model of a status body: a required running flag, optional
/// name, description, start time and runtime, and the presence of a
/// parameters object.
pub open spec fn status_of(body: Seq<char>) -> Option<StatusModel> {
    match (
        bool_field_of(body, "running"@),
        opt_string_field_of(body, "name"@),
        opt_string_field_of(body, "description"@),
        opt_string_field_of(body, "start_time"@),
        opt_number_literal_field_of(body, "runtime"@),
        opt_object_field_of(body, "parameters"@),
    ) {
        (Some(run), Some(n), Some(d), Some(st), Some(rt), Some(hp)) => Some(
            (run, n, d, st, rt, hp),
        ),
        _ => None,
    }
}

/// The decoded model of an effect-detail body: the top split with every
/// parameter document decoded, or `None` where the body or any parameter
/// does not match.
pub open spec fn effect_info_of(body: Seq<char>) -> Option<InfoModel> {
    match info_split_of(body) {
        Some(t) => if forall|i: int|
            0 <= i < t.2.len() ==> (#[trigger] parameter_of(t.2[i])) is Some {
            Some((t.0, t.1, Seq::new(t.2.len(), |i: int| parameter_of(t.2[i])->Some_0)))
        } else {
            None
        },
        None => None,
    }
}

/// Whether the decoded list carries exactly the modeled entries, length,
/// order and both fields included.
pub open spec fn effects_list_matches(
    list: EffectsListResponse,
    m: Seq<(Seq<char>, Seq<char>)>,
) -> bool {
    &&& list.effects@.len() == m.len()
    &&& forall|i: int|
        0 <= i < m.len() ==> (#[trigger] list.effects@[i]).name@ == m[i].0
            && list.effects@[i].description@ == m[i].1
}

/// Whether an optional string field equals its modeled value.
pub open spec fn opt_string_matches(o: Option<String>, m: Option<Seq<char>>) -> bool {
    match o {
        Some(s) => m matches Some(t) && s@ == t,
        None => m is None,
    }
}

/// Whether the decoded options equal their modeled values.
pub open spec fn options_match(o: Option<Vec<String>>, m: Option<Seq<Seq<char>>>) -> bool {
    match o {
        Some(v) => m matches Some(t) && v@.map_values(|s: String| s@) == t,
        None => m is None,
    }
}

/// Whether a decoded parameter carries exactly its modeled plain fields.
/// The default value and the bounds are opaque JSON values; the model
/// fixes whether the bounds are present.
pub open spec fn parameter_matches(p: EffectParameter, m: ParameterModel) -> bool {
    &&& p.name@ == m.0
    &&& p.param_type@ == m.1
    &&& p.description@ == m.2
    &&& (p.min_value is Some) == m.3
    &&& (p.max_value is Some) == m.4
    &&& options_match(p.options, m.5)
}

/// Whether a decoded effect description carries exactly its model.
pub open spec fn info_matches(info: EffectDetailedInfo, m: InfoModel) -> bool {
    &&& info.name@ == m.0
    &&& info.description@ == m.1
    &&& info.parameters@.len() == m.2.len()
    &&& forall|i: int|
        0 <= i < m.2.len() ==> parameter_matches(#[trigger] info.parameters@[i], m.2[i])
}

/// Whether a decoded status carries exactly its modeled plain fields.
/// The parameter values are opaque JSON values; the model fixes whether
/// the parameters object is present.
pub open spec fn status_matches(st: EffectStatusResponse, m: StatusModel) -> bool {
    &&& st.running == m.0
    &&& opt_string_matches(st.name, m.1)
    &&& opt_string_matches(st.description, m.2)
    &&& opt_string_matches(st.start_time, m.3)
    &&& opt_string_matches(st.runtime, m.4)
    &&& (st.parameters is Some) == m.5
}

/// Relies on serde_json::from_str to read the body as a JSON value, on
/// Value::get to index the top-level object, and on Value::as_str to read
/// the `detail` field as a string: together the detail message of the
/// body, a function of its characters alone.
#[verifier::external_body]
fn parse_detail(body: &str) -> (r: Option<ErrorResponse>)
    ensures
        match r {
            Some(er) => detail_of(body@) == Some(er.detail@),
            None => detail_of(body@) is None,
        },
{
    let v: serde_json::Value = match serde_json::from_str(body) {
        Ok(v) => v,
        Err(_) => return None,
    };
    match v.get("detail") {
        Some(d) => match d.as_str() {
            Some(s) => Some(ErrorResponse { detail: s.to_string() }),
            None => None,
        },
        None => None,
    }
}

/// Relies on serde_json::from_str, Value::get, Value::as_array and
/// Value::as_str: reads the effects-list body into its entries' names and
/// descriptions, in order. A function of the body's characters alone,
/// named by `effects_list_of`.
#[verifier::external_body]
fn parse_effects_list(body: &str) -> (r: Option<EffectsListResponse>)
    ensures
        match r {
            Some(list) => effects_list_of(body@) matches Some(m) && effects_list_matches(list, m),
            None => effects_list_of(body@) is None,
        },
{
    let v: serde_json::Value = serde_json::from_str(body).ok()?;
    let arr = v.get("effects")?.as_array()?;
    let mut effects = Vec::new();
    for item in arr {
        let name = item.get("name")?.as_str()?.to_string();
        let description = item.get("description")?.as_str()?.to_string();
        effects.push(EffectInfo { name, description });
    }
    Some(EffectsListResponse { effects })
}

/// Relies on serde_json::from_str, Value::get and Value::as_bool: the
/// named boolean field, a function of the body's characters alone.
#[verifier::external_body]
fn parse_bool_field(body: &str, key: &str) -> (r: Option<bool>)
    ensures
        r == bool_field_of(body@, key@),
{
    serde_json::from_str::<serde_json::Value>(body).ok()?.get(key)?.as_bool()
}

/// Relies on serde_json::from_str, Value::get and Value::as_str: the
/// named required string field, a function of the body's characters
/// alone.
#[verifier::external_body]
fn parse_string_field(body: &str, key: &str) -> (r: Option<String>)
    ensures
        match r {
            Some(s) => string_field_of(body@, key@) == Some(s@),
            None => string_field_of(body@, key@) is None,
        },
{
    let v: serde_json::Value = serde_json::from_str(body).ok()?;
    Some(v.get(key)?.as_str()?.to_string())
}

/// Relies on serde_json::from_str, Value::get, Value::is_null and
/// Value::as_str: the named optional string field, a function of the
/// body's characters alone.
#[verifier::external_body]
fn parse_opt_string_field(body: &str, key: &str) -> (r: Option<Option<String>>)
    ensures
        match r {
            Some(o) => opt_string_field_of(body@, key@) matches Some(m) && opt_string_matches(
                o,
                m,
            ),
            None => opt_string_field_of(body@, key@) is None,
        },
{
    let v: serde_json::Value = serde_json::from_str(body).ok()?;
    match v.get(key) {
        Some(f) if !f.is_null() => f.as_str().map(|s| Some(s.to_string())),
        _ => Some(None),
    }
}

/// Relies on serde_json::from_str, Value::get, Value::is_null,
/// Value::as_number and the number Display impl: the canonical literal of
/// the named optional number field, a function of the body's characters
/// alone.
#[verifier::external_body]
fn parse_opt_number_literal_field(body: &str, key: &str) -> (r: Option<Option<String>>)
    ensures
        match r {
            Some(o) => opt_number_literal_field_of(body@, key@) matches Some(m)
                && opt_string_matches(o, m),
            None => opt_number_literal_field_of(body@, key@) is None,
        },
{
    let v: serde_json::Value = serde_json::from_str(body).ok()?;
    match v.get(key) {
        Some(f) if !f.is_null() => f.as_number().map(|n| Some(n.to_string())),
        _ => Some(None),
    }
}

/// Relies on serde_json::from_str, Value::get, Value::is_null and
/// Value::as_object: the members of the named optional object field,
/// cloned out as opaque pairs in the map's key order. Whether the field
/// is present is a function of the body's characters alone.
#[verifier::external_body]
fn parse_opt_object_field(body: &str, key: &str) -> (r: Option<
    Option<Vec<(String, serde_json::Value)>>,
>)
    ensures
        match r {
            Some(o) => opt_object_field_of(body@, key@) matches Some(b) && (o is Some) == b,
            None => opt_object_field_of(body@, key@) is None,
        },
{
    let v: serde_json::Value = serde_json::from_str(body).ok()?;
    match v.get(key) {
        Some(f) if !f.is_null() => Some(
            Some(f.as_object()?.iter().map(|(k, w)| (k.clone(), w.clone())).collect()),
        ),
        _ => Some(None),
    }
}

/// Relies on serde_json::from_str and Value::get: the named required
/// field of any shape, cloned out opaquely. Whether the body carries it
/// is a function of the body's characters alone.
#[verifier::external_body]
fn parse_value_field(body: &str, key: &str) -> (r: Option<serde_json::Value>)
    ensures
        (r is Some) == has_json_field(body@, key@),
{
    Some(serde_json::from_str::<serde_json::Value>(body).ok()?.get(key)?.clone())
}

/// Relies on serde_json::from_str, Value::get and Value::is_null: the
/// named optional field of any shape, cloned out opaquely where present
/// and non-null. Its presence is a function of the body's characters
/// alone.
#[verifier::external_body]
fn parse_opt_value_field(body: &str, key: &str) -> (r: Option<serde_json::Value>)
    ensures
        (r is Some) == opt_field_present_of(body@, key@),
{
    serde_json::from_str::<serde_json::Value>(body).ok()?.get(key).filter(|f| !f.is_null()).cloned()
}

/// Relies on serde_json::from_str, Value::get, Value::is_null,
/// Value::as_array and Value::as_str: the `options` field of a parameter
/// document, absent, null, or an array of strings. A function of the
/// document's characters alone.
#[verifier::external_body]
fn parse_options_field(doc: &str) -> (r: Option<Option<Vec<String>>>)
    ensures
        match r {
            Some(o) => options_field_of(doc@) matches Some(m) && options_match(o, m),
            None => options_field_of(doc@) is None,
        },
{
    let v: serde_json::Value = serde_json::from_str(doc).ok()?;
    match v.get("options") {
        Some(f) if !f.is_null() => {
            let opts = f.as_array()?.iter().map(|o| o.as_str().map(|s| s.to_string()));
            Some(Some(opts.collect::<Option<Vec<String>>>()?))
        },
        _ => Some(None),
    }
}

/// Relies on serde_json::from_str, Value::get, Value::as_array and the
/// Value Display impl: each element of the named array field re-rendered
/// as its own compact JSON document, in order. A function of the body's
/// characters alone.
#[verifier::external_body]
fn parse_doc_array_field(body: &str, key: &str) -> (r: Option<Vec<String>>)
    ensures
        match r {
            Some(docs) => doc_array_field_of(body@, key@) matches Some(m) && docs@.map_values(
                |d: String| d@,
            ) == m,
            None => doc_array_field_of(body@, key@) is None,
        },
{
    let v: serde_json::Value = serde_json::from_str(body).ok()?;
    Some(v.get(key)?.as_array()?.iter().map(|p| p.to_string()).collect())
}

/// Splits an effect-detail body into its name, its description, and the
/// parameter documents.
fn parse_info_split(body: &str) -> (r: Option<(String, String, Vec<String>)>)
    ensures
        match r {
            Some(t) => info_split_of(body@) matches Some(m) && t.0@ == m.0 && t.1@ == m.1
                && t.2@.map_values(|d: String| d@) == m.2,
            None => info_split_of(body@) is None,
        },
{
    let name = match parse_string_field(body, "name") {
        Some(s) => s,
        None => return None,
    };
    let description = match parse_string_field(body, "description") {
        Some(s) => s,
        None => return None,
    };
    let docs = match parse_doc_array_field(body, "parameters") {
        Some(v) => v,
        None => return None,
    };
    Some((name, description, docs))
}

/// Decodes one parameter document.
fn parse_parameter(doc: &str) -> (r: Option<EffectParameter>)
    ensures
        match r {
            Some(p) => parameter_of(doc@) matches Some(m) && parameter_matches(p, m),
            None => parameter_of(doc@) is None,
        },
{
    let name = match parse_string_field(doc, "name") {
        Some(s) => s,
        None => return None,
    };
    let param_type = match parse_string_field(doc, "type") {
        Some(s) => s,
        None => return None,
    };
    let description = match parse_string_field(doc, "description") {
        Some(s) => s,
        None => return None,
    };
    let options = match parse_options_field(doc) {
        Some(o) => o,
        None => return None,
    };
    let default = match parse_value_field(doc, "default") {
        Some(v) => v,
        None => return None,
    };
    let min_value = parse_opt_value_field(doc, "min_value");
    let max_value = parse_opt_value_field(doc, "max_value");
    Some(EffectParameter { name, param_type, description, default, min_value, max_value, options })
}

/// Decodes a status body.
fn parse_status(body: &str) -> (r: Option<EffectStatusResponse>)
    ensures
        match r {
            Some(st) => status_of(body@) matches Some(m) && status_matches(st, m),
            None => status_of(body@) is None,
        },
{
    let running = match parse_bool_field(body, "running") {
        Some(b) => b,
        None => return None,
    };
    let name = match parse_opt_string_field(body, "name") {
        Some(o) => o,
        None => return None,
    };
    let description = match parse_opt_string_field(body, "description") {
        Some(o) => o,
        None => return None,
    };
    let start_time = match parse_opt_string_field(body, "start_time") {
        Some(o) => o,
        None => return None,
    };
    let runtime = match parse_opt_number_literal_field(body, "runtime") {
        Some(o) => o,
        None => return None,
    };
    let parameters = match parse_opt_object_field(body, "parameters") {
        Some(o) => o,
        None => return None,
    };
    Some(EffectStatusResponse { running, name, description, parameters, start_time, runtime })
}

/// Whether `e` is the API response error a failing response with this
/// status and body must carry: the body's detail message where it has
/// one, the fallback `Error status: <code>` message otherwise.
pub open spec fn matches_failure(e: &ApiError, status: u16, body: Seq<char>) -> bool {
    match detail_of(body) {
        Some(d) => e matches ApiError::ApiResponseError(m, st) && m@ == d && *st == status,
        None => e matches ApiError::ApiResponseError(m, st) && m@ == status_fallback_message(
            status,
        ) && *st == status,
    }
}

/// Classifies a failing response: an API response error carrying the
/// body's detail message, or the fallback message where the body carries
/// none.
pub fn classify_error_response(resp: &HttpResponse) -> (e: ApiError)
    ensures
        matches_failure(&e, resp.status, resp.body@),
{
    match parse_detail(resp.body.as_str()) {
        Some(er) => ApiError::ApiResponseError(er.detail, resp.status),
        None => ApiError::ApiResponseError(build_status_fallback(resp.status), resp.status),
    }
}

/// Handles a response whose success carries no payload: success is
/// exactly a success status; any failure status is classified from the
/// body.
pub fn handle_empty_response(resp: &HttpResponse) -> (r: Result<(), ApiError>)
    ensures
        r is Ok <==> is_success(resp.status),
        r matches Err(e) ==> matches_failure(&e, resp.status, resp.body@),
{
    if 200 <= resp.status && resp.status < 300 {
        Ok(())
    } else {
        Err(classify_error_response(resp))
    }
}

fn deserialization_failure(msg: &str) -> (e: ApiError)
    ensures
        e matches ApiError::DeserializationError(m) && m@ == msg@,
{
    ApiError::DeserializationError(msg.to_owned())
}

/// Handles the response to a list-effects request. The status is checked
/// before the body: a failure status is classified from the body; a
/// success status yields exactly the decoded list, or a deserialization
/// error where the body does not match the expected shape.
pub fn handle_list_effects_response(resp: &HttpResponse) -> (r: Result<
    EffectsListResponse,
    ApiError,
>)
    ensures
        !is_success(resp.status) ==> (r matches Err(e) && matches_failure(
            &e,
            resp.status,
            resp.body@,
        )),
        is_success(resp.status) ==> match effects_list_of(resp.body@) {
            Some(m) => r matches Ok(list) && effects_list_matches(list, m),
            None => r matches Err(e) && e matches ApiError::DeserializationError(_),
        },
{
    if !(200 <= resp.status && resp.status < 300) {
        return Err(classify_error_response(resp));
    }
    match parse_effects_list(resp.body.as_str()) {
        Some(list) => Ok(list),
        None => Err(deserialization_failure("response body did not match the effects list shape")),
    }
}

/// Handles the response to an effect-detail request, with the same
/// status-before-body discipline: a success status yields exactly the
/// decoded description, every parameter included, or a deserialization
/// error where the body or any parameter does not match.
pub fn handle_effect_info_response(resp: &HttpResponse) -> (r: Result<
    EffectDetailedInfo,
    ApiError,
>)
    ensures
        !is_success(resp.status) ==> (r matches Err(e) && matches_failure(
            &e,
            resp.status,
            resp.body@,
        )),
        is_success(resp.status) ==> match effect_info_of(resp.body@) {
            Some(m) => r matches Ok(info) && info_matches(info, m),
            None => r matches Err(e) && e matches ApiError::DeserializationError(_),
        },
{
    if !(200 <= resp.status && resp.status < 300) {
        return Err(classify_error_response(resp));
    }
    let (name, description, docs) = match parse_info_split(resp.body.as_str()) {
        Some(t) => t,
        None => return Err(
            deserialization_failure("response body did not match the effect info shape"),
        ),
    };
    let ghost split = info_split_of(resp.body@)->Some_0;
    let mut parameters: Vec<EffectParameter> = Vec::new();
    let mut i: usize = 0;
    while i < docs.len()
        invariant
            i <= docs.len(),
            is_success(resp.status),
            info_split_of(resp.body@) == Some(split),
            docs@.map_values(|d: String| d@) == split.2,
            name@ == split.0,
            description@ == split.1,
            parameters@.len() == i,
            forall|j: int|
                0 <= j < i ==> (#[trigger] parameter_of(split.2[j])) is Some && parameter_matches(
                    parameters@[j],
                    parameter_of(split.2[j])->Some_0,
                ),
        decreases docs.len() - i,
    {
        assert(docs@[i as int]@ == split.2[i as int]);
        match parse_parameter(docs[i].as_str()) {
            Some(p) => {
                parameters.push(p);
            },
            None => {
                proof {
                    assert(parameter_of(split.2[i as int]) is None);
                    assert(effect_info_of(resp.body@) is None);
                }
                return Err(
                    deserialization_failure("response body did not match the effect info shape"),
                );
            },
        }
        i = i + 1;
    }
    proof {
        assert(forall|j: int|
            0 <= j < split.2.len() ==> (#[trigger] parameter_of(split.2[j])) is Some);
        assert(effect_info_of(resp.body@) is Some);
    }
    let info = EffectDetailedInfo { name, description, parameters };
    proof {
        let m = effect_info_of(resp.body@)->Some_0;
        assert forall|j: int| 0 <= j < m.2.len() implies parameter_matches(
            #[trigger] info.parameters@[j],
            m.2[j],
        ) by {
            assert(m.2[j] == parameter_of(split.2[j])->Some_0);
        }
        assert(info_matches(info, m));
    }
    Ok(info)
}

/// Handles the response to a status request, with the same
/// status-before-body discipline: a success status yields exactly the
/// decoded status, or a deserialization error where the body does not
/// match the expected shape.
pub fn handle_status_response(resp: &HttpResponse) -> (r: Result<EffectStatusResponse, ApiError>)
    ensures
        !is_success(resp.status) ==> (r matches Err(e) && matches_failure(
            &e,
            resp.status,
            resp.body@,
        )),
        is_success(resp.status) ==> match status_of(resp.body@) {
            Some(m) => r matches Ok(st) && status_matches(st, m),
            None => r matches Err(e) && e matches ApiError::DeserializationError(_),
        },
{
    if !(200 <= resp.status && resp.status < 300) {
        return Err(classify_error_response(resp));
    }
    match parse_status(resp.body.as_str()) {
        Some(st) => Ok(st),
        None => Err(deserialization_failure("response body did not match the status shape")),
    }
}

} // verus!
