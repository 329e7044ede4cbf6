//! The line protocol between the bridge and a worker: one JSON object per
//! line, requests out and replies in.

use crate::json::{
    array_value, copy_value, docs_of, field_of, json_doc, json_parse, json_render, members_of,
    null_value, object_value, parse_value, render_value, text_in, text_value,
    value_digits, value_field, value_is_null, value_is_object, value_items, value_text, JsonDoc,
};
use crate::error::{AppError, Status};
use crate::strmap::{distinct_keys, has_key, lemma_position, Entry};
use crate::text::text_of;
use vstd::string::StringExecFns;
use serde_json::Value;
use vstd::prelude::*;

verus! {

/// A failure that a worker reported, or that stands for a worker that went
/// away.
#[derive(Clone, Debug)]
pub struct WorkerError {
    pub code: String,
    pub message: String,
}

/// A reply that bore an identifier: the call it answers and how that call
/// ended.
pub struct Reply {
    pub id: String,
    pub outcome: Result<Value, WorkerError>,
}

/// How a call ended, over models: the result, or the code and the message of
/// the failure.
pub type Outcome = Result<JsonDoc, (Seq<char>, Seq<char>)>;

/// The identifier of a reply: the member `id` where it is a string, its
/// printed digits where it is a number, and nothing otherwise.
pub open spec fn reply_id(doc: JsonDoc) -> Option<Seq<char>> {
    match field_of(doc, "id"@) {
        Some(JsonDoc::Text(s)) => Some(s),
        Some(JsonDoc::Number(n)) => Some(n),
        _ => None,
    }
}

/// The string member `key` of `doc`, or `fallback` where there is none.
pub open spec fn text_member_or(doc: JsonDoc, key: Seq<char>, fallback: Seq<char>) -> Seq<
    char,
> {
    match field_of(doc, key) {
        Some(JsonDoc::Text(s)) => s,
        _ => fallback,
    }
}

/// How the call that a reply answers ended. A reply with a member `error`
/// is a failure, whatever else it holds; any other reply is a success with
/// the member `result`, or with null where that is missing.
pub open spec fn reply_outcome(doc: JsonDoc) -> Outcome {
    match field_of(doc, "error"@) {
        Some(err) => Err(
            (
                text_member_or(err, "code"@, "worker_error"@),
                text_member_or(err, "message"@, "Worker error"@),
            ),
        ),
        None => Ok(
            match field_of(doc, "result"@) {
                Some(r) => r,
                None => JsonDoc::Null,
            },
        ),
    }
}

/// The model of an outcome.
pub open spec fn outcome_model(r: Result<Value, WorkerError>) -> Outcome {
    match r {
        Ok(v) => Ok(json_doc(v)),
        Err(e) => Err((e.code@, e.message@)),
    }
}

/// The model of an optional reply.
pub open spec fn reply_model(r: Option<Reply>) -> Option<(Seq<char>, Outcome)> {
    match r {
        Some(reply) => Some((reply.id@, outcome_model(reply.outcome))),
        None => None,
    }
}

/// What a parsed line means: a reply where it bears an identifier, nothing
/// otherwise.
pub open spec fn decoded(doc: JsonDoc) -> Option<(Seq<char>, Outcome)> {
    match reply_id(doc) {
        Some(id) => Some((id, reply_outcome(doc))),
        None => None,
    }
}

/// What a line of a worker's output means: lines that are no JSON and lines
/// without an identifier mean nothing.
pub open spec fn decoded_line(line: Seq<char>) -> Option<(Seq<char>, Outcome)> {
    match json_parse(line) {
        Some(doc) => decoded(doc),
        None => None,
    }
}

/// The identifier that a reply bears, if any.
pub fn response_id(value: &Value) -> (r: Option<String>)
    ensures
        text_of(r) == reply_id(json_doc(*value)),
{
    match value_field(value, "id") {
        Some(id) => match value_text(id) {
            Some(s) => Some(s.to_owned()),
            None => value_digits(id),
        },
        None => None,
    }
}

/// The string member `key` of `value`, or `fallback`.
fn member_text_or(value: &Value, key: &str, fallback: &str) -> (r: String)
    ensures
        r@ == text_member_or(json_doc(*value), key@, fallback@),
{
    match value_field(value, key) {
        Some(member) => match value_text(member) {
            Some(s) => s.to_owned(),
            None => fallback.to_owned(),
        },
        None => fallback.to_owned(),
    }
}

/// Classifies a reply as success or failure.
pub fn parse_worker_response(value: Value) -> (r: Result<Value, WorkerError>)
    ensures
        outcome_model(r) == reply_outcome(json_doc(value)),
{
    match value_field(&value, "error") {
        Some(err) => {
            let code = member_text_or(err, "code", "worker_error");
            let message = member_text_or(err, "message", "Worker error");
            Err(WorkerError { code, message })
        },
        None => match value_field(&value, "result") {
            Some(result) => Ok(copy_value(result)),
            None => Ok(null_value()),
        },
    }
}

/// Reads a parsed line as a reply.
pub fn decode_value(value: Value) -> (r: Option<Reply>)
    ensures
        reply_model(r) == decoded(json_doc(value)),
{
    match response_id(&value) {
        Some(id) => {
            let outcome = parse_worker_response(value);
            Some(Reply { id, outcome })
        },
        None => None,
    }
}

/// Reads one line of a worker's output.
pub fn decode_line(line: &str) -> (r: Option<Reply>)
    ensures
        reply_model(r) == decoded_line(line@),
{
    match parse_value(line) {
        Some(value) => decode_value(value),
        None => None,
    }
}

/// The request that asks for `method` with `params` under the identifier
/// `id`: an object with exactly the members `id`, `method` and `params`.
pub open spec fn request_doc(id: Seq<char>, method: Seq<char>, params: Seq<JsonDoc>) -> JsonDoc {
    JsonDoc::Object(
        Map::<Seq<char>, JsonDoc>::empty().insert("id"@, JsonDoc::Text(id)).insert(
            "method"@,
            JsonDoc::Text(method),
        ).insert("params"@, JsonDoc::Array(params)),
    )
}

/// The line that carries a request: its compact text and a line feed;
/// `None` for a request that cannot be written.
pub open spec fn request_text(id: Seq<char>, method: Seq<char>, params: Seq<JsonDoc>) -> Option<
    Seq<char>,
> {
    match json_render(request_doc(id, method, params)) {
        Some(text) => Some(text + "\n"@),
        None => None,
    }
}

/// Whether a text is one line: it ends with a line feed and holds no other.
pub open spec fn one_line(text: Seq<char>) -> bool {
    text.len() > 0 && text.last() == '\n' && !text.drop_last().contains('\n')
}

/// Builds the request envelope.
pub fn request_value(id: &str, method: &str, params: Vec<Value>) -> (r: Value)
    ensures
        json_doc(r) == request_doc(id@, method@, docs_of(params@)),
{
    let ghost items = docs_of(params@);
    let mut entries: Vec<Entry<Value>> = Vec::new();
    entries.push(Entry { key: "id".to_owned(), value: text_value(id.to_owned()) });
    entries.push(Entry { key: "method".to_owned(), value: text_value(method.to_owned()) });
    entries.push(Entry { key: "params".to_owned(), value: array_value(params) });
    proof {
        reveal_strlit("id");
        reveal_strlit("method");
        reveal_strlit("params");
        assert("id"@.len() == 2 && "method"@.len() == 6 && "params"@.len() == 6);
        assert("method"@[0] == 'm' && "params"@[0] == 'p');
        assert(distinct_keys(entries@));
        lemma_position(entries@, 0);
        lemma_position(entries@, 1);
        lemma_position(entries@, 2);
        assert forall|k: Seq<char>| has_key(entries@, k) implies k == "id"@ || k == "method"@
            || k == "params"@ by {}
        assert(members_of(entries@) =~= Map::<Seq<char>, JsonDoc>::empty().insert(
            "id"@,
            JsonDoc::Text(id@),
        ).insert("method"@, JsonDoc::Text(method@)).insert("params"@, JsonDoc::Array(items)));
    }
    object_value(entries)
}

/// Ends a rendered request with a line feed; a request that could not be
/// rendered is a bad request. A rendered text without line feed gives one
/// line.
pub fn frame_request(rendered: Option<String>) -> (r: Result<String, AppError>)
    ensures
        match rendered {
            Some(text) => {
                &&& r matches Ok(line) && line@ == text@ + "\n"@
                &&& !text@.contains('\n') ==> one_line(r->Ok_0@)
            },
            None => r matches Err(e) && e@ == (Status::BadRequest, "Invalid payload"@),
        },
{
    match rendered {
        Some(text) => {
            let line = text.concat("\n");
            proof {
                reveal_strlit("\n");
                assert(line@.drop_last() =~= text@);
            }
            Ok(line)
        },
        None => Err(AppError::new(Status::BadRequest, "Invalid payload")),
    }
}

/// The line to write to a worker for one call: the request's compact text
/// as one line. A request that cannot be written is a bad request.
pub fn request_line(id: &str, method: &str, params: Vec<Value>) -> (r: Result<String, AppError>)
    ensures
        match request_text(id@, method@, docs_of(params@)) {
            Some(text) => r matches Ok(line) && line@ == text && one_line(line@),
            None => r matches Err(e) && e@ == (Status::BadRequest, "Invalid payload"@),
        },
{
    let request = request_value(id, method, params);
    frame_request(render_value(&request))
}

/// The arguments that the member `args` of a request's body stands for: an
/// array gives its items, an object and null give none, and anything else
/// is no list of arguments.
pub open spec fn args_of(doc: JsonDoc) -> Option<Seq<JsonDoc>> {
    match doc {
        JsonDoc::Array(items) => Some(items),
        JsonDoc::Object(_) => Some(Seq::<JsonDoc>::empty()),
        JsonDoc::Null => Some(Seq::<JsonDoc>::empty()),
        _ => None,
    }
}

/// The arguments of a call, from the body of its request. The body is an
/// object; where it has no member `args` the call has no arguments.
pub open spec fn body_args(body: JsonDoc) -> Option<Seq<JsonDoc>> {
    match body {
        JsonDoc::Object(m) => if m.contains_key("args"@) {
            args_of(m["args"@])
        } else {
            Some(Seq::<JsonDoc>::empty())
        },
        _ => None,
    }
}

/// The model of a list of arguments or the failure in its place.
pub open spec fn args_model(r: Result<Vec<Value>, AppError>) -> Result<
    Seq<JsonDoc>,
    (Status, Seq<char>),
> {
    match r {
        Ok(items) => Ok(docs_of(items@)),
        Err(e) => Err(e@),
    }
}

/// What `args_model` is to be for an optional list of arguments.
pub open spec fn args_or_refusal(args: Option<Seq<JsonDoc>>, message: Seq<char>) -> Result<
    Seq<JsonDoc>,
    (Status, Seq<char>),
> {
    match args {
        Some(items) => Ok(items),
        None => Err((Status::BadRequest, message)),
    }
}

/// Reads the member `args` of a body as a list of arguments.
pub fn deserialize_args(value: &Value) -> (r: Result<Vec<Value>, AppError>)
    ensures
        args_model(r) == args_or_refusal(
            args_of(json_doc(*value)),
            "expected array or empty object"@,
        ),
{
    match value_items(value) {
        Some(items) => Ok(items),
        None => if value_is_object(value) || value_is_null(value) {
            let none: Vec<Value> = Vec::new();
            assert(docs_of(none@) =~= Seq::<JsonDoc>::empty());
            Ok(none)
        } else {
            Err(AppError::new(Status::BadRequest, "expected array or empty object"))
        },
    }
}

/// Reads the arguments of a call from the body of its request.
pub fn call_args(body: &Value) -> (r: Result<Vec<Value>, AppError>)
    ensures
        args_model(r) == (match json_doc(*body) {
            JsonDoc::Object(m) => if m.contains_key("args"@) {
                args_or_refusal(args_of(m["args"@]), "expected array or empty object"@)
            } else {
                Ok(Seq::<JsonDoc>::empty())
            },
            _ => Err((Status::BadRequest, "Invalid payload"@)),
        }),
{
    if !value_is_object(body) {
        return Err(AppError::new(Status::BadRequest, "Invalid payload"));
    }
    match value_field(body, "args") {
        Some(args) => deserialize_args(args),
        None => {
            let none: Vec<Value> = Vec::new();
            assert(docs_of(none@) =~= Seq::<JsonDoc>::empty());
            Ok(none)
        },
    }
}

/// A value as an argument on a command line: a string stands for its own
/// text, any other value for its compact JSON text. `None` where that text
/// cannot be written.
pub fn value_to_string(value: &Value) -> (r: Option<String>)
    ensures
        text_of(r) == (match text_in(json_doc(*value)) {
            Some(s) => Some(s),
            None => json_render(json_doc(*value)),
        }),
{
    match value_text(value) {
        Some(s) => Some(s.to_owned()),
        None => render_value(value),
    }
}

} // verus!
