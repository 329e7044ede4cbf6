//! The failures that the bridge reports to its callers.

use crate::json::{json_doc, members_of, object_value, text_value, JsonDoc};
use crate::strmap::{has_key, lemma_position, Entry};
use serde_json::Value;
use vstd::prelude::*;

verus! {

/// The kinds of failure, each with its HTTP status.
#[derive(Clone, Copy, Debug, PartialEq, Eq, Structural)]
pub enum Status {
    /// A malformed request or an unusable module description.
    BadRequest,
    /// A path outside what a worker may use, or a wrong key.
    Forbidden,
    /// An unknown module or method.
    NotFound,
    /// A call whose deadline passed.
    Timeout,
    /// A worker that failed or could not be reached.
    Internal,
}

/// The HTTP status code of each kind of failure.
pub open spec fn status_code(status: Status) -> u16 {
    match status {
        Status::BadRequest => 400,
        Status::Forbidden => 403,
        Status::NotFound => 404,
        Status::Timeout => 408,
        Status::Internal => 500,
    }
}

impl Status {
    /// The HTTP status code.
    pub fn code(self) -> (r: u16)
        ensures
            r == status_code(self),
    {
        match self {
            Status::BadRequest => 400,
            Status::Forbidden => 403,
            Status::NotFound => 404,
            Status::Timeout => 408,
            Status::Internal => 500,
        }
    }
}

/// A failure with the message that the caller is shown.
#[derive(Debug)]
pub struct AppError {
    pub status: Status,
    pub message: String,
}

/// The body of an error response: an object whose only member, `detail`,
/// is the message.
pub open spec fn detail_doc(message: Seq<char>) -> JsonDoc {
    JsonDoc::Object(Map::<Seq<char>, JsonDoc>::empty().insert("detail"@, JsonDoc::Text(message)))
}

impl AppError {
    /// The kind and the message of this failure.
    pub open spec fn view(self) -> (Status, Seq<char>) {
        (self.status, self.message@)
    }

    /// A failure of kind `status` with the text `message`.
    pub fn new(status: Status, message: &str) -> (r: Self)
        ensures
            r@ == (status, message@),
    {
        AppError { status, message: message.to_owned() }
    }

    /// The body of the response that reports this failure.
    pub fn body(&self) -> (r: Value)
        ensures
            json_doc(r) == detail_doc(self.message@),
    {
        let mut entries: Vec<Entry<Value>> = Vec::new();
        entries.push(Entry { key: "detail".to_owned(), value: text_value(self.message.clone()) });
        proof {
            lemma_position(entries@, 0);
            assert forall|k: Seq<char>| has_key(entries@, k) implies k == "detail"@ by {}
            assert(members_of(entries@) =~= Map::<Seq<char>, JsonDoc>::empty().insert(
                "detail"@,
                JsonDoc::Text(self.message@),
            ));
        }
        object_value(entries)
    }
}

} // verus!
