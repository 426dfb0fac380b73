//! Plain replies, and the form extractor's way of refusing a request.

use vstd::prelude::*;
use vstd::string::*;

verus! {

/// An HTTP reply made of a status code and a text body.
#[derive(Debug)]
pub struct TextReply {
    pub status: u16,
    pub message: String,
}

/// Status code of a successful request.
pub const STATUS_OK: u16 = 200;

/// Status code of a request the server refuses as malformed.
pub const STATUS_BAD_REQUEST: u16 = 400;

/// Status code of a form that could not be deserialized.
pub const STATUS_UNPROCESSABLE_ENTITY: u16 = 422;

/// Status code of a failure on the server's side.
pub const STATUS_INTERNAL_SERVER_ERROR: u16 = 500;

/// The body of every refused form.
pub open spec fn form_rejection_text() -> Seq<char> {
    "Deserialization failed. Are you sure this is a URL?"@
}

/// A deserialized form.
pub struct Form<T>(pub T);

impl<T> Form<T> {
    /// What the form extractor hands on: the value when deserialization
    /// succeeded, else a reply that keeps the refusal's status code and carries
    /// the fixed rejection text.
    pub fn from_request(extracted: Result<T, u16>) -> (res: Result<Form<T>, TextReply>)
        ensures
            match extracted {
                Ok(v) => res matches Ok(f) && f.0 == v,
                Err(status) => res matches Err(r) && r.status == status && r.message@
                    == form_rejection_text(),
            },
    {
        match extracted {
            Ok(v) => Ok(Form(v)),
            Err(status) => Err(
                TextReply {
                    status,
                    message: String::from_str("Deserialization failed. Are you sure this is a URL?"),
                },
            ),
        }
    }
}

} // verus!
