//! The message envelope routed between caller and service, and the closed
//! error taxonomy surfaced to callers.

use vstd::prelude::*;
use crate::json::Json;

verus! {

/// The unit of communication: the service it is for (`target`), the requested
/// operation within that service (`op`), and an opaque structured payload.
/// A response is always a fresh envelope; no handler mutates its request.
pub struct VosMessage {
    pub target: String,
    pub op: String,
    pub payload: Json,
}

/// The failures a caller of the routing layer can see.
#[derive(Debug)]
pub enum VosError {
    /// The operation is unrecognized by the targeted service, or the payload
    /// fails to match the operation's expected shape.
    BadRequest(String),
    /// An arbitrary domain failure from a handler, wrapped losslessly.
    Internal(String),
}

impl VosError {
    /// The human-readable message carried by the error.
    pub open spec fn message_view(&self) -> Seq<char> {
        match self {
            VosError::BadRequest(m) => m@,
            VosError::Internal(m) => m@,
        }
    }

    /// Reads the message out of the error.
    pub fn message(&self) -> (r: &str)
        ensures
            r@ == self.message_view(),
    {
        match self {
            VosError::BadRequest(m) => m.as_str(),
            VosError::Internal(m) => m.as_str(),
        }
    }
}

/// An error envelope: `target` and `op` read "error" and the payload carries
/// the message under the key "err".
pub open spec fn is_error_envelope(m: VosMessage, err: Seq<char>) -> bool {
    &&& m.target@ == "error"@
    &&& m.op@ == "error"@
    &&& m.payload matches Json::Obj(entries)
    &&& entries@.len() == 1
    &&& entries@[0].0@ == "err"@
    &&& entries@[0].1 matches Json::Str(s)
    &&& entries@[0].1->Str_0@ == err
}

/// Builds the response envelope for a failed request.
pub fn error_envelope(err: &str) -> (r: VosMessage)
    ensures
        is_error_envelope(r, err@),
{
    let mut entries: Vec<(String, Json)> = Vec::new();
    entries.push(("err".to_owned(), Json::Str(err.to_owned())));
    VosMessage {
        target: "error".to_owned(),
        op: "error".to_owned(),
        payload: Json::Obj(entries),
    }
}

/// An error envelope whose payload also carries details under a second key:
/// {"err": err, <detail_key>: details}.
pub open spec fn is_detailed_error_envelope(
    m: VosMessage,
    err: Seq<char>,
    detail_key: Seq<char>,
    details: Seq<char>,
) -> bool {
    &&& m.target@ == "error"@
    &&& m.op@ == "error"@
    &&& m.payload matches Json::Obj(entries)
    &&& entries@.len() == 2
    &&& entries@[0].0@ == "err"@
    &&& entries@[0].1 matches Json::Str(s)
    &&& entries@[0].1->Str_0@ == err
    &&& entries@[1].0@ == detail_key
    &&& entries@[1].1 matches Json::Str(d)
    &&& entries@[1].1->Str_0@ == details
}

/// Builds an error envelope carrying a code and a further detail entry.
pub fn detailed_error_envelope(err: &str, detail_key: &str, details: &str) -> (r: VosMessage)
    ensures
        is_detailed_error_envelope(r, err@, detail_key@, details@),
{
    let mut entries: Vec<(String, Json)> = Vec::new();
    entries.push(("err".to_owned(), Json::Str(err.to_owned())));
    entries.push((detail_key.to_owned(), Json::Str(details.to_owned())));
    VosMessage {
        target: "error".to_owned(),
        op: "error".to_owned(),
        payload: Json::Obj(entries),
    }
}

} // verus!
