//! The HTTP answers the adapter gives, as plain values.
use vstd::prelude::*;

verus! {

/// The status lines the adapter answers with.
#[derive(Clone, Copy, Debug, PartialEq, Eq, Structural)]
pub enum Status {
    Success,
    NotFound,
    PayloadTooLarge,
    InternalServerError,
}

/// The numeric code of a status.
pub open spec fn status_code(status: Status) -> u16 {
    match status {
        Status::Success => 200,
        Status::NotFound => 404,
        Status::PayloadTooLarge => 413,
        Status::InternalServerError => 500,
    }
}

/// The codes of the statuses are those of HTTP: 200, 404, 413 and 500, and
/// the body of a refusal labelled as JSON is the two bytes `[` and `]`.
pub proof fn status_codes_and_empty_batch()
    ensures
        status_code(Status::Success) == 200,
        status_code(Status::NotFound) == 404,
        status_code(Status::PayloadTooLarge) == 413,
        status_code(Status::InternalServerError) == 500,
        empty_batch() == seq!['[' as u8, ']' as u8],
{
    assert(empty_batch() =~= seq!['[' as u8, ']' as u8]);
}

impl Status {
    /// The numeric HTTP code of this status.
    pub fn code(&self) -> (c: u16)
        ensures
            c == status_code(*self),
    {
        match self {
            Status::Success => 200,
            Status::NotFound => 404,
            Status::PayloadTooLarge => 413,
            Status::InternalServerError => 500,
        }
    }
}

/// The JSON text `[]`: the body of every refusal that claims a JSON body.
pub open spec fn empty_batch() -> Seq<u8> {
    seq![0x5bu8, 0x5du8]
}

/// An answer: its status, whether it is labelled `application/json`, and
/// its body.
pub struct Reply {
    pub status: Status,
    pub json: bool,
    pub body: Vec<u8>,
}

fn empty_batch_bytes() -> (b: Vec<u8>)
    ensures
        b@ == empty_batch(),
{
    let mut b: Vec<u8> = Vec::new();
    b.push(0x5b);
    b.push(0x5d);
    b
}

impl Reply {
    /// This answer has the given status, is labelled as JSON, and its body is
    /// the empty batch `[]`.
    pub open spec fn is_empty_batch_answer(&self, status: Status) -> bool {
        &&& self.status == status
        &&& self.json
        &&& self.body@ == empty_batch()
    }

    /// This answer has the given status, no content type and no body.
    pub open spec fn is_bare_answer(&self, status: Status) -> bool {
        &&& self.status == status
        &&& !self.json
        &&& self.body@.len() == 0
    }

    /// A refusal labelled as JSON whose body is the empty batch `[]`.
    pub fn empty_batch(status: Status) -> (r: Reply)
        ensures
            r.status == status,
            r.json,
            r.body@ == empty_batch(),
    {
        Reply { status, json: true, body: empty_batch_bytes() }
    }

    /// A bare answer: no content type and an empty body.
    pub fn bare(status: Status) -> (r: Reply)
        ensures
            r.status == status,
            !r.json,
            r.body@.len() == 0,
    {
        Reply { status, json: false, body: Vec::new() }
    }

    /// The answer to a websocket request when websockets are not served:
    /// not found, with the body `[]` and no content type.
    pub fn websocket_unavailable() -> (r: Reply)
        ensures
            r.status == Status::NotFound,
            !r.json,
            r.body@ == empty_batch(),
    {
        Reply { status: Status::NotFound, json: false, body: empty_batch_bytes() }
    }

    /// A successful answer that carries the serialized response of the router.
    pub fn success(body: Vec<u8>) -> (r: Reply)
        ensures
            r.status == Status::Success,
            r.json,
            r.body@ == body@,
    {
        Reply { status: Status::Success, json: true, body }
    }
}

} // verus!
