//! Gathering the body of a mutation request, chunk by chunk.
use vstd::prelude::*;
use crate::reply::{Reply, Status};

verus! {

/// `BytesMut` of the `bytes` crate (re-exported by actix-web), the buffer the
/// body is gathered in.
#[verifier::external_type_specification]
#[verifier::external_body]
pub struct ExBytesMut(actix_web::web::BytesMut);

/// The bytes a `BytesMut` holds.
pub uninterp spec fn bytes_mut_contents(buffer: actix_web::web::BytesMut) -> Seq<u8>;

/// `BytesMut::new`: an empty buffer.
#[verifier::external_body]
fn bytes_mut_new() -> (b: actix_web::web::BytesMut)
    ensures
        bytes_mut_contents(b) == Seq::<u8>::empty(),
{
    actix_web::web::BytesMut::new()
}

/// `BytesMut::len`: how many bytes the buffer holds.
#[verifier::external_body]
fn bytes_mut_len(buffer: &actix_web::web::BytesMut) -> (n: usize)
    ensures
        n == bytes_mut_contents(*buffer).len(),
{
    buffer.len()
}

/// `BytesMut::extend_from_slice`: appends the bytes. It grows the buffer's
/// allocation, which panics past `isize::MAX` bytes, so larger totals are
/// left out.
#[verifier::external_body]
fn bytes_mut_extend(buffer: &mut actix_web::web::BytesMut, chunk: &[u8])
    requires
        bytes_mut_contents(*old(buffer)).len() + chunk@.len() <= isize::MAX,
    ensures
        bytes_mut_contents(*final(buffer)) == bytes_mut_contents(*old(buffer)) + chunk@,
{
    buffer.extend_from_slice(chunk)
}

/// `<BytesMut as Deref>::deref`: the bytes the buffer holds, as a slice.
#[verifier::external_body]
fn bytes_mut_as_slice(buffer: &actix_web::web::BytesMut) -> (s: &[u8])
    ensures
        s@ == bytes_mut_contents(*buffer),
{
    buffer
}

/// The body bytes received so far.
pub struct BodyBuffer {
    bytes: actix_web::web::BytesMut,
}

impl View for BodyBuffer {
    type V = Seq<u8>;

    closed spec fn view(&self) -> Seq<u8> {
        bytes_mut_contents(self.bytes)
    }
}

impl BodyBuffer {
    /// An empty body.
    pub fn new() -> (b: BodyBuffer)
        ensures
            b@ == Seq::<u8>::empty(),
    {
        BodyBuffer { bytes: bytes_mut_new() }
    }

    /// Appends a received chunk. When the body would grow past what the
    /// buffer can hold (`isize::MAX` bytes), the body stays as it was and the
    /// answer is 413 with no body.
    pub fn push_chunk(&mut self, chunk: &[u8]) -> (r: Result<(), Reply>)
        ensures
            old(self)@.len() + chunk@.len() <= isize::MAX ==> r is Ok && final(self)@ == old(
                self,
            )@ + chunk@,
            old(self)@.len() + chunk@.len() > isize::MAX ==> final(self)@ == old(self)@ && (
            r matches Err(reply) && reply.is_bare_answer(Status::PayloadTooLarge)),
    {
        let len = bytes_mut_len(&self.bytes);
        let limit = isize::MAX as usize;
        if len > limit || chunk.len() > limit - len {
            return Err(Reply::bare(Status::PayloadTooLarge));
        }
        bytes_mut_extend(&mut self.bytes, chunk);
        Ok(())
    }

    /// The answer when a chunk of the body could not be received: 500 with no
    /// body.
    pub fn chunk_failed() -> (r: Reply)
        ensures
            r.is_bare_answer(Status::InternalServerError),
    {
        Reply::bare(Status::InternalServerError)
    }

    /// The body received so far.
    pub fn as_slice(&self) -> (s: &[u8])
        ensures
            s@ == self@,
    {
        bytes_mut_as_slice(&self.bytes)
    }
}

} // verus!
