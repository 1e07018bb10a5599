//! The replies sent back to the client, one per processed message.
use vstd::prelude::*;
use vstd::slice::slice_to_vec;
use vstd::utf8::encode_utf8;

verus! {

/// The whole reply to a message that played to its end: OK with an empty body.
pub const SUCCESS_TEXT: &'static str = "HTTP/1.1 200 OK\r\nContent-Length: 0\r\n\r\n";

/// The start of the reply to a message holding an unknown character; the
/// character's byte follows it.
pub const ERROR_PREFIX_TEXT: &'static str = "HTTP/1.1 400 Bad Request\r\nX-Unknown-Morse-Character: ";

/// What ends an error reply, after the character's byte.
pub const ERROR_END_TEXT: &'static str = "\r\n\r\n";

/// The outcome of one message, as reported to the client.
#[derive(Clone, Copy, Debug, PartialEq, Eq, Structural)]
pub enum Response {
    /// Every character was played.
    Success,
    /// Playing stopped at a character outside the alphabet; this is its byte.
    Error(u8),
}

/// The bytes of the success reply.
pub open spec fn success_bytes() -> Seq<u8> {
    encode_utf8(SUCCESS_TEXT@)
}

/// The bytes that come before the offending byte in an error reply.
pub open spec fn error_prefix_bytes() -> Seq<u8> {
    encode_utf8(ERROR_PREFIX_TEXT@)
}

/// The bytes that come after the offending byte in an error reply.
pub open spec fn error_end_bytes() -> Seq<u8> {
    encode_utf8(ERROR_END_TEXT@)
}

/// The bytes written to the client for a response.
pub open spec fn response_bytes_of(r: Response) -> Seq<u8> {
    match r {
        Response::Success => success_bytes(),
        Response::Error(b) => error_prefix_bytes() + seq![b] + error_end_bytes(),
    }
}

/// The bytes of the success reply.
pub fn success_reply() -> (r: Vec<u8>)
    ensures
        r@ == success_bytes(),
{
    slice_to_vec(SUCCESS_TEXT.as_bytes())
}

/// The bytes that open an error reply.
pub fn error_reply_prefix() -> (r: Vec<u8>)
    ensures
        r@ == error_prefix_bytes(),
{
    slice_to_vec(ERROR_PREFIX_TEXT.as_bytes())
}

/// The bytes that close an error reply.
pub fn error_reply_end() -> (r: Vec<u8>)
    ensures
        r@ == error_end_bytes(),
{
    slice_to_vec(ERROR_END_TEXT.as_bytes())
}

/// The full reply for a response, in the order in which it is written.
pub fn response_bytes(r: Response) -> (out: Vec<u8>)
    ensures
        out@ == response_bytes_of(r),
{
    match r {
        Response::Success => success_reply(),
        Response::Error(b) => {
            let mut out = error_reply_prefix();
            out.push(b);
            let end = error_reply_end();
            let mut i: usize = 0;
            let ghost start = out@;
            while i < end.len()
                invariant
                    0 <= i <= end@.len(),
                    end@ == error_end_bytes(),
                    start == error_prefix_bytes() + seq![b],
                    out@ == start + end@.subrange(0, i as int),
                decreases end@.len() - i,
            {
                out.push(end[i]);
                i += 1;
                assert(end@.subrange(0, i as int) == end@.subrange(0, i - 1) + seq![end@[i - 1]]);
            }
            assert(end@.subrange(0, end@.len() as int) == end@);
            out
        },
    }
}

} // verus!
