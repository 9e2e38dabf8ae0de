//! Framing one buffered message into a request.
//!
//! The header grammar itself is delegated to the `httparse` crate; what
//! that parser makes of a byte buffer is named by [`http_parse`] and not
//! restated. Everything downstream of the parse — taking the body tail,
//! routing, encoding — is verified against that name.

use vstd::prelude::*;
use vstd::slice::{slice_subrange, slice_to_vec};

verus! {

/// What `httparse` makes of one buffered message: `None` where the bytes
/// are not one complete well-formed request (a malformed or truncated
/// header block), `Some((method, target, offset))` where they are, with
/// `offset` the index at which the body begins.
pub uninterp spec fn http_parse(bytes: Seq<u8>) -> Option<(Seq<u8>, Seq<u8>, int)>;

/// Relies on `httparse::Request::parse` (given room for 64 headers): on a
/// complete well-formed request it returns `Ok(Status::Complete(n))` with
/// `n` the byte offset in the buffer at which the body starts, never past
/// the end of the buffer, and with the request's method and target filled
/// in; a truncated or malformed header block parses to `Partial` or an
/// error, and yields no request here.
#[verifier::external_body]
fn run_httparse(message: &Vec<u8>) -> (r: Option<(Vec<u8>, Vec<u8>, usize)>)
    ensures
        r is Some ==> http_parse(message@) is Some,
        r is Some ==> (((r->0).0)@, ((r->0).1)@, (r->0).2 as int) == http_parse(message@)->0,
        r is Some ==> (r->0).2 <= message@.len(),
        r is None ==> http_parse(message@) is None,
{
    let mut headers = [httparse::EMPTY_HEADER; 64];
    let mut req = httparse::Request::new(&mut headers);
    match req.parse(message.as_slice()) {
        Ok(httparse::Status::Complete(offset)) => match (req.method, req.path) {
            (Some(m), Some(p)) => Some((m.as_bytes().to_vec(), p.as_bytes().to_vec(), offset)),
            _ => None,
        },
        _ => None,
    }
}

/// One parsed request: method token, target path, and the raw body bytes
/// that followed the header block.
pub struct ParsedRequest {
    pub method: Vec<u8>,
    pub target: Vec<u8>,
    pub body: Vec<u8>,
}

/// The mathematical value of a [`ParsedRequest`].
pub struct ParsedRequestView {
    pub method: Seq<u8>,
    pub target: Seq<u8>,
    pub body: Seq<u8>,
}

impl View for ParsedRequest {
    type V = ParsedRequestView;

    open spec fn view(&self) -> ParsedRequestView {
        ParsedRequestView { method: self.method@, target: self.target@, body: self.body@ }
    }
}

/// The request a buffered message parses to, if any: the method and
/// target that `httparse` extracted, and everything after the header
/// block as the body.
pub open spec fn parse_message_spec(bytes: Seq<u8>) -> Option<ParsedRequestView> {
    match http_parse(bytes) {
        Some(t) => Some(ParsedRequestView { method: t.0, target: t.1, body: bytes.skip(t.2) }),
        None => None,
    }
}

/// A fresh vector holding `src[from..]`.
pub fn tail_from(src: &Vec<u8>, from: usize) -> (r: Vec<u8>)
    requires
        from <= src@.len(),
    ensures
        r@ == src@.skip(from as int),
{
    let r = slice_to_vec(slice_subrange(src.as_slice(), from, src.len()));
    assert(r@ =~= src@.skip(from as int));
    r
}

/// Parses one buffered message into a request, or reports that the bytes
/// are not one complete well-formed request.
pub fn parse_message(message: &Vec<u8>) -> (r: Option<ParsedRequest>)
    ensures
        r is Some <==> parse_message_spec(message@) is Some,
        r is Some ==> (r->0)@ == parse_message_spec(message@)->0,
{
    match run_httparse(message) {
        Some((method, target, offset)) => {
            let body = tail_from(message, offset);
            Some(ParsedRequest { method, target, body })
        },
        None => None,
    }
}

} // verus!
