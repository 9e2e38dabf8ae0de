//! Encoding of the two wire responses: success and not-found.
//!
//! A successful read answers with a status line, a `Content-Length`
//! header, a blank line and the file bytes; a successful write answers
//! with the bare status line; every failure answers with the not-found
//! status line and no body. Verus takes no byte-character literals, so
//! the protocol text stands here as ASCII codes, each literal spelled
//! out once in a spec function whose comment gives the text.

use vstd::prelude::*;

verus! {

/// ASCII carriage return.
pub const CR: u8 = 13;

/// ASCII line feed.
pub const LF: u8 = 10;

/// The decimal digits of `n`, most significant first, as ASCII bytes.
pub open spec fn dec_digits(n: nat) -> Seq<u8>
    decreases n,
{
    if n < 10 {
        seq![(n + 48) as u8]
    } else {
        dec_digits(n / 10).push((n % 10 + 48) as u8)
    }
}

/// `"HTTP/1.1 200 OK\r\n"`
pub open spec fn status_ok() -> Seq<u8> {
    seq![72u8, 84, 84, 80, 47, 49, 46, 49, 32, 50, 48, 48, 32, 79, 75, 13, 10]
}

/// `"HTTP/1.1 404 NOT FOUND\r\n"`
pub open spec fn status_not_found() -> Seq<u8> {
    seq![72u8, 84, 84, 80, 47, 49, 46, 49, 32, 52, 48, 52, 32, 78, 79, 84, 32, 70, 79, 85, 78, 68, 13, 10]
}

/// `"Content-Length: <n>\r\n"`
pub open spec fn content_length_header(n: nat) -> Seq<u8> {
    seq![67u8, 111, 110, 116, 101, 110, 116, 45, 76, 101, 110, 103, 116, 104, 58, 32]
        + dec_digits(n) + seq![CR, LF]
}

/// The whole response to a successful read: status line, length header,
/// blank line, then the file bytes themselves.
pub open spec fn read_success_response(body: Seq<u8>) -> Seq<u8> {
    status_ok() + content_length_header(body.len()) + seq![CR, LF] + body
}

/// The whole response to a successful write: the bare status line.
pub open spec fn write_success_response() -> Seq<u8> {
    status_ok()
}

/// The whole response to any failed or unroutable operation.
pub open spec fn not_found_response() -> Seq<u8> {
    status_not_found()
}

/// Appends the decimal digits of `n` to `out`.
pub fn push_decimal(out: &mut Vec<u8>, n: usize)
    ensures
        final(out)@ == old(out)@ + dec_digits(n as nat),
    decreases n,
{
    if n < 10 {
        out.push((n as u8) + 48);
    } else {
        push_decimal(out, n / 10);
        out.push((n % 10) as u8 + 48);
    }
}

/// Appends `"HTTP/1.1 200 OK\r\n"` to `out`.
fn push_status_ok(out: &mut Vec<u8>)
    ensures
        final(out)@ == old(out)@ + status_ok(),
{
    out.push(72);
    out.push(84);
    out.push(84);
    out.push(80);
    out.push(47);
    out.push(49);
    out.push(46);
    out.push(49);
    out.push(32);
    out.push(50);
    out.push(48);
    out.push(48);
    out.push(32);
    out.push(79);
    out.push(75);
    out.push(CR);
    out.push(LF);
    assert(out@ =~= old(out)@ + status_ok());
}

/// The response bytes for a read that found the file: headers then body.
pub fn encode_read_success(body: &Vec<u8>) -> (r: Vec<u8>)
    ensures
        r@ == read_success_response(body@),
{
    let mut out: Vec<u8> = Vec::new();
    push_status_ok(&mut out);
    out.push(67);
    out.push(111);
    out.push(110);
    out.push(116);
    out.push(101);
    out.push(110);
    out.push(116);
    out.push(45);
    out.push(76);
    out.push(101);
    out.push(110);
    out.push(103);
    out.push(116);
    out.push(104);
    out.push(58);
    out.push(32);
    push_decimal(&mut out, body.len());
    out.push(CR);
    out.push(LF);
    out.push(CR);
    out.push(LF);
    let mut tail = copy_bytes(body);
    out.append(&mut tail);
    assert(out@ =~= read_success_response(body@));
    out
}

/// A fresh vector holding the same bytes.
pub fn copy_bytes(src: &Vec<u8>) -> (r: Vec<u8>)
    ensures
        r@ == src@,
{
    let mut out: Vec<u8> = Vec::new();
    let mut i: usize = 0;
    while i < src.len()
        invariant
            i <= src@.len(),
            out@ == src@.take(i as int),
        decreases src@.len() - i,
    {
        out.push(src[i]);
        i = i + 1;
        assert(out@ =~= src@.take(i as int));
    }
    assert(out@ =~= src@);
    out
}

/// The response bytes for a write that succeeded.
pub fn encode_write_success() -> (r: Vec<u8>)
    ensures
        r@ == write_success_response(),
{
    let mut out: Vec<u8> = Vec::new();
    push_status_ok(&mut out);
    out
}

/// The response bytes for a failed or unroutable operation.
pub fn encode_not_found() -> (r: Vec<u8>)
    ensures
        r@ == not_found_response(),
{
    let mut out: Vec<u8> = Vec::new();
    out.push(72);
    out.push(84);
    out.push(84);
    out.push(80);
    out.push(47);
    out.push(49);
    out.push(46);
    out.push(49);
    out.push(32);
    out.push(52);
    out.push(48);
    out.push(52);
    out.push(32);
    out.push(78);
    out.push(79);
    out.push(84);
    out.push(32);
    out.push(70);
    out.push(79);
    out.push(85);
    out.push(78);
    out.push(68);
    out.push(CR);
    out.push(LF);
    assert(out@ =~= not_found_response());
    out
}

} // verus!
