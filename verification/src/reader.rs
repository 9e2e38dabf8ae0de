//! Framing the inbound byte stream into one message.
//!
//! The stream is drained in fixed-size chunks; a read that returns fewer
//! bytes than were asked for marks the end of the message. The reads
//! themselves are performed by the surrounding process; this module
//! holds the two decisions of the loop: how a chunk extends the message,
//! and when the message is complete.

use vstd::prelude::*;
use vstd::slice::{slice_subrange, slice_to_vec};

verus! {

/// Appends the `got` bytes a read produced (the front of `chunk`) to the
/// message accumulated so far.
pub fn append_chunk(message: &mut Vec<u8>, chunk: &Vec<u8>, got: usize)
    requires
        got <= chunk@.len(),
    ensures
        final(message)@ == old(message)@ + chunk@.take(got as int),
{
    let mut front = slice_to_vec(slice_subrange(chunk.as_slice(), 0, got));
    message.append(&mut front);
    assert(message@ =~= old(message)@ + chunk@.take(got as int));
}

/// Whether a read of `got` bytes against a request of `asked` bytes ends
/// the message: a short read is the end-of-message marker.
pub fn message_complete(got: usize, asked: usize) -> (r: bool)
    ensures
        r == (got < asked),
{
    got < asked
}

} // verus!
