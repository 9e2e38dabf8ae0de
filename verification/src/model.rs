//! The service's behaviour over an idealized filesystem.
//!
//! The filesystem is modeled as a map from path bytes to file bytes, in
//! which every directory creation and write succeeds; the real
//! filesystem may of course refuse an operation, which the executable
//! layer answers with the not-found response. Over this model the
//! per-connection step is a function of the peer, the buffered message
//! and the filesystem, and the service's guarantees — the origin
//! boundary, round-trip identity of writes, that reads create nothing,
//! and that malformed requests are dropped harmlessly — are proved as
//! lemmas here.

use vstd::prelude::*;
use crate::fspath::{normalize_target, parent_of};
use crate::http::{parse_message_spec, ParsedRequestView};
use crate::response::{not_found_response, read_success_response, write_success_response};
use crate::router::{method_get, method_post, route_spec, OperationView};

verus! {

/// Applies one routed operation to the model filesystem, yielding the
/// filesystem afterwards and the response owed to the client.
pub open spec fn apply_operation(fs: Map<Seq<u8>, Seq<u8>>, op: OperationView) -> (
    Map<Seq<u8>, Seq<u8>>,
    Seq<u8>,
) {
    match op {
        OperationView::Read { fs_path } => {
            if fs.contains_key(fs_path) {
                (fs, read_success_response(fs[fs_path]))
            } else {
                (fs, not_found_response())
            }
        },
        OperationView::Write { fs_path, parent, data } => (
            fs.insert(fs_path, data),
            write_success_response(),
        ),
        OperationView::Unsupported => (fs, not_found_response()),
    }
}

/// One whole connection: a peer off the loopback interface, or a message
/// that is not one complete well-formed request, is dropped with no
/// response and no effect; otherwise the parsed request's operation is
/// applied and its response sent.
pub open spec fn connection_step(
    loopback: bool,
    message: Seq<u8>,
    fs: Map<Seq<u8>, Seq<u8>>,
) -> (Map<Seq<u8>, Seq<u8>>, Option<Seq<u8>>) {
    if !loopback {
        (fs, None)
    } else {
        match parse_message_spec(message) {
            Some(req) => {
                let step = apply_operation(fs, route_spec(req));
                (step.0, Some(step.1))
            },
            None => (fs, None),
        }
    }
}

/// A connection from a peer that is not the loopback address is closed
/// with no bytes written back and no effect on any file.
pub proof fn lemma_non_loopback_dropped(message: Seq<u8>, fs: Map<Seq<u8>, Seq<u8>>)
    ensures
        connection_step(false, message, fs) == (fs, None::<Seq<u8>>),
{
}

/// A message that is not one complete well-formed request is dropped:
/// no response is sent and no file is touched; other connections are
/// untouched by construction, each step owning only its own state.
pub proof fn lemma_malformed_dropped(message: Seq<u8>, fs: Map<Seq<u8>, Seq<u8>>)
    requires
        parse_message_spec(message) is None,
    ensures
        connection_step(true, message, fs) == (fs, None::<Seq<u8>>),
{
}

/// A read of a path that holds no file answers not-found and leaves the
/// filesystem exactly as it was: the path is not created.
pub proof fn lemma_read_missing_creates_nothing(req: ParsedRequestView, fs: Map<Seq<u8>, Seq<u8>>)
    requires
        req.method == method_get(),
        !fs.contains_key(normalize_target(req.target)),
    ensures
        apply_operation(fs, route_spec(req)) == (fs, not_found_response()),
{
}

/// Round-trip identity: a write of `data` followed by a read of the same
/// target, with no request in between, succeeds and returns exactly
/// `data`.
pub proof fn lemma_write_then_read(
    wreq: ParsedRequestView,
    rreq: ParsedRequestView,
    fs: Map<Seq<u8>, Seq<u8>>,
)
    requires
        wreq.method == method_post(),
        rreq.method == method_get(),
        rreq.target == wreq.target,
    ensures
        ({
            let after_write = apply_operation(fs, route_spec(wreq));
            let after_read = apply_operation(after_write.0, route_spec(rreq));
            &&& after_write.0 == fs.insert(normalize_target(wreq.target), wreq.body)
            &&& after_write.1 == write_success_response()
            &&& after_read.1 == read_success_response(wreq.body)
            &&& after_read.0 == after_write.0
        }),
{
}

/// A write names the parent directory chain of its own target, so the
/// directories the surrounding process creates before writing are
/// exactly the missing parents of the file written.
pub proof fn lemma_write_names_parent(req: ParsedRequestView)
    requires
        req.method == method_post(),
    ensures
        route_spec(req) matches OperationView::Write { fs_path, parent, data }
            && fs_path == normalize_target(req.target)
            && parent == parent_of(normalize_target(req.target))
            && data == req.body,
{
}

} // verus!
