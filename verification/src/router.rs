//! Routing a parsed request to a filesystem operation.
//!
//! `GET` retrieves the bytes at the target path; `POST` stores the body
//! at the target path, creating the parent directory chain first; any
//! other method is unsupported and answered with the not-found response.
//! The filesystem calls themselves are performed by the surrounding
//! process, which feeds their outcomes to [`respond_read`] and
//! [`respond_write`].

use vstd::prelude::*;
use crate::fspath::{normalize, normalize_target, parent_dir, parent_of, lemma_normalized_has_slash};
use crate::http::{ParsedRequest, ParsedRequestView};
use crate::response::{
    encode_not_found, encode_read_success, encode_write_success, not_found_response,
    read_success_response, write_success_response,
};

verus! {

/// The ASCII bytes of `"GET"`.
pub open spec fn method_get() -> Seq<u8> {
    seq![71u8, 69, 84]
}

/// The ASCII bytes of `"POST"`.
pub open spec fn method_post() -> Seq<u8> {
    seq![80u8, 79, 83, 84]
}

/// The filesystem operation a request calls for.
pub enum Operation {
    /// Retrieve the bytes stored at `fs_path`.
    Read { fs_path: Vec<u8> },
    /// Create the directory chain `parent`, then store `data` at
    /// `fs_path`.
    Write { fs_path: Vec<u8>, parent: Vec<u8>, data: Vec<u8> },
    /// No operation: the method is neither `GET` nor `POST`.
    Unsupported,
}

/// The mathematical value of an [`Operation`].
pub enum OperationView {
    Read { fs_path: Seq<u8> },
    Write { fs_path: Seq<u8>, parent: Seq<u8>, data: Seq<u8> },
    Unsupported,
}

impl View for Operation {
    type V = OperationView;

    open spec fn view(&self) -> OperationView {
        match self {
            Operation::Read { fs_path } => OperationView::Read { fs_path: fs_path@ },
            Operation::Write { fs_path, parent, data } => (OperationView::Write {
                fs_path: fs_path@,
                parent: parent@,
                data: data@,
            }),
            Operation::Unsupported => OperationView::Unsupported,
        }
    }
}

/// The operation a request routes to: a read of the normalized target
/// for `GET`, a write of the body at the normalized target (below its
/// parent directory chain) for `POST`, and nothing otherwise.
pub open spec fn route_spec(req: ParsedRequestView) -> OperationView {
    if req.method == method_get() {
        OperationView::Read { fs_path: normalize_target(req.target) }
    } else if req.method == method_post() {
        OperationView::Write {
            fs_path: normalize_target(req.target),
            parent: parent_of(normalize_target(req.target)),
            data: req.body,
        }
    } else {
        OperationView::Unsupported
    }
}

/// Whether `m` holds exactly the bytes of `"GET"`.
fn is_get(m: &Vec<u8>) -> (r: bool)
    ensures
        r == (m@ == method_get()),
{
    let r = m.len() == 3 && m[0] == 71 && m[1] == 69 && m[2] == 84;
    proof {
        if r {
            assert(m@ =~= method_get());
        }
    }
    r
}

/// Whether `m` holds exactly the bytes of `"POST"`.
fn is_post(m: &Vec<u8>) -> (r: bool)
    ensures
        r == (m@ == method_post()),
{
    let r = m.len() == 4 && m[0] == 80 && m[1] == 79 && m[2] == 83 && m[3] == 84;
    proof {
        if r {
            assert(m@ =~= method_post());
        }
    }
    r
}

/// Routes a parsed request to the operation it calls for.
pub fn route(req: ParsedRequest) -> (op: Operation)
    ensures
        op@ == route_spec(req@),
{
    if is_get(&req.method) {
        let fs_path = normalize(&req.target);
        Operation::Read { fs_path }
    } else if is_post(&req.method) {
        let fs_path = normalize(&req.target);
        proof {
            lemma_normalized_has_slash(req.target@);
        }
        let parent = parent_dir(&fs_path);
        Operation::Write { fs_path, parent, data: req.body }
    } else {
        Operation::Unsupported
    }
}

/// The response owed to a read, given the bytes the filesystem returned
/// for the path, or `None` where the read failed.
pub fn respond_read(outcome: Option<Vec<u8>>) -> (r: Vec<u8>)
    ensures
        outcome matches Some(d) ==> r@ == read_success_response(d@),
        outcome is None ==> r@ == not_found_response(),
{
    match outcome {
        Some(d) => encode_read_success(&d),
        None => encode_not_found(),
    }
}

/// The response owed to a write, given whether the parent directory
/// chain was created and whether the write itself succeeded (the write
/// is only attempted after the directories exist).
pub fn respond_write(dirs_ok: bool, write_ok: bool) -> (r: Vec<u8>)
    ensures
        dirs_ok && write_ok ==> r@ == write_success_response(),
        !(dirs_ok && write_ok) ==> r@ == not_found_response(),
{
    if dirs_ok && write_ok {
        encode_write_success()
    } else {
        encode_not_found()
    }
}

/// The response owed to a request whose method is unsupported.
pub fn respond_unsupported() -> (r: Vec<u8>)
    ensures
        r@ == not_found_response(),
{
    encode_not_found()
}

} // verus!
