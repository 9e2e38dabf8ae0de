//! End-to-end protocol tests: parsing, routing, path resolution and
//! response encoding, with the real `httparse` linked in.

use filebridge::fspath::{normalize, parent_dir};
use filebridge::http::parse_message;
use filebridge::response::{encode_not_found, encode_read_success, encode_write_success, push_decimal};
use filebridge::router::{respond_read, respond_unsupported, respond_write, route, Operation};

fn bytes(s: &[u8]) -> Vec<u8> {
    s.to_vec()
}

#[test]
fn post_then_get_round_trip() {
    // The write: POST /tmp/a/b.txt with a five-byte body.
    let message = bytes(b"POST /tmp/a/b.txt HTTP/1.1\r\nContent-Length: 5\r\n\r\nhello");
    let req = parse_message(&message).expect("complete request");
    assert_eq!(req.method, bytes(b"POST"));
    assert_eq!(req.target, bytes(b"/tmp/a/b.txt"));
    assert_eq!(req.body, bytes(b"hello"));

    match route(req) {
        Operation::Write { fs_path, parent, data } => {
            assert_eq!(fs_path, bytes(b"./tmp/a/b.txt"));
            assert_eq!(parent, bytes(b"./tmp/a"));
            assert_eq!(data, bytes(b"hello"));
        }
        _ => panic!("POST must route to a write"),
    }
    assert_eq!(respond_write(true, true), bytes(b"HTTP/1.1 200 OK\r\n"));

    // The read back: GET of the same target returns exactly the bytes.
    let message = bytes(b"GET /tmp/a/b.txt HTTP/1.1\r\n\r\n");
    let req = parse_message(&message).expect("complete request");
    assert_eq!(req.method, bytes(b"GET"));
    assert_eq!(req.body, bytes(b""));
    match route(req) {
        Operation::Read { fs_path } => assert_eq!(fs_path, bytes(b"./tmp/a/b.txt")),
        _ => panic!("GET must route to a read"),
    }
    assert_eq!(
        respond_read(Some(bytes(b"hello"))),
        bytes(b"HTTP/1.1 200 OK\r\nContent-Length: 5\r\n\r\nhello")
    );
}

#[test]
fn get_of_missing_path_is_not_found() {
    let message = bytes(b"GET /does/not/exist HTTP/1.1\r\n\r\n");
    let req = parse_message(&message).expect("complete request");
    match route(req) {
        Operation::Read { fs_path } => assert_eq!(fs_path, bytes(b"./does/not/exist")),
        _ => panic!("GET must route to a read"),
    }
    assert_eq!(respond_read(None), bytes(b"HTTP/1.1 404 NOT FOUND\r\n"));
}

#[test]
fn missing_method_does_not_parse() {
    let message = bytes(b" /path HTTP/1.1\r\n\r\n");
    assert!(parse_message(&message).is_none());
}

#[test]
fn truncated_header_block_does_not_parse() {
    let message = bytes(b"GET /x HTTP/1.1\r\n");
    assert!(parse_message(&message).is_none());
}

#[test]
fn garbage_does_not_parse() {
    let message = bytes(b"\x01\x02\x03\x04");
    assert!(parse_message(&message).is_none());
}

#[test]
fn unsupported_method_routes_to_nothing() {
    let message = bytes(b"PUT /x HTTP/1.1\r\n\r\nignored");
    let req = parse_message(&message).expect("complete request");
    assert!(matches!(route(req), Operation::Unsupported));
    assert_eq!(respond_unsupported(), bytes(b"HTTP/1.1 404 NOT FOUND\r\n"));
}

#[test]
fn body_is_everything_after_headers() {
    let message = bytes(b"POST /f HTTP/1.1\r\nX-Extra: 1\r\n\r\nbody with\r\nline breaks");
    let req = parse_message(&message).expect("complete request");
    assert_eq!(req.body, bytes(b"body with\r\nline breaks"));
}

#[test]
fn write_failures_are_not_found() {
    assert_eq!(respond_write(false, false), bytes(b"HTTP/1.1 404 NOT FOUND\r\n"));
    assert_eq!(respond_write(false, true), bytes(b"HTTP/1.1 404 NOT FOUND\r\n"));
    assert_eq!(respond_write(true, false), bytes(b"HTTP/1.1 404 NOT FOUND\r\n"));
}

#[test]
fn read_success_of_empty_body() {
    assert_eq!(
        encode_read_success(&bytes(b"")),
        bytes(b"HTTP/1.1 200 OK\r\nContent-Length: 0\r\n\r\n")
    );
}

#[test]
fn status_lines_are_exact() {
    assert_eq!(encode_write_success(), bytes(b"HTTP/1.1 200 OK\r\n"));
    assert_eq!(encode_not_found(), bytes(b"HTTP/1.1 404 NOT FOUND\r\n"));
}

#[test]
fn decimal_digits_are_exact() {
    let cases: &[(usize, &[u8])] = &[
        (0, b"0"),
        (5, b"5"),
        (10, b"10"),
        (105, b"105"),
        (1024, b"1024"),
        (usize::MAX, b"18446744073709551615"),
    ];
    for (n, expected) in cases {
        let mut out: Vec<u8> = Vec::new();
        push_decimal(&mut out, *n);
        assert_eq!(out, expected.to_vec());
    }
}

#[test]
fn targets_resolve_under_working_directory() {
    assert_eq!(normalize(&bytes(b"/x")), bytes(b"./x"));
    assert_eq!(normalize(&bytes(b"///a/b")), bytes(b"./a/b"));
    assert_eq!(normalize(&bytes(b"x")), bytes(b"./x"));
    assert_eq!(normalize(&bytes(b"")), bytes(b"./"));
    assert_eq!(normalize(&bytes(b"/")), bytes(b"./"));
}

#[test]
fn parent_is_everything_before_last_slash() {
    assert_eq!(parent_dir(&bytes(b"./tmp/a/b.txt")), bytes(b"./tmp/a"));
    assert_eq!(parent_dir(&bytes(b"./x")), bytes(b"."));
    assert_eq!(parent_dir(&bytes(b"./")), bytes(b"."));
}
