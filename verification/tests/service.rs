//! Tests of the connection-level decisions: the origin guard, the port
//! binder steps, and the stream-framing helpers.

use filebridge::binder::{bind_step, BindDecision, PORT_MAX, PORT_MIN};
use filebridge::origin::{check_origin, PeerAddr};
use filebridge::reader::{append_chunk, message_complete};

#[test]
fn loopback_peers_are_accepted() {
    assert!(check_origin(&PeerAddr::V4 { octets: [127, 0, 0, 1] }));
    assert!(check_origin(&PeerAddr::V6 { segments: [0, 0, 0, 0, 0, 0, 0, 1] }));
}

#[test]
fn non_loopback_peers_are_rejected() {
    assert!(!check_origin(&PeerAddr::V4 { octets: [192, 168, 1, 1] }));
    assert!(!check_origin(&PeerAddr::V4 { octets: [127, 0, 0, 2] }));
    assert!(!check_origin(&PeerAddr::V4 { octets: [10, 0, 0, 1] }));
    assert!(!check_origin(&PeerAddr::V6 { segments: [0, 0, 0, 0, 0, 0, 0, 0] }));
    assert!(!check_origin(&PeerAddr::V6 { segments: [0x2001, 0xdb8, 0, 0, 0, 0, 0, 1] }));
}

#[test]
fn binder_listens_on_a_successful_bind() {
    assert!(matches!(bind_step(PORT_MIN, true), BindDecision::Listen { port: 1025 }));
    assert!(matches!(bind_step(2000, true), BindDecision::Listen { port: 2000 }));
}

#[test]
fn binder_skips_a_taken_port() {
    assert!(matches!(bind_step(PORT_MIN, false), BindDecision::Retry { next: 1026 }));
    assert!(matches!(bind_step(65533, false), BindDecision::Retry { next: 65534 }));
}

#[test]
fn binder_gives_up_after_the_last_port() {
    assert!(matches!(bind_step(PORT_MAX, false), BindDecision::GiveUp));
}

#[test]
fn chunks_accumulate_in_order() {
    let mut message: Vec<u8> = Vec::new();
    let chunk = b"abcd".to_vec();
    append_chunk(&mut message, &chunk, 4);
    append_chunk(&mut message, &chunk, 2);
    append_chunk(&mut message, &chunk, 0);
    assert_eq!(message, b"abcdab".to_vec());
}

#[test]
fn a_short_read_ends_the_message() {
    assert!(message_complete(0, 1024));
    assert!(message_complete(1023, 1024));
    assert!(!message_complete(1024, 1024));
}
