//! A loopback-only file service: the protocol engine.
//!
//! The library holds the verified core of a small local file server:
//! deciding which port to bind next, guarding against non-local peers,
//! framing an inbound byte stream into one message, parsing the message
//! into a request, routing the request to a filesystem operation, and
//! encoding the response bytes. The surrounding process performs the
//! socket and filesystem calls and feeds their outcomes back in.
//!
//! The wire format is path-addressed: the request target names the
//! filesystem path directly, resolved relative to the working directory.
//! `GET` retrieves the bytes at that path; `POST` stores the raw request
//! body there, creating parent directories first. The client only ever
//! sees `200 OK` or `404 NOT FOUND`.

pub mod binder;
pub mod fspath;
pub mod http;
pub mod model;
pub mod origin;
pub mod reader;
pub mod response;
pub mod router;
