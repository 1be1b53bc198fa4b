//! Routing core of a virtual-hosting reverse proxy: the host table, the
//! exact-match resolver from a hostname to its backend, the per-handshake
//! certificate selector and the redirect responder.

pub mod app;
pub mod certificate;
pub mod header;
pub mod lookup;
pub mod response;
pub mod service;
pub mod text;

