//! A small SOCKS5 relay core: wire-format parsing and encoding for the
//! greeting/CONNECT handshake, textual rendering of decoded target hosts,
//! and the initialize/start/stop lifecycle of the relay service.
//!
//! Network I/O, the async runtime and the anonymity backend live outside
//! this crate; everything here is plain decision logic on bytes and state,
//! verified against the contracts it states.

pub mod handles;
pub mod hosttext;
pub mod lifecycle;
pub mod socks5;
