//! The protocol core of a SOCKS5 proxy server, without any I/O of its own.
//!
//! A [`socks5::Sock5`] is one client session. Its driver owns the sockets: it
//! asks the session what to do ([`socks5::Sock5::demand`]), does it, and
//! hands back what came of it. The session decides what is sent to the
//! client, when the destination is connected to, when bytes are relayed and
//! how the session ends. [`auth::Auth`] is the credential store that sessions
//! consult, [`text`] holds the text forms of addresses, and [`laws`] what
//! holds of every session.

pub mod auth;
pub mod laws;
pub mod socks5;
pub mod text;
