//! A SOCKS5 relay core: the handshake engine, the reply encoder, the
//! error-to-status mapping, the remote-connector decisions, and the
//! half-closing byte pipe. The sockets, the resolver and the scheduler are
//! the caller's; every protocol decision is made — and proved — here.

pub mod error;
pub mod pipe;
pub mod socks5;
pub mod utils;
