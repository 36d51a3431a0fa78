//! What the TLS, certificate and HTTP probes report, computed from the
//! plain values a handshake, a certificate and a response provide.

pub mod cert;
pub mod http;
pub mod tls;
