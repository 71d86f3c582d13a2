//! Network Error Logging: classification of network failures into the
//! error types of the NEL report format (`dns.name_not_resolved`,
//! `tcp.failed`, `tls.cert.date_invalid`, ...).
//!
//! The classification is verified: each classifier over plain values states
//! in its contract exactly which NEL error type it gives for which failure;
//! the `from_*` functions, which read opaque error values of std, hyper and
//! reqwest, state the classification in terms of what those values report
//! (leaving open what std decodes per platform); and `laws` proves
//! properties that hold across them.

pub mod error;
pub mod http;
pub mod io;
pub mod laws;
mod outside;
pub mod text;
pub mod tls;

pub use error::Error;
pub use http::{classify_native_tls_text, classify_reqwest_failure, from_hyper_error, from_reqwest_error};
pub use io::{carries_os_error_code, classify_io_error_text, classify_io_failure, from_io_error, IoKind};
pub use tls::{rustls_error_to_nel, CertFailure, TlsFailure};
