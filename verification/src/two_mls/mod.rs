//! The classical session surface: cipher suites, key packages, PSKs, records and the
//! session that callers of the classical stack see.

pub mod cipher_suite;
pub mod error;
pub mod key_packages;
pub mod psk;
pub mod records;
pub mod session;
pub mod surface;
