//! A development certificate authority: it creates a self-signed root, issues
//! leaf certificates under it, and keeps the key material on disk, the entry in
//! the system trust store and the recorded thumbprint in step.
//!
//! The library decides and computes; the program around it reads and writes
//! files and talks to the trust store.

pub mod authority;
pub mod config;
pub mod consistency;
pub mod env;
pub mod error;
pub mod issuer;
pub mod lifecycle;
pub mod store;
pub mod thumbprint;
pub mod x509;
