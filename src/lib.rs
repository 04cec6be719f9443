//! Checks a signature over a data blob against a passphrase-protected
//! private key held in a PEM container.
//!
//! The library holds the verification pipeline and every decision around it:
//! how command-line flags select what to do, how missing inputs are reported,
//! how a key container is opened, how the SHA-256 verifier is driven, and
//! which exit status and report each outcome maps to. Reading files,
//! prompting for the passphrase and printing are left to the caller.
pub mod crypto;
pub mod error;
pub mod key;
pub mod signature;
pub mod run;
