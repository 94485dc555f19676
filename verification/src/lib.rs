//! A minimal on-ledger program: one persisted boolean flag behind a small
//! message interface, and a self-contained Ed25519 signature check against
//! embedded constants.
//!
//! The `ed25519` module parses raw public-key and signature encodings and
//! evaluates the Ed25519 verification equation through the `ed25519_compact`
//! crate; the `contract` module holds the flag and dispatches the embedded
//! verification scenario.

pub mod contract;
pub mod ed25519;

pub use contract::EdSignatureTest;
