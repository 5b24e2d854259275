//! A handle to a dynamically loaded native module, the rules by which its
//! one well-known entry point is invoked, and the protocol a callback bridge
//! follows when native code reports back.

pub mod error;
pub mod native;
pub mod channel;
pub mod library;
pub mod bridge;
