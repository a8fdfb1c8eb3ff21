//! CryptoAuth: authenticated, encrypted point-to-point links between mesh peers.
//!
//! A [`context::CryptoAuth`] owns a node's long-term key pair and the
//! credentials it accepts. A [`session::Session`] is the per-peer handshake
//! state machine; bytes enter it through one of its two pipeline endpoints and
//! what it emits is handed back to the caller, who owns the transport.
//!
//! The state machine itself is the pure function of [`model`]; [`session`]
//! runs it, [`laws`] and [`agreement`] say what follows from it. The time and
//! fresh random bytes come from the caller, through [`sources`]. All
//! cryptography is done by the primitives of [`primitives`].
#![allow(non_snake_case)]
#![allow(non_camel_case_types)]

pub mod bytes;
pub mod primitives;
pub mod keys;
pub mod credentials;
pub mod wire;
pub mod handshake;
pub mod model;
pub mod sources;
pub mod context;
pub mod session;
pub mod endpoint;
pub mod laws;
pub mod agreement;
pub mod rffi;
