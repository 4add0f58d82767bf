//! A minimal game-session backend: a message codec, a shared session
//! configuration store with whole-record replace semantics, and the pure
//! halves of a chat-relay handler (prompt building and reply mapping).
//! The HTTP routing and the outbound network call live outside the library.

pub mod message;
pub mod relay;
pub mod store;
