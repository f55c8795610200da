//! A unified streaming text-completion core: one abstraction over a remote
//! HTTP chat-completion service and a locally loaded model, consumed as an
//! incremental stream of text fragments.
//!
//! The crate holds the logic of that layer — message records, provider
//! selection, the remote request shape, the server-sent-event frame decoder,
//! the local generation step machine, and the conversation bookkeeping —
//! each with a contract. The surrounding process (HTTP transport, the native
//! inference backend, async plumbing) drives these pieces from outside.

pub mod conversation;
pub mod error;
pub mod local;
pub mod message;
pub mod paths;
pub mod personality;
pub mod provider;
pub mod remote;
pub mod sse;
