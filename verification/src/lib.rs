//! Request and reply mapping, and failure reporting, for a knowledge service.
//!
//! The service receives wire messages, reshapes them into the vocabulary of a
//! knowledge engine, and reshapes the engine's results back into wire
//! messages. Every failure becomes a [`status::Status`] that a caller can act
//! on. The engine itself, the network listener and the process signals live
//! outside this library: each handler is split into the step before the engine
//! is invoked and the step after it has returned.

pub mod engine;
pub mod lifecycle;
pub mod service;
pub mod status;
pub mod tir_grpc;
