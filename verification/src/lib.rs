//! Small building blocks for message-driven services: a cloneable handle
//! that submits requests to a single worker, and an uninhabited error type.

mod channel;
pub mod service;
pub mod never;

pub use never::Never;
