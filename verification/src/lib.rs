//! A small failure type for applications.
//!
//! * [`Fail`] is a chain of context messages that ends in an optional root
//!   cause.
//! * [`Error`] wraps a [`Fail`] for code that wants a dedicated error value.
//! * [`FailExt`] attaches context to `Result` and `Option` values.
//!
//! Every function is verified against the mathematical model in [`model`].

pub mod error;
pub mod ext;
pub mod fail;
pub mod laws;
pub mod message;
pub mod model;

pub use error::Error;
pub use ext::FailExt;
pub use fail::Fail;
pub use message::Message;
