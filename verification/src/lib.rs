//! The message layer of a single-route echo gateway: the envelope that the
//! route accepts, and the handler that answers it.
//!
//! Everything here works on plain values. Decoding a request body into an
//! envelope and encoding the reply are left to the HTTP front end.

pub mod envelope;
pub mod handler;

pub use envelope::Post;
pub use handler::post;
