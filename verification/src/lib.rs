//! The decisions behind writing a file to Backblaze B2, at once or in parts.
//!
//! [`writer::B2Writer`] turns each operation into a request and the exchange that it opens. An
//! exchange is stepped through with what the service answers until it holds the result.

pub mod acknowledgement;
pub mod laws;
pub mod part;
pub mod request;
pub mod response;
pub mod retrieval;
pub mod writer;
