//! An HTTP bridge for a sandboxed user interface: the requests it may not make
//! itself (a token exchange, REST and GraphQL calls, a multipart webhook) are
//! described here in full, and each response is mapped to a status/body
//! envelope or to a tagged transport error.

pub mod envelope;
pub mod request;
pub mod text;
