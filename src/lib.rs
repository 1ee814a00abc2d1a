//! Error types for a client of a remote HTTP/JSON API: the records that the
//! service reports, the failure of asynchronous media processing, and one
//! closed enum that every failure of the client is classified into.

pub mod text;
pub mod twitter;
pub mod json;
pub mod outside;
pub mod media;
pub mod error;
pub mod single_shot;
