//! Decision logic of an HTTP gateway in front of a Solana RPC node and a
//! block-explorer REST service.
//!
//! The gateway answers four kinds of request. For each of them this crate says
//! which upstream operation comes next and, once the upstream has answered,
//! which HTTP status and JSON body go back to the client. Performing the
//! upstream operations and serving HTTP is left to the caller.

pub mod accounts;
pub mod address;
pub mod json;
pub mod laws;
pub mod response;
pub mod status;
pub mod transactions;
pub mod upstream;
