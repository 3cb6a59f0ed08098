//! Wire format, requests and responses of a small file-transfer protocol,
//! with the decisions its client and server take.
pub mod wire;
pub mod header;
pub mod request;
pub mod response;
pub mod laws;
pub mod command;
pub mod client;
pub mod server;
