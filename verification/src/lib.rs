//! A minimal HTTP/1.0 server core: the request parser, the protocol
//! vocabulary and the response serializer, each with a proved contract.

pub mod configuration;
pub mod fields;
pub mod protocol;
pub mod request;
pub mod response;
pub mod server;
pub mod text;
