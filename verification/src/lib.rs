//! A small HTTP/1.1 server library: request reading, routing, responses and
//! static files, with the server's decisions proved against their contracts.
pub mod text;
pub mod keyed;
pub mod http;
pub mod request;
pub mod server;
pub mod respond;
pub mod files;
pub mod handlers;
