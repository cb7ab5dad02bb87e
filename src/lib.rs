//! A network client core: bearer-token injection, response classification and
//! the WebSocket lifecycle, shared by a socket backend and a host-embedded one.

pub mod body;
pub mod classify;
pub mod client;
pub mod error;
pub mod ws;

pub use body::{recv_bytes, Body};
pub use classify::Response;
pub use client::{Client, Header, Request};
pub use error::Error;
