//! A blocking and a channel-based client over a publish/subscribe event loop,
//! with a connection whose execution context is handed to one driver at a time.
mod channel;
pub mod client;
pub mod connection;
pub mod request;



pub use request::{QoS, Request};
pub use client::{AsyncClient, Client, ClientError};
pub use connection::{Connection, ConnectionError, EventLoop, Iter};
