//! A real-time message relay: command decoding, presence tracking, a
//! connection registry and store-and-forward delivery, with every transition
//! stated as a contract over mathematical models of the stores.

pub mod cassandra;
pub mod command;
pub mod decimal;
pub mod error;
pub mod handlers;
pub mod im;
pub mod keyvalue;
pub mod laws;
pub mod message;
pub mod registry;
pub mod session;
pub mod status;
