//! A chat-bot file relay: inbound file references are queued, fetched one at a
//! time into local storage and served back as plain HTTP links.

pub mod chat_config;
pub mod cli;
pub mod config;
pub mod ingress;
pub mod naming;
pub mod paths;
pub mod queue;
pub mod server;
pub mod text;
pub mod worker;
