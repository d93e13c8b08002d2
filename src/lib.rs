//! Chat-history core of a chat-completion front end: conversation records,
//! conversation identifiers, and the decisions of each service operation.
//! Storage and the completion provider are reached by the caller.

pub mod message;
pub mod id;
pub mod chat;
pub mod completion;
pub mod config;
pub mod store;
pub mod service;
