//! A duplex message relay: one participant exchanges an independently paced
//! stream of messages with a counterpart over a long-lived connection.
//!
//! The core decouples "receive inbound messages" from "produce outbound
//! messages" with a bounded FIFO queue between a reader flow and a writer
//! flow, coordinated by a small session state machine. Around the core sit
//! three collaborators: an in-memory room registry, a host-information
//! query surface, and the computational half of a single-shot reverse proxy.

pub mod client;
pub mod hotel;
pub mod info;
pub mod manager;
pub mod message;
pub mod proxy;
pub mod queue;
pub mod session;
