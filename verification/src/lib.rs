//! A minimal peer-to-peer text chat library.
//!
//! Each running instance listens for inbound messages over HTTP and lets its
//! operator compose and push messages to another instance. This crate holds
//! the verified core: the message data type and its wire codec, the
//! interactive session's state machine, the relay between network threads and
//! the interactive loop, and the outbound send path. The surrounding program
//! (terminal rendering, the HTTP server, argument handling) lives outside the
//! library and only hands plain values in and out.

pub mod cli;
pub mod codec;
pub mod message;
pub mod outbound;
pub mod relay;
pub mod session;
