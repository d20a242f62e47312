//! A client for a browser's remote-debugging protocol and a command bridge
//! between the host process and the page that the browser shows.
//!
//! Every function here is a step that decides or computes: the sockets, the
//! threads and the waiting belong to the caller, which hands each frame, event
//! and elapsed time to these functions and performs what they ask for.

pub mod attach;
pub mod browser;
pub mod cdp;
pub mod codec;
pub mod commands;
pub mod config;
pub mod discovery;
pub mod error;
pub mod ipc;
pub mod json;
pub mod port;
pub mod window;
