//! Decisions behind a terminal Wi-Fi manager: the modal application state
//! machine, the rules of the network protocol client, and the key bindings.
//!
//! Everything here works on plain values. Reading the terminal, talking to the
//! system bus and drawing frames are left to the program around this library.

pub mod app;
pub mod command;
pub mod connect;
pub mod display;
pub mod editor;
pub mod error;
pub mod keys;
pub mod network;
pub mod profiles;
pub mod scan;
pub mod security;
pub mod text;
