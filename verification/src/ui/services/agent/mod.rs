//! The agent behind the chat view: its transcript types, the UI <-> agent
//! channel messages, the GUI permission gate and the agent itself.

pub mod client;
pub mod messages;
pub mod permission_handler;
pub mod types;
