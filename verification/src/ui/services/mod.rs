//! The chat UI's agent service: the channel messages between the chat view
//! and the background agent, and the agent that turns a transcript into
//! provider requests.

pub mod agent;
