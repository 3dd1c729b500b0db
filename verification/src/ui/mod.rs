//! UI-side logic: the simplified stream the chat view consumes, the
//! translators that produce it, the chat data model, settings, and the
//! turn state machine.

pub mod app;
pub mod chat;
pub mod chat_settings;
pub mod input;
pub mod model;
pub mod permission_modal;
pub mod provider;
pub mod services;
pub mod session;
pub mod settings;
pub mod storage;
pub mod stream;
pub mod turn;
