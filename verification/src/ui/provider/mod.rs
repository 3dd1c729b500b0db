//! Translators from provider stream formats into `ui::stream::StreamEvent`.

pub mod anthropic;
pub mod openai;
pub mod unified;
