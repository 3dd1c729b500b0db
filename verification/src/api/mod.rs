//! Provider-facing types: the provider-neutral stream events, the
//! Anthropic wire stream events, and provider capabilities.

pub mod provider_types;
pub mod providers;
pub mod request_options;
pub mod registry;
pub mod streaming;
pub mod uploads;
