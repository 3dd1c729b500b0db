//! Data carried by the chat agent: the tools it offers and its transcript.

use vstd::prelude::*;

use crate::types::ContentBlock;

verus! {

/// A tool offered to the model: just enough metadata for the request.
#[derive(Clone)]
pub struct Tool {
    pub name: String,
    pub description: String,
    pub input_schema: serde_json::Value,
}

/// A message of the chat agent's transcript.
#[derive(Debug, Clone)]
pub enum Message {
    User { role: String, content: Vec<ContentBlock> },
    Assistant { role: String, content: Vec<ContentBlock> },
}

} // verus!
