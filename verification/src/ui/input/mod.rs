//! Attachment classification and size limits for dropped, picked or pasted
//! files.

pub mod attachments;
