//! Multi-turn conversation: typed media blocks, tool declarations and the
//! history of one session.

pub mod conversation;
pub mod modalities;
pub mod tool_use;
