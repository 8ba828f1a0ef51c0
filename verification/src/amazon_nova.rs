//! The Amazon Nova family: requests built from a prompt and attachments,
//! replies read back.

pub mod canvas;
pub mod text;
