//! One module for each endpoint.

pub mod chat_completion;
pub mod create_image;
