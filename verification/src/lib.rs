//! Typed request and response models for a generative-AI HTTP API.
//!
//! A request type is built from typed parameters and turned into the method,
//! URL and JSON body of an HTTP request; a response type is decoded from the
//! JSON body of the answer. Nothing here sends anything.

pub mod api;
pub mod error;
pub mod json;
pub mod request;
pub mod text;

pub use api::chat_completion::{ChatCompletionResponse, ChatcompletionRequest};
pub use api::create_image::{
    CreateImageRequest, CreateImageRequestBuilder, CreateImageResponse, ImageModel, ImageObject,
    ImageQuality, ImageResposeFormat, ImageSize, ImageStyle,
};
pub use error::{CodecError, ValidationError};
pub use request::{IntoRequest, Method, Request};
