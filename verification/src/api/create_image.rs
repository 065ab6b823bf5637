//! Image generation: the options, the request and its builder, and the
//! response.

pub mod options;
pub mod request;
pub mod response;

pub use options::{ImageModel, ImageQuality, ImageResposeFormat, ImageSize, ImageStyle};
pub use request::{CreateImageRequest, CreateImageRequestBuilder};
pub use response::{CreateImageResponse, ImageObject};
