//! The image generation request and reply, field for field as the
//! published schema names them.

use vstd::prelude::*;

verus! {

#[derive(Debug, Clone, PartialEq, Eq)]
pub struct CanvasRequest {
    pub task_type: String,
    pub text_to_image_params: TextToImageParams,
    /// Left out of the wire form where `None`.
    pub image_generation_config: Option<ImageGenerationConfig>,
}

#[derive(Debug, Clone, PartialEq, Eq)]
pub struct TextToImageParams {
    pub text: String,
    /// Left out of the wire form where empty.
    pub negative_text: String,
}

#[derive(Debug, Clone, Copy, PartialEq, Eq)]
pub struct ImageGenerationConfig;

#[derive(Debug, Clone, PartialEq, Eq)]
pub struct CanvasResponse {
    /// One base64 text per generated image.
    pub images: Vec<String>,
    pub error: Option<String>,
}

} // verus!
