//! Requests for generated images.

use vstd::prelude::*;

verus! {

/// The model that draws the image.
#[derive(Debug, Clone, PartialEq)]
pub enum ImageModel {
    DallE2,
    DallE3,
    /// A model that is known by its name only.
    Other(String),
}

impl Default for ImageModel {
    fn default() -> (model: ImageModel)
        ensures
            model is DallE2,
    {
        ImageModel::DallE2
    }
}

/// The quality of the image.
#[derive(Debug, Clone, Copy, PartialEq, Eq, Structural)]
pub enum ImageQuality {
    Standard,
    HD,
}

impl Default for ImageQuality {
    fn default() -> (quality: ImageQuality)
        ensures
            quality == ImageQuality::Standard,
    {
        ImageQuality::Standard
    }
}

/// The style of the image.
#[derive(Debug, Clone, Copy, PartialEq, Eq, Structural)]
pub enum ImageStyle {
    Vivid,
    Natural,
}

impl Default for ImageStyle {
    fn default() -> (style: ImageStyle)
        ensures
            style == ImageStyle::Vivid,
    {
        ImageStyle::Vivid
    }
}

/// The width and height of the image, in pixels.
#[derive(Debug, Clone, Copy, PartialEq, Eq, Structural)]
pub enum ImageSize {
    S256x256,
    S512x512,
    S1024x1024,
    S1792x1024,
    S1024x1792,
}

impl Default for ImageSize {
    fn default() -> (size: ImageSize)
        ensures
            size == ImageSize::S1024x1024,
    {
        ImageSize::S1024x1024
    }
}

/// The sizes that the older image model can draw.
#[derive(Debug, Clone, Copy, PartialEq, Eq, Structural)]
pub enum DallE2ImageSize {
    S256x256,
    S512x512,
    S1024x1024,
}

impl Default for DallE2ImageSize {
    fn default() -> (size: DallE2ImageSize)
        ensures
            size == DallE2ImageSize::S1024x1024,
    {
        DallE2ImageSize::S1024x1024
    }
}

/// How the image comes back: as a link, or as its bytes in base 64.
#[derive(Debug, Clone, Copy, PartialEq, Eq, Structural)]
pub enum ResponseFormat {
    Url,
    B64Json,
}

impl Default for ResponseFormat {
    fn default() -> (format: ResponseFormat)
        ensures
            format == ResponseFormat::Url,
    {
        ResponseFormat::Url
    }
}

/// A request to draw images for a prompt.
#[derive(Debug, Clone, PartialEq)]
pub struct CreateImageRequest {
    /// The description of the image.
    pub prompt: String,
    /// The model asked for.
    pub model: Option<ImageModel>,
    /// The number of images, from one to ten.
    pub n: Option<u8>,
    /// The quality asked for.
    pub quality: Option<ImageQuality>,
    /// How the images are to come back.
    pub response_format: Option<ResponseFormat>,
    /// The size asked for.
    pub size: Option<ImageSize>,
    /// The style asked for.
    pub style: Option<ImageStyle>,
    /// An identifier of the end user, for abuse monitoring.
    pub user: Option<String>,
}

impl Default for CreateImageRequest {
    fn default() -> (request: CreateImageRequest)
        ensures
            request.prompt@.len() == 0,
            request.model is None,
            request.n is None,
            request.quality is None,
            request.response_format is None,
            request.size is None,
            request.style is None,
            request.user is None,
    {
        CreateImageRequest {
            prompt: String::new(),
            model: None,
            n: None,
            quality: None,
            response_format: None,
            size: None,
            style: None,
            user: None,
        }
    }
}

} // verus!
