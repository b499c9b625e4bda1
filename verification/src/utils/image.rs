//! The vocabulary of image comparison and processing.

use vstd::prelude::*;
use vstd::std_specs::convert::FromSpecImpl;

verus! {

/// Image comparison, for visual testing.
pub struct ImageComparison;

/// Image processing.
pub struct ImageProcessing;

/// The ways of comparing two images.
#[derive(Debug, Clone, Copy, PartialEq, Eq, Structural)]
pub enum ComparisonAlgorithm {
    /// Pixel by pixel.
    PixelByPixel,
    /// By the structural similarity index.
    StructuralSimilarity,
    /// By perceptual hashes.
    PerceptualHash,
    /// By template matching.
    TemplateMatching,
}

/// The image formats that can be read and written.
#[derive(Debug, Clone, Copy, PartialEq, Eq, Structural)]
pub enum ImageFormat {
    PNG,
    JPEG,
    BMP,
    TIFF,
    WEBP,
}

/// The ways of detecting edges.
#[derive(Debug, Clone, Copy, PartialEq, Eq, Structural)]
pub enum EdgeDetectionAlgorithm {
    Sobel,
    Canny,
    Laplacian,
    Roberts,
}

/// The image format that a screenshot format of the configuration names.
pub open spec fn format_of(format: crate::config::ImageFormat) -> ImageFormat {
    match format {
        crate::config::ImageFormat::PNG => ImageFormat::PNG,
        crate::config::ImageFormat::JPEG => ImageFormat::JPEG,
        crate::config::ImageFormat::WEBP => ImageFormat::WEBP,
    }
}

impl From<crate::config::ImageFormat> for ImageFormat {
    fn from(format: crate::config::ImageFormat) -> (result: Self) {
        match format {
            crate::config::ImageFormat::PNG => ImageFormat::PNG,
            crate::config::ImageFormat::JPEG => ImageFormat::JPEG,
            crate::config::ImageFormat::WEBP => ImageFormat::WEBP,
        }
    }
}

impl FromSpecImpl<crate::config::ImageFormat> for ImageFormat {
    open spec fn obeys_from_spec() -> bool {
        true
    }

    open spec fn from_spec(format: crate::config::ImageFormat) -> Self {
        format_of(format)
    }
}

} // verus!
