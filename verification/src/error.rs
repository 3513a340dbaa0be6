//! What can go wrong between a vector document and its icon container.

use vstd::prelude::*;
use vstd::string::*;

verus! {

/// The ways in which turning one vector document into an icon can fail.
#[derive(Clone, Copy, Debug, PartialEq, Eq, Structural)]
pub enum PipelineError {
    /// A directory or file could not be created, read or written.
    Io,
    /// The bytes are not a well-formed vector document.
    Parse,
    /// An intrinsic dimension of the document is not a finite number greater
    /// than zero.
    InvalidGeometry,
    /// The rasterizer could not allocate or fill the target buffer.
    Render,
    /// The raster could not be encoded as an icon image.
    Encode,
    /// A raw pixel buffer is too short for the dimensions it is said to have.
    PixelConversion,
}

impl PipelineError {
    /// The sentence that describes each error.
    pub open spec fn spec_message(self) -> Seq<char> {
        match self {
            PipelineError::Io => "input or output failed"@,
            PipelineError::Parse => "not a well-formed vector document"@,
            PipelineError::InvalidGeometry => "intrinsic size is not positive"@,
            PipelineError::Render => "failed to render the document"@,
            PipelineError::Encode => "failed to encode the icon image"@,
            PipelineError::PixelConversion => "failed to convert the pixel buffer"@,
        }
    }

    /// Describes the error in words.
    pub fn message(&self) -> (text: String)
        ensures
            text@ == self.spec_message(),
    {
        match self {
            PipelineError::Io => String::from_str("input or output failed"),
            PipelineError::Parse => String::from_str("not a well-formed vector document"),
            PipelineError::InvalidGeometry => String::from_str("intrinsic size is not positive"),
            PipelineError::Render => String::from_str("failed to render the document"),
            PipelineError::Encode => String::from_str("failed to encode the icon image"),
            PipelineError::PixelConversion => String::from_str("failed to convert the pixel buffer"),
        }
    }
}

} // verus!
