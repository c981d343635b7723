//! The unified error type of the pipeline. Every stage wraps its native
//! failure into one of four kinds, each carrying a human-readable message.

use vstd::prelude::*;
use vstd::string::StringExecFns;

verus! {

/// One error type for the whole pipeline.
///
/// - `Io`: a file could not be read or written.
/// - `Ort`: the inference engine could not load or configure a graph.
/// - `Processing`: the engine failed during execution, produced no output,
///   or produced an output whose shape cannot be reassembled.
/// - `Image`: the input image is unsupported or corrupt.
#[derive(Debug, Clone)]
pub enum ImageProcessingError {
    Io(String),
    Ort(String),
    Processing(String),
    Image(String),
}

impl ImageProcessingError {
    /// The message carried by the error, whatever its kind.
    pub open spec fn spec_detail(self) -> Seq<char> {
        match self {
            ImageProcessingError::Io(m) => m@,
            ImageProcessingError::Ort(m) => m@,
            ImageProcessingError::Processing(m) => m@,
            ImageProcessingError::Image(m) => m@,
        }
    }

    /// The prefix naming the error's kind in its rendered message.
    pub open spec fn spec_prefix(self) -> Seq<char> {
        match self {
            ImageProcessingError::Io(_) => "IO error: "@,
            ImageProcessingError::Ort(_) => "ORT error: "@,
            ImageProcessingError::Processing(_) => "Processing error: "@,
            ImageProcessingError::Image(_) => "Image error: "@,
        }
    }

    /// Renders the error as `"<kind>: <detail>"`.
    pub fn message(&self) -> (r: String)
        ensures
            r@ == self.spec_prefix() + self.spec_detail(),
    {
        let mut s = match self {
            ImageProcessingError::Io(_) => String::from_str("IO error: "),
            ImageProcessingError::Ort(_) => String::from_str("ORT error: "),
            ImageProcessingError::Processing(_) => String::from_str("Processing error: "),
            ImageProcessingError::Image(_) => String::from_str("Image error: "),
        };
        match self {
            ImageProcessingError::Io(m) => s.append(m.as_str()),
            ImageProcessingError::Ort(m) => s.append(m.as_str()),
            ImageProcessingError::Processing(m) => s.append(m.as_str()),
            ImageProcessingError::Image(m) => s.append(m.as_str()),
        }
        s
    }
}

} // verus!
