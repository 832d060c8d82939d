//! The ways in which a rendering session can fail.

use vstd::prelude::*;
use vstd::string::*;

verus! {

/// Why a byte blob could not be turned into a texture.
#[derive(Clone, Copy, Debug, PartialEq, Eq, Structural)]
pub enum ImageDefect {
    /// The bytes start neither as a PNG stream nor as a DDS surface.  No
    /// other container is decoded.
    UnsupportedContainer,
    /// The stream breaks the rules of its container, or the decoder cannot
    /// read it.
    Malformed,
    /// The image decoded, but its samples are not 8-bit red, green, blue and
    /// alpha.
    UnsupportedFormat,
    /// The number of samples does not match the declared width and height.
    SizeMismatch,
    /// A row of the image is longer than the copy command can express, the
    /// image has more bits than this machine can count, or its animation
    /// has more chunks than can be numbered.
    TooLarge,
}

/// Everything that can go wrong at startup or while rendering a frame.
#[derive(Clone, Debug, PartialEq, Eq)]
pub enum RenderError {
    /// No graphics adapter can present to the surface.
    DeviceUnavailable,
    /// The window handle did not yield a presentation surface.
    SurfaceCreationFailed,
    /// A shader stage did not compile; carries the compiler's diagnostic.
    ShaderCompileError(String),
    /// The vertex layout does not supply what the vertex stage reads.
    LayoutMismatch,
    /// The image bytes could not be turned into a texture.
    ImageDecodeError(ImageDefect),
    /// The surface went away before an image could be acquired.
    SurfaceLost,
    /// No presentable image became available in time.
    Timeout,
    /// A resize asked for an area of zero.
    ResizeRejected,
}

/// What the caller does about an error that a frame ran into.
#[derive(Clone, Copy, Debug, PartialEq, Eq, Structural)]
pub enum Recovery {
    /// Recreate the swapchain and try the frame once more.
    RecreateAndRetry,
    /// Skip this redraw and go on.
    DropFrame,
    /// Report the error and end the process.
    Terminate,
}

impl RenderError {
    /// Startup errors end the process; per-frame errors only drop a frame.
    pub open spec fn fatal(self) -> bool {
        match self {
            RenderError::SurfaceLost | RenderError::Timeout | RenderError::ResizeRejected => false,
            _ => true,
        }
    }

    /// Says whether the process should stop on this error.
    pub fn is_fatal(&self) -> (r: bool)
        ensures
            r == self.fatal(),
    {
        match self {
            RenderError::SurfaceLost | RenderError::Timeout | RenderError::ResizeRejected => false,
            _ => true,
        }
    }

    /// What to do about this error.  A fatal error ends the process.  A
    /// timeout or a lost surface is answered by recreating the swapchain and
    /// trying once more; if the second try fails too, the frame is dropped.
    pub open spec fn recovery(self, retried: bool) -> Recovery {
        if self.fatal() {
            Recovery::Terminate
        } else if (self == RenderError::Timeout || self == RenderError::SurfaceLost) && !retried {
            Recovery::RecreateAndRetry
        } else {
            Recovery::DropFrame
        }
    }

    /// Decides what to do about this error; `retried` says whether the frame
    /// has already been tried again.
    pub fn recover(&self, retried: bool) -> (r: Recovery)
        ensures
            r == self.recovery(retried),
    {
        match self {
            RenderError::Timeout | RenderError::SurfaceLost => if retried {
                Recovery::DropFrame
            } else {
                Recovery::RecreateAndRetry
            },
            RenderError::ResizeRejected => Recovery::DropFrame,
            _ => Recovery::Terminate,
        }
    }

    /// The text shown for this error, as a sequence of characters.
    pub open spec fn text(self) -> Seq<char> {
        match self {
            RenderError::DeviceUnavailable => "no compatible graphics adapter"@,
            RenderError::SurfaceCreationFailed => "could not create a presentation surface"@,
            RenderError::ShaderCompileError(diagnostic) => "shader compilation failed: "@
                + diagnostic@,
            RenderError::LayoutMismatch => "vertex layout does not match the shader inputs"@,
            RenderError::ImageDecodeError(defect) => match defect {
                ImageDefect::UnsupportedContainer => "image bytes are neither PNG nor DDS"@,
                ImageDefect::Malformed => "image bytes are malformed"@,
                ImageDefect::UnsupportedFormat => "image is not 8-bit RGBA"@,
                ImageDefect::SizeMismatch => "image samples do not match its dimensions"@,
                ImageDefect::TooLarge => "image is too large"@,
            },
            RenderError::SurfaceLost => "presentation surface lost"@,
            RenderError::Timeout => "timed out acquiring the next frame"@,
            RenderError::ResizeRejected => "zero-area resize"@,
        }
    }

    /// A diagnostic for the user.
    pub fn message(&self) -> (r: String)
        ensures
            r@ == self.text(),
    {
        match self {
            RenderError::DeviceUnavailable => String::from_str("no compatible graphics adapter"),
            RenderError::SurfaceCreationFailed => String::from_str(
                "could not create a presentation surface",
            ),
            RenderError::ShaderCompileError(diagnostic) => String::from_str(
                "shader compilation failed: ",
            ).concat(diagnostic.as_str()),
            RenderError::LayoutMismatch => String::from_str(
                "vertex layout does not match the shader inputs",
            ),
            RenderError::ImageDecodeError(defect) => match defect {
                ImageDefect::UnsupportedContainer => String::from_str("image bytes are neither PNG nor DDS"),
                ImageDefect::Malformed => String::from_str("image bytes are malformed"),
                ImageDefect::UnsupportedFormat => String::from_str("image is not 8-bit RGBA"),
                ImageDefect::SizeMismatch => String::from_str(
                    "image samples do not match its dimensions",
                ),
                ImageDefect::TooLarge => String::from_str("image is too large"),
            },
            RenderError::SurfaceLost => String::from_str("presentation surface lost"),
            RenderError::Timeout => String::from_str("timed out acquiring the next frame"),
            RenderError::ResizeRejected => String::from_str("zero-area resize"),
        }
    }
}

/// No frame is tried more than twice, and no fatal error is ever retried.
pub proof fn lemma_retry_at_most_once(e: RenderError, retried: bool)
    ensures
        e.recovery(true) != Recovery::RecreateAndRetry,
        e.fatal() ==> e.recovery(retried) == Recovery::Terminate,
        e.recovery(retried) == Recovery::RecreateAndRetry ==> e == RenderError::Timeout || e
            == RenderError::SurfaceLost,
{
}

} // verus!
