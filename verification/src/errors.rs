//! Error taxonomy: initialization failures are fatal at startup, frame
//! failures are fatal for this single-frame core, and allocator exhaustion is
//! fatal because no eviction exists.

use vstd::prelude::*;

verus! {

/// A failure while building the render context; always fatal at startup.
#[derive(Clone, Copy, PartialEq, Eq, Structural, Debug)]
pub enum InitError {
    /// No enumerated physical device met every capability requirement.
    NoCompatibleDevice,
    /// The presentation engine handed back an image chain that does not
    /// match the negotiated shape.
    SwapchainCreation,
    /// The shader stage list did not hold exactly one vertex and one
    /// fragment stage.
    PipelineCreation,
}

/// A failure inside the per-frame state machine; fatal for this core.
#[derive(Clone, Copy, PartialEq, Eq, Structural, Debug)]
pub enum FrameError {
    /// Acquiring the next presentable image failed outright.
    AcquireFailed,
    /// The presentation engine reported the chain out of date; recreation is
    /// a known gap, so the frame loop stops here.
    SwapchainOutOfDate,
    /// The driver returned an image index outside the chain.
    InvalidImageIndex,
    /// Enqueueing the recorded commands on the graphics queue failed.
    SubmitFailed,
    /// Requesting presentation of the rendered image failed.
    PresentFailed,
}

/// A failure inside the GPU memory sub-allocator.
#[derive(Clone, Copy, PartialEq, Eq, Structural, Debug)]
pub enum AllocError {
    /// The request exceeded the memory left in the device pools.
    OutOfMemory,
}

/// The typed failure every fallible step propagates up to the composition
/// root, which logs and aborts: no partial continuation is attempted.
#[derive(Clone, Copy, PartialEq, Eq, Structural, Debug)]
pub enum EngineError {
    Initialization(InitError),
    Resource(AllocError),
    Frame(FrameError),
}

impl InitError {
    /// A diagnostic label for logs kept by the host process.
    pub fn describe(&self) -> (r: &'static str)
        ensures
            r@.len() > 0,
    {
        match self {
            InitError::NoCompatibleDevice => {
                proof { reveal_strlit("no compatible device"); }
                "no compatible device"
            },
            InitError::SwapchainCreation => {
                proof { reveal_strlit("swapchain creation failed"); }
                "swapchain creation failed"
            },
            InitError::PipelineCreation => {
                proof { reveal_strlit("pipeline creation failed"); }
                "pipeline creation failed"
            },
        }
    }
}

impl FrameError {
    /// A diagnostic label for logs kept by the host process.
    pub fn describe(&self) -> (r: &'static str)
        ensures
            r@.len() > 0,
    {
        match self {
            FrameError::AcquireFailed => {
                proof { reveal_strlit("image acquire failed"); }
                "image acquire failed"
            },
            FrameError::SwapchainOutOfDate => {
                proof { reveal_strlit("swapchain out of date"); }
                "swapchain out of date"
            },
            FrameError::InvalidImageIndex => {
                proof { reveal_strlit("acquired image index out of range"); }
                "acquired image index out of range"
            },
            FrameError::SubmitFailed => {
                proof { reveal_strlit("queue submit failed"); }
                "queue submit failed"
            },
            FrameError::PresentFailed => {
                proof { reveal_strlit("queue present failed"); }
                "queue present failed"
            },
        }
    }
}

} // verus!
