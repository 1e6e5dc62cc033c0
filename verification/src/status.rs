//! Status codes reported by the resize pipeline.

use vstd::prelude::*;

verus! {

/// Outcome of one resize call.  The variants are exhaustive and mutually
/// exclusive: every call terminates with exactly one of them, and every
/// device failure is caught at the step where it arises and converted to the
/// corresponding variant.  Nothing is retried.
#[derive(Clone, Copy, Debug, PartialEq, Eq, Structural)]
pub enum ResizeStatus {
    /// The output buffer was filled with the resized image.
    Success,
    /// No compute device is available; the caller should fall back.
    NoDevice,
    /// The input byte length does not match the declared dimensions.
    InvalidInput,
    /// Allocating or uploading the input device buffer failed.
    InputAllocFailed,
    /// Allocating the zeroed output device buffer failed.
    OutputAllocFailed,
    /// Loading (or compiling) the kernel module failed.
    ModuleLoadFailed,
    /// Resolving the kernel entry function from the module failed.
    FunctionResolveFailed,
    /// Launching the kernel failed.
    LaunchFailed,
    /// Copying the result back from the device failed.
    CopyBackFailed,
}

impl ResizeStatus {
    /// The numeric code reported at the host boundary for this status.
    /// The sequence skips -7: that code is reserved so that the remaining
    /// values stay stable for existing callers.
    pub open spec fn as_code(self) -> int {
        match self {
            ResizeStatus::Success => 0,
            ResizeStatus::NoDevice => -1,
            ResizeStatus::InvalidInput => -2,
            ResizeStatus::InputAllocFailed => -3,
            ResizeStatus::OutputAllocFailed => -4,
            ResizeStatus::ModuleLoadFailed => -5,
            ResizeStatus::FunctionResolveFailed => -6,
            ResizeStatus::LaunchFailed => -8,
            ResizeStatus::CopyBackFailed => -9,
        }
    }

    /// Converts the tagged status to the numeric code that crosses the host
    /// boundary.
    pub fn code(&self) -> (r: i32)
        ensures
            r as int == self.as_code(),
    {
        match self {
            ResizeStatus::Success => 0,
            ResizeStatus::NoDevice => -1,
            ResizeStatus::InvalidInput => -2,
            ResizeStatus::InputAllocFailed => -3,
            ResizeStatus::OutputAllocFailed => -4,
            ResizeStatus::ModuleLoadFailed => -5,
            ResizeStatus::FunctionResolveFailed => -6,
            ResizeStatus::LaunchFailed => -8,
            ResizeStatus::CopyBackFailed => -9,
        }
    }
}

} // verus!
