//! The ways in which a texture operation can fail.

use vstd::prelude::*;

verus! {

/// Why a texture operation did not complete. None of these is recovered from
/// inside the library: each one ends the operation it occurred in.
#[derive(Clone, Copy, Debug, PartialEq, Eq, Structural)]
pub enum TextureError {
    /// No memory type is both allowed by the resource and has the wanted property.
    NoCompatibleMemoryType,
    /// The device rejected the creation of an image, buffer, view, sampler or fence.
    ResourceCreationFailed,
    /// Allocating, binding, mapping, flushing or unmapping memory failed.
    MemoryOperationFailed,
    /// Submitting to the queue or waiting for the fence failed.
    SubmissionFailed,
}

impl TextureError {
    /// A short stable name for the error, for logs and messages.
    pub fn name(&self) -> (s: &'static str)
        ensures
            s@ == match *self {
                TextureError::NoCompatibleMemoryType => "no compatible memory type"@,
                TextureError::ResourceCreationFailed => "resource creation failed"@,
                TextureError::MemoryOperationFailed => "memory operation failed"@,
                TextureError::SubmissionFailed => "submission failed"@,
            },
    {
        match self {
            TextureError::NoCompatibleMemoryType => "no compatible memory type",
            TextureError::ResourceCreationFailed => "resource creation failed",
            TextureError::MemoryOperationFailed => "memory operation failed",
            TextureError::SubmissionFailed => "submission failed",
        }
    }
}

} // verus!
