//! What the texture asks of the device, what the device answers, and which
//! device objects the texture holds.

use vstd::prelude::*;
use crate::error::TextureError;
use crate::memory::MemoryRequirement;

verus! {

/// The device limits that the staging layout depends on.
#[derive(Clone, Copy, Debug, PartialEq, Eq, Structural)]
pub struct Limits {
    /// Alignment of the row pitch of a buffer that is copied into an image, in bytes.
    pub optimal_buffer_copy_pitch_alignment: u64,
    /// Granularity of flushes of mapped memory that is not coherent, in bytes.
    pub non_coherent_atom_size: u64,
}

/// One operation that the caller performs on the device for the texture.
#[derive(Clone, Copy, Debug, PartialEq, Eq, Structural)]
pub enum DeviceRequest {
    /// Create the staging buffer, a transfer source of `size` bytes.
    CreateBuffer { size: u64 },
    /// Report the memory requirements of the staging buffer.
    QueryBufferRequirements,
    /// Allocate `size` bytes of memory of type `memory_type` for the staging buffer.
    AllocateStagingMemory { memory_type: u32, size: u64 },
    /// Bind the staging memory to the staging buffer at offset 0.
    BindBufferMemory,
    /// Map the staging memory, copy the staging bytes into it, flush, unmap.
    WriteStaging,
    /// Create the 2-D image: optimal tiling, one level, transfer destination and sampled.
    CreateImage { width: u32, height: u32 },
    /// Report the memory requirements of the image.
    QueryImageRequirements,
    /// Allocate `size` bytes of memory of type `memory_type` for the image.
    AllocateImageMemory { memory_type: u32, size: u64 },
    /// Bind the image memory to the image at offset 0.
    BindImageMemory,
    /// Create the 2-D colour view of the whole image.
    CreateImageView,
    /// Create the filtering sampler.
    CreateSampler,
    /// Write the view to binding 0 and the sampler to binding 1 of the descriptor set.
    WriteDescriptorSets,
    /// Create the upload's fence, unsignalled.
    CreateFence,
    /// Record the upload's commands and submit them with the fence, without semaphores.
    SubmitUpload,
    /// Wait for the fence.
    WaitFence,
    /// Destroy the fence.
    DestroyFence,
    /// Destroy the sampler.
    DestroySampler,
    /// Destroy the image view.
    DestroyImageView,
    /// Destroy the image.
    DestroyImage,
    /// Free the image's memory.
    FreeImageMemory,
    /// Destroy the staging buffer.
    DestroyBuffer,
    /// Free the staging memory.
    FreeStagingMemory,
    /// Nothing is asked of the device.
    Idle,
}

/// The device's answer to one request.
#[derive(Clone, Copy, Debug, PartialEq, Eq, Structural)]
pub enum DeviceReply {
    /// The operation was performed.
    Done,
    /// The memory requirements that were asked for.
    Requirements(MemoryRequirement),
    /// The device reported an error.
    Failed,
}

/// The device objects that the texture holds at one moment.
#[derive(Clone, Copy, Debug, PartialEq, Eq, Structural)]
pub struct Held {
    pub staging_buffer: bool,
    pub staging_memory: bool,
    pub image: bool,
    pub image_memory: bool,
    pub image_view: bool,
    pub sampler: bool,
    pub fence: bool,
}

/// How the texture's life ends, or is disturbed.
#[derive(Clone, Copy, Debug, PartialEq, Eq, Structural)]
pub enum Outcome {
    /// Creation failed: no texture exists.
    Failed(TextureError),
    /// An update failed: the texture exists but must not be sampled.
    Contaminated(TextureError),
    /// The texture was torn down.
    Destroyed,
}

/// No object.
pub open spec fn held_nothing() -> Held {
    Held {
        staging_buffer: false,
        staging_memory: false,
        image: false,
        image_memory: false,
        image_view: false,
        sampler: false,
        fence: false,
    }
}

/// Every object of a finished texture: all but the fence of an upload.
pub open spec fn held_texture() -> Held {
    Held {
        staging_buffer: true,
        staging_memory: true,
        image: true,
        image_memory: true,
        image_view: true,
        sampler: true,
        fence: false,
    }
}

/// How many objects are held.
pub open spec fn held_count(held: Held) -> nat {
    ((if held.staging_buffer { 1nat } else { 0nat }) + (if held.staging_memory { 1nat } else { 0nat })
        + (if held.image { 1nat } else { 0nat }) + (if held.image_memory { 1nat } else { 0nat }) + (
    if held.image_view { 1nat } else { 0nat }) + (if held.sampler { 1nat } else { 0nat }) + (
    if held.fence { 1nat } else { 0nat })) as nat
}

/// Whether the request asks for memory requirements.
pub open spec fn is_query(request: DeviceRequest) -> bool {
    request is QueryBufferRequirements || request is QueryImageRequirements
}

/// Whether the request gives an object up. Such a request cannot fail.
pub open spec fn is_release(request: DeviceRequest) -> bool {
    ||| request is DestroyFence
    ||| request is DestroySampler
    ||| request is DestroyImageView
    ||| request is DestroyImage
    ||| request is FreeImageMemory
    ||| request is DestroyBuffer
    ||| request is FreeStagingMemory
}

/// Whether `reply` reports that `request` was performed. A release always is;
/// a query is answered only by requirements; any other request by anything
/// but a failure.
pub open spec fn succeeds(request: DeviceRequest, reply: DeviceReply) -> bool {
    if is_release(request) {
        true
    } else if is_query(request) {
        reply is Requirements
    } else {
        !(reply is Failed)
    }
}

/// The error that a failure of `request` stands for: resource creation for
/// what creates or describes an object, memory operation for allocating,
/// binding and writing memory, submission for submitting and waiting.
pub open spec fn failure_of(request: DeviceRequest) -> TextureError {
    match request {
        DeviceRequest::AllocateStagingMemory { .. }
        | DeviceRequest::BindBufferMemory
        | DeviceRequest::WriteStaging
        | DeviceRequest::AllocateImageMemory { .. }
        | DeviceRequest::BindImageMemory => TextureError::MemoryOperationFailed,
        DeviceRequest::SubmitUpload | DeviceRequest::WaitFence => TextureError::SubmissionFailed,
        _ => TextureError::ResourceCreationFailed,
    }
}

/// The objects held once `request` was performed: what it creates is added,
/// what it gives up is taken away.
pub open spec fn held_after(held: Held, request: DeviceRequest) -> Held {
    match request {
        DeviceRequest::CreateBuffer { .. } => Held { staging_buffer: true, ..held },
        DeviceRequest::AllocateStagingMemory { .. } => Held { staging_memory: true, ..held },
        DeviceRequest::CreateImage { .. } => Held { image: true, ..held },
        DeviceRequest::AllocateImageMemory { .. } => Held { image_memory: true, ..held },
        DeviceRequest::CreateImageView => Held { image_view: true, ..held },
        DeviceRequest::CreateSampler => Held { sampler: true, ..held },
        DeviceRequest::CreateFence => Held { fence: true, ..held },
        DeviceRequest::DestroyFence => Held { fence: false, ..held },
        DeviceRequest::DestroySampler => Held { sampler: false, ..held },
        DeviceRequest::DestroyImageView => Held { image_view: false, ..held },
        DeviceRequest::DestroyImage => Held { image: false, ..held },
        DeviceRequest::FreeImageMemory => Held { image_memory: false, ..held },
        DeviceRequest::DestroyBuffer => Held { staging_buffer: false, ..held },
        DeviceRequest::FreeStagingMemory => Held { staging_memory: false, ..held },
        _ => held,
    }
}

/// The request that gives up the next object: the fence first, then the
/// sampler and the view, then the image, the image's memory, the staging
/// buffer and the staging memory, in that order. `Idle` where nothing is held.
pub open spec fn next_release(held: Held) -> DeviceRequest {
    if held.fence {
        DeviceRequest::DestroyFence
    } else if held.sampler {
        DeviceRequest::DestroySampler
    } else if held.image_view {
        DeviceRequest::DestroyImageView
    } else if held.image {
        DeviceRequest::DestroyImage
    } else if held.image_memory {
        DeviceRequest::FreeImageMemory
    } else if held.staging_buffer {
        DeviceRequest::DestroyBuffer
    } else if held.staging_memory {
        DeviceRequest::FreeStagingMemory
    } else {
        DeviceRequest::Idle
    }
}

/// What is given up on the way to `outcome`: everything, except that a
/// contaminated texture keeps all but the fence until it is torn down.
pub open spec fn releasable(held: Held, outcome: Outcome) -> Held {
    if outcome is Contaminated {
        Held { fence: held.fence, ..held_nothing() }
    } else {
        held
    }
}

/// The place of a release in the order of teardown.
pub open spec fn release_rank(request: DeviceRequest) -> int {
    match request {
        DeviceRequest::DestroyFence => 0,
        DeviceRequest::DestroySampler => 1,
        DeviceRequest::DestroyImageView => 2,
        DeviceRequest::DestroyImage => 3,
        DeviceRequest::FreeImageMemory => 4,
        DeviceRequest::DestroyBuffer => 5,
        DeviceRequest::FreeStagingMemory => 6,
        _ => 7,
    }
}

impl DeviceRequest {
    /// Whether the request gives an object up.
    pub fn releases(&self) -> (r: bool)
        ensures
            r == is_release(*self),
    {
        match self {
            DeviceRequest::DestroyFence
            | DeviceRequest::DestroySampler
            | DeviceRequest::DestroyImageView
            | DeviceRequest::DestroyImage
            | DeviceRequest::FreeImageMemory
            | DeviceRequest::DestroyBuffer
            | DeviceRequest::FreeStagingMemory => true,
            _ => false,
        }
    }

    /// Whether `reply` reports that this request was performed.
    pub fn succeeded(&self, reply: &DeviceReply) -> (r: bool)
        ensures
            r == succeeds(*self, *reply),
    {
        if self.releases() {
            true
        } else {
            match self {
                DeviceRequest::QueryBufferRequirements | DeviceRequest::QueryImageRequirements => {
                    match reply {
                        DeviceReply::Requirements(_) => true,
                        _ => false,
                    }
                },
                _ => {
                    match reply {
                        DeviceReply::Failed => false,
                        _ => true,
                    }
                },
            }
        }
    }

    /// The error that a failure of this request stands for.
    pub fn failure(&self) -> (r: TextureError)
        ensures
            r == failure_of(*self),
    {
        match self {
            DeviceRequest::AllocateStagingMemory { .. }
            | DeviceRequest::BindBufferMemory
            | DeviceRequest::WriteStaging
            | DeviceRequest::AllocateImageMemory { .. }
            | DeviceRequest::BindImageMemory => TextureError::MemoryOperationFailed,
            DeviceRequest::SubmitUpload | DeviceRequest::WaitFence => TextureError::SubmissionFailed,
            _ => TextureError::ResourceCreationFailed,
        }
    }
}

impl Held {
    /// No object.
    pub fn nothing() -> (r: Held)
        ensures
            r == held_nothing(),
    {
        Held {
            staging_buffer: false,
            staging_memory: false,
            image: false,
            image_memory: false,
            image_view: false,
            sampler: false,
            fence: false,
        }
    }

    /// The objects held once `request` was performed.
    pub fn after(self, request: &DeviceRequest) -> (r: Held)
        ensures
            r == held_after(self, *request),
    {
        let mut held = self;
        match request {
            DeviceRequest::CreateBuffer { .. } => { held.staging_buffer = true; },
            DeviceRequest::AllocateStagingMemory { .. } => { held.staging_memory = true; },
            DeviceRequest::CreateImage { .. } => { held.image = true; },
            DeviceRequest::AllocateImageMemory { .. } => { held.image_memory = true; },
            DeviceRequest::CreateImageView => { held.image_view = true; },
            DeviceRequest::CreateSampler => { held.sampler = true; },
            DeviceRequest::CreateFence => { held.fence = true; },
            DeviceRequest::DestroyFence => { held.fence = false; },
            DeviceRequest::DestroySampler => { held.sampler = false; },
            DeviceRequest::DestroyImageView => { held.image_view = false; },
            DeviceRequest::DestroyImage => { held.image = false; },
            DeviceRequest::FreeImageMemory => { held.image_memory = false; },
            DeviceRequest::DestroyBuffer => { held.staging_buffer = false; },
            DeviceRequest::FreeStagingMemory => { held.staging_memory = false; },
            _ => {},
        }
        held
    }

    /// The request that gives up the next object, or `Idle`.
    pub fn release_next(&self) -> (r: DeviceRequest)
        ensures
            r == next_release(*self),
    {
        if self.fence {
            DeviceRequest::DestroyFence
        } else if self.sampler {
            DeviceRequest::DestroySampler
        } else if self.image_view {
            DeviceRequest::DestroyImageView
        } else if self.image {
            DeviceRequest::DestroyImage
        } else if self.image_memory {
            DeviceRequest::FreeImageMemory
        } else if self.staging_buffer {
            DeviceRequest::DestroyBuffer
        } else if self.staging_memory {
            DeviceRequest::FreeStagingMemory
        } else {
            DeviceRequest::Idle
        }
    }

    /// What is given up on the way to `outcome`.
    pub fn to_release(&self, outcome: &Outcome) -> (r: Held)
        ensures
            r == releasable(*self, *outcome),
    {
        match outcome {
            Outcome::Contaminated(_) => {
                let mut held = Held::nothing();
                held.fence = self.fence;
                held
            },
            _ => *self,
        }
    }
}

/// Teardown gives up one held object at a time and stops only when none is
/// left: the next release is a release of something held, after which one
/// object less is held, and it is `Idle` exactly when nothing is held.
pub proof fn lemma_release_makes_progress(held: Held)
    ensures
        next_release(held) is Idle <==> held == held_nothing(),
        !(next_release(held) is Idle) ==> is_release(next_release(held)) && held_count(
            held_after(held, next_release(held)),
        ) + 1 == held_count(held),
{
}

/// Teardown follows one order: after a release, the next release stands later
/// in it. So the image goes before its memory, that before the staging buffer,
/// and that before the staging memory.
pub proof fn lemma_release_order(held: Held)
    requires
        !(next_release(held) is Idle),
    ensures
        release_rank(next_release(held)) < release_rank(
            next_release(held_after(held, next_release(held))),
        ),
{
}

} // verus!
