//! The texture resource: a device image that is created once, filled from
//! host pixels, and filled again whenever the pixels change.
//!
//! The texture never touches the device itself. It says which operation the
//! device must perform next, takes the device's answer, and decides what
//! follows: the next operation, the error that a failure stands for, and what
//! has to be given up so that nothing is leaked.

use vstd::prelude::*;
use crate::device::{
    failure_of, held_after, held_nothing, held_texture, next_release, releasable, succeeds,
    DeviceReply, DeviceRequest, Held, Limits, Outcome,
};
use crate::error::TextureError;
use crate::layout::{layout_exists, StagingLayout};
use crate::memory::{
    lemma_selected_exists, select, selected_type, MemoryProperty, MemoryRequirement, MemoryType,
};
use crate::pixels::PixelSource;
use crate::staging::{holds_rows, is_row_data, StagingBuffer};
use crate::upload::{
    copied_texels, copy_region, record, shader_read_state, transfer_write_state, undefined_state,
    upload_commands, Access, Command, ImageLayout, ImageState,
};

verus! {

/// Number of device operations that create a texture.
pub const CREATE_STEPS: usize = 16;

/// Number of device operations that update a texture.
pub const UPDATE_STEPS: usize = 5;

/// Where the texture stands in its life.
#[derive(Clone, Copy, Debug, PartialEq, Eq, Structural)]
pub enum Phase {
    /// Creation is under way; `step` operations are done.
    Creating { step: usize },
    /// The image holds the pixels and can be sampled.
    Ready,
    /// An update is under way; `step` operations are done.
    Updating { step: usize },
    /// Objects are being given up on the way to `outcome`.
    Unwinding { outcome: Outcome },
    /// Nothing more is asked of the device.
    Settled { outcome: Outcome },
}

/// The texture as contracts see it.
pub struct TextureModel {
    pub phase: Phase,
    /// The device objects that the texture holds.
    pub held: Held,
    /// Where the rows lie in the staging buffer.
    pub layout: StagingLayout,
    /// The content of the staging buffer.
    pub staging: Seq<u8>,
    /// The pixel data that was last written into the staging buffer.
    pub pixels: Seq<u8>,
    /// The device's memory type table.
    pub memory_types: Seq<MemoryType>,
    /// The staging buffer's memory requirements, once known.
    pub buffer_requirements: MemoryRequirement,
    /// The host-visible memory type chosen for the staging buffer, once chosen.
    pub upload_type: u32,
    /// The image's memory requirements, once known.
    pub image_requirements: MemoryRequirement,
    /// The device-local memory type chosen for the image, once chosen.
    pub device_type: u32,
    /// Access and layout of the device image.
    pub image_state: ImageState,
    /// The texels in the device image, as the last finished upload left them.
    pub content: Seq<u8>,
}

/// The outcome of a failure: a failed creation leaves no texture, a failed
/// update a contaminated one.
pub open spec fn failure_outcome(updating: bool, error: TextureError) -> Outcome {
    if updating {
        Outcome::Contaminated(error)
    } else {
        Outcome::Failed(error)
    }
}

/// The objects held when `step` operations of creation are done.
pub open spec fn held_in_create(step: int) -> Held {
    Held {
        staging_buffer: step >= 1,
        staging_memory: step >= 3,
        image: step >= 6,
        image_memory: step >= 8,
        image_view: step >= 10,
        sampler: step >= 11,
        fence: 13 <= step <= 15,
    }
}

/// The objects held when `step` operations of an update are done.
pub open spec fn held_in_update(step: int) -> Held {
    Held { fence: step >= 2, ..held_texture() }
}

impl TextureModel {
    /// Operation number `step` of creation: the staging buffer and its
    /// memory, the write of the pixels, the image, its memory, view and
    /// sampler, the descriptors, and the upload behind a fence.
    pub open spec fn create_request(self, step: int) -> DeviceRequest {
        if step == 0 {
            DeviceRequest::CreateBuffer { size: self.layout.padded_upload_size }
        } else if step == 1 {
            DeviceRequest::QueryBufferRequirements
        } else if step == 2 {
            DeviceRequest::AllocateStagingMemory {
                memory_type: self.upload_type,
                size: self.buffer_requirements.size,
            }
        } else if step == 3 {
            DeviceRequest::BindBufferMemory
        } else if step == 4 {
            DeviceRequest::WriteStaging
        } else if step == 5 {
            DeviceRequest::CreateImage { width: self.layout.width, height: self.layout.height }
        } else if step == 6 {
            DeviceRequest::QueryImageRequirements
        } else if step == 7 {
            DeviceRequest::AllocateImageMemory {
                memory_type: self.device_type,
                size: self.image_requirements.size,
            }
        } else if step == 8 {
            DeviceRequest::BindImageMemory
        } else if step == 9 {
            DeviceRequest::CreateImageView
        } else if step == 10 {
            DeviceRequest::CreateSampler
        } else if step == 11 {
            DeviceRequest::WriteDescriptorSets
        } else {
            self.update_request(step - 11)
        }
    }

    /// Operation number `step` of an update: the write of the pixels and the
    /// upload behind a fresh fence. The image, its view, the sampler and the
    /// descriptors stay as creation left them.
    pub open spec fn update_request(self, step: int) -> DeviceRequest {
        if step == 0 {
            DeviceRequest::WriteStaging
        } else if step == 1 {
            DeviceRequest::CreateFence
        } else if step == 2 {
            DeviceRequest::SubmitUpload
        } else if step == 3 {
            DeviceRequest::WaitFence
        } else {
            DeviceRequest::DestroyFence
        }
    }

    /// What the device must do next for the texture.
    pub open spec fn request_of(self) -> DeviceRequest {
        match self.phase {
            Phase::Creating { step } => self.create_request(step as int),
            Phase::Updating { step } => self.update_request(step as int),
            Phase::Unwinding { outcome } => next_release(releasable(self.held, outcome)),
            Phase::Ready | Phase::Settled { .. } => DeviceRequest::Idle,
        }
    }

    /// Whether the requirements in `reply` leave no memory type to choose:
    /// none that is host-visible for the staging buffer, none that is
    /// device-local for the image.
    pub open spec fn selection_fails(self, request: DeviceRequest, reply: DeviceReply) -> bool {
        match reply {
            DeviceReply::Requirements(r) => match request {
                DeviceRequest::QueryBufferRequirements => selected_type(
                    r.type_mask,
                    self.memory_types,
                    MemoryProperty::HostVisible,
                ) is None,
                DeviceRequest::QueryImageRequirements => selected_type(
                    r.type_mask,
                    self.memory_types,
                    MemoryProperty::DeviceLocal,
                ) is None,
                _ => false,
            },
            _ => false,
        }
    }

    /// The texture once `request` was performed with `reply`: objects are
    /// added or taken away, requirements and the chosen memory type are
    /// noted, and the image follows the upload: undefined when created, a
    /// transfer destination once the upload is submitted, readable by the
    /// shader and holding the copied texels once the fence has signalled.
    pub open spec fn completed(self, request: DeviceRequest, reply: DeviceReply) -> TextureModel {
        let m = TextureModel { held: held_after(self.held, request), ..self };
        match request {
            DeviceRequest::QueryBufferRequirements => match reply {
                DeviceReply::Requirements(r) => TextureModel {
                    buffer_requirements: r,
                    upload_type: match selected_type(
                        r.type_mask,
                        self.memory_types,
                        MemoryProperty::HostVisible,
                    ) {
                        Some(t) => t,
                        None => self.upload_type,
                    },
                    ..m
                },
                _ => m,
            },
            DeviceRequest::QueryImageRequirements => match reply {
                DeviceReply::Requirements(r) => TextureModel {
                    image_requirements: r,
                    device_type: match selected_type(
                        r.type_mask,
                        self.memory_types,
                        MemoryProperty::DeviceLocal,
                    ) {
                        Some(t) => t,
                        None => self.device_type,
                    },
                    ..m
                },
                _ => m,
            },
            DeviceRequest::CreateImage { .. } => TextureModel { image_state: undefined_state(), ..m },
            DeviceRequest::SubmitUpload => TextureModel { image_state: transfer_write_state(), ..m },
            DeviceRequest::WaitFence => TextureModel {
                image_state: shader_read_state(),
                content: copied_texels(self.staging, copy_region(self.layout)),
                ..m
            },
            _ => m,
        }
    }

    /// The texture on its way to `outcome`: unwinding while something is left
    /// to give up, settled otherwise.
    pub open spec fn settle(self, outcome: Outcome) -> TextureModel {
        if next_release(releasable(self.held, outcome)) is Idle {
            TextureModel { phase: Phase::Settled { outcome }, ..self }
        } else {
            TextureModel { phase: Phase::Unwinding { outcome }, ..self }
        }
    }

    /// The texture after the answer to `request`, where `next` is the phase
    /// that follows success: a failure, or requirements that leave no memory
    /// type, end the operation with the error they stand for.
    pub open spec fn stepped(
        self,
        request: DeviceRequest,
        reply: DeviceReply,
        updating: bool,
        next: Phase,
    ) -> TextureModel {
        if !succeeds(request, reply) {
            self.settle(failure_outcome(updating, failure_of(request)))
        } else if self.selection_fails(request, reply) {
            self.completed(request, reply).settle(
                failure_outcome(updating, TextureError::NoCompatibleMemoryType),
            )
        } else {
            TextureModel { phase: next, ..self.completed(request, reply) }
        }
    }

    /// The texture after the device's answer to the pending request.
    pub open spec fn advance_of(self, reply: DeviceReply) -> TextureModel {
        match self.phase {
            Phase::Creating { step } => self.stepped(
                self.create_request(step as int),
                reply,
                false,
                if step + 1 == CREATE_STEPS {
                    Phase::Ready
                } else {
                    Phase::Creating { step: (step + 1) as usize }
                },
            ),
            Phase::Updating { step } => self.stepped(
                self.update_request(step as int),
                reply,
                true,
                if step + 1 == UPDATE_STEPS {
                    Phase::Ready
                } else {
                    Phase::Updating { step: (step + 1) as usize }
                },
            ),
            Phase::Unwinding { outcome } => TextureModel {
                held: held_after(self.held, next_release(releasable(self.held, outcome))),
                ..self
            }.settle(outcome),
            Phase::Ready | Phase::Settled { .. } => self,
        }
    }

    /// The texture at the start of teardown.
    pub open spec fn dropped(self) -> TextureModel {
        self.settle(Outcome::Destroyed)
    }

    /// Whether the texture can be torn down: it is ready or contaminated, and
    /// the device is not busy with an operation for it.
    pub open spec fn can_drop(self) -> bool {
        self.phase is Ready || (self.phase matches Phase::Settled { outcome }
            && outcome is Contaminated)
    }

    /// Whether a draw call may sample the image.
    pub open spec fn sampleable(self) -> bool {
        self.phase is Ready
    }

    /// The invariant of a texture.
    pub open spec fn wf(self) -> bool {
        &&& self.layout.wf()
        &&& self.staging.len() == self.layout.padded_upload_size
        &&& self.pixels.len() == self.layout.width * self.layout.height * 4
        &&& holds_rows(self.staging, self.layout, self.pixels)
        &&& self.held.staging_memory ==> self.staging_type_chosen()
        &&& self.held.image_memory ==> self.image_type_chosen()
        &&& match self.phase {
            Phase::Creating { step } => {
                &&& step < CREATE_STEPS
                &&& self.held == held_in_create(step as int)
                &&& step >= 2 ==> self.staging_type_chosen()
                &&& step >= 7 ==> self.image_type_chosen()
                &&& step == 15 ==> self.uploaded()
            },
            Phase::Ready => self.held == held_texture() && self.uploaded(),
            Phase::Updating { step } => {
                &&& step < UPDATE_STEPS
                &&& self.held == held_in_update(step as int)
                &&& step == 4 ==> self.uploaded()
            },
            Phase::Unwinding { outcome } => {
                &&& !(next_release(releasable(self.held, outcome)) is Idle)
                &&& outcome is Contaminated ==> self.held == held_in_update(2)
            },
            Phase::Settled { outcome } => {
                &&& outcome is Contaminated ==> self.held == held_texture()
                &&& !(outcome is Contaminated) ==> self.held == held_nothing()
            },
        }
    }

    /// Whether the memory type noted for the staging buffer is the one that
    /// selection gives for its requirements: host-visible and allowed by them.
    pub open spec fn staging_type_chosen(self) -> bool {
        selected_type(
            self.buffer_requirements.type_mask,
            self.memory_types,
            MemoryProperty::HostVisible,
        ) == Some(self.upload_type)
    }

    /// Whether the memory type noted for the image is the one that selection
    /// gives for its requirements: device-local and allowed by them.
    pub open spec fn image_type_chosen(self) -> bool {
        selected_type(
            self.image_requirements.type_mask,
            self.memory_types,
            MemoryProperty::DeviceLocal,
        ) == Some(self.device_type)
    }

    /// Whether the image is readable by the shader and holds what the upload's
    /// copy reads out of the staging buffer.
    pub open spec fn uploaded(self) -> bool {
        &&& self.image_state == shader_read_state()
        &&& self.content == copied_texels(self.staging, copy_region(self.layout))
    }

    /// Whether `after` is the texture `self` at the start of an update with
    /// the pixel data `data`: the staging buffer holds the rows of `data`, its
    /// padding is as it was, and nothing else has changed.
    pub open spec fn began_update(self, data: Seq<u8>, after: TextureModel) -> bool {
        &&& after == TextureModel {
            phase: Phase::Updating { step: 0 },
            staging: after.staging,
            pixels: data,
            ..self
        }
        &&& after.staging.len() == self.staging.len()
        &&& holds_rows(after.staging, self.layout, data)
        &&& forall|k: int|
            0 <= k < self.staging.len() && !is_row_data(self.layout, k) ==> after.staging[k]
                == self.staging[k]
    }
}

/// The invariant holds after every answer of the device.
#[verifier::rlimit(50)]
pub proof fn lemma_advance_preserves_wf(m: TextureModel, reply: DeviceReply)
    requires
        m.wf(),
    ensures
        m.advance_of(reply).wf(),
{
    let after = m.advance_of(reply);
    assert(after.layout == m.layout);
    assert(after.staging == m.staging);
    assert(after.pixels == m.pixels);
}

/// Whenever the image may be sampled it is in the shader-read layout, never
/// undefined and never a transfer destination, and every object of the
/// texture exists.
pub proof fn lemma_sampleable_is_shader_read(m: TextureModel)
    requires
        m.wf(),
        m.sampleable(),
    ensures
        m.image_state.layout == ImageLayout::ShaderReadOnlyOptimal,
        m.image_state.access == Access::ShaderRead,
        m.held == held_texture(),
        m.request_of() is Idle,
{
}

/// Memory is only ever allocated of a type that the resource allows and that
/// has the property wanted: host-visible for the staging buffer, device-local
/// for the image.
pub proof fn lemma_memory_types_fit(m: TextureModel)
    requires
        m.wf(),
    ensures
        m.held.staging_memory ==> exists|k: int|
            0 <= k < m.memory_types.len() && (#[trigger] m.memory_types[k]).index == m.upload_type
                && crate::memory::is_compatible(
                m.buffer_requirements.type_mask,
                m.memory_types[k],
                MemoryProperty::HostVisible,
            ),
        m.held.image_memory ==> exists|k: int|
            0 <= k < m.memory_types.len() && (#[trigger] m.memory_types[k]).index == m.device_type
                && crate::memory::is_compatible(
                m.image_requirements.type_mask,
                m.memory_types[k],
                MemoryProperty::DeviceLocal,
            ),
        m.request_of() matches DeviceRequest::AllocateStagingMemory { memory_type, size }
            ==> m.staging_type_chosen() && memory_type == m.upload_type && size
            == m.buffer_requirements.size,
        m.request_of() matches DeviceRequest::AllocateImageMemory { memory_type, size }
            ==> m.image_type_chosen() && memory_type == m.device_type && size
            == m.image_requirements.size,
{
    if m.held.staging_memory {
        lemma_selected_exists(
            m.buffer_requirements.type_mask,
            m.memory_types,
            MemoryProperty::HostVisible,
        );
    }
    if m.held.image_memory {
        lemma_selected_exists(
            m.image_requirements.type_mask,
            m.memory_types,
            MemoryProperty::DeviceLocal,
        );
    }
}

/// An update asks only for the write of the staging memory and the upload
/// behind a fence: the image, its view, the sampler and the descriptors are
/// never made again, and the texture keeps every object throughout.
pub proof fn lemma_update_keeps_image(m: TextureModel)
    requires
        m.wf(),
        m.phase is Updating,
    ensures
        m.request_of() is WriteStaging || m.request_of() is CreateFence || m.request_of()
            is SubmitUpload || m.request_of() is WaitFence || m.request_of() is DestroyFence,
        m.held.staging_buffer && m.held.staging_memory && m.held.image && m.held.image_memory,
        m.held.image_view && m.held.sampler,
{
}

/// While an upload is in flight, or after one has failed, the image is not
/// offered for sampling, whatever its layout is.
pub proof fn lemma_transfer_is_never_sampled(m: TextureModel)
    requires
        m.wf(),
        m.image_state.layout != ImageLayout::ShaderReadOnlyOptimal,
    ensures
        !m.sampleable(),
{
}

/// The image of a ready texture holds exactly the pixels that were last
/// written, where the row pitch is a whole number of texels.
pub proof fn lemma_ready_content_is_pixels(m: TextureModel)
    requires
        m.wf(),
        m.sampleable(),
        m.layout.texel_aligned(),
    ensures
        m.content == m.pixels,
{
    crate::upload::lemma_copy_returns_pixels(m.staging, m.layout, m.pixels);
}

impl TextureModel {
    /// The texture after the device's answers to a run of requests.
    pub open spec fn advance_all(self, replies: Seq<DeviceReply>) -> TextureModel
        decreases replies.len(),
    {
        if replies.len() == 0 {
            self
        } else {
            self.advance_all(replies.drop_last()).advance_of(replies.last())
        }
    }
}

/// An update whose first `k` operations the device performs stands `k`
/// operations further, or is ready once all are done. The staging buffer and
/// the pixels stay as the update's begin left them.
pub proof fn lemma_update_progress(m: TextureModel, replies: Seq<DeviceReply>, k: int)
    requires
        m.wf(),
        m.phase == (Phase::Updating { step: 0 }),
        0 <= k <= replies.len(),
        k <= UPDATE_STEPS,
        forall|i: int| 0 <= i < k ==> !(#[trigger] replies[i] is Failed),
    ensures
        m.advance_all(replies.take(k)).wf(),
        m.advance_all(replies.take(k)).phase == if k == UPDATE_STEPS {
            Phase::Ready
        } else {
            Phase::Updating { step: k as usize }
        },
        m.advance_all(replies.take(k)).staging == m.staging,
        m.advance_all(replies.take(k)).pixels == m.pixels,
        m.advance_all(replies.take(k)).layout == m.layout,
    decreases k,
{
    if k > 0 {
        lemma_update_progress(m, replies, k - 1);
        let upto = replies.take(k);
        assert(upto.drop_last() =~= replies.take(k - 1));
        assert(upto.last() == replies[k - 1]);
        let before = m.advance_all(replies.take(k - 1));
        lemma_advance_preserves_wf(before, replies[k - 1]);
    } else {
        assert(replies.take(0).len() == 0);
    }
}

/// Whether the device performs every operation of a creation: no answer is
/// a failure, and the requirements of the staging buffer and of the image
/// each allow a memory type with the property that is wanted.
pub open spec fn creation_succeeds(m: TextureModel, replies: Seq<DeviceReply>) -> bool {
    &&& replies.len() == CREATE_STEPS
    &&& forall|i: int| 0 <= i < replies.len() ==> !(#[trigger] replies[i] is Failed)
    &&& replies[1] matches DeviceReply::Requirements(r) && crate::memory::has_compatible(
        r.type_mask,
        m.memory_types,
        MemoryProperty::HostVisible,
    )
    &&& replies[6] matches DeviceReply::Requirements(r) && crate::memory::has_compatible(
        r.type_mask,
        m.memory_types,
        MemoryProperty::DeviceLocal,
    )
}

/// A creation whose first `k` operations the device performs stands `k`
/// operations further, or is ready once all are done.
pub proof fn lemma_creation_progress(m: TextureModel, replies: Seq<DeviceReply>, k: int)
    requires
        m.wf(),
        m.phase == (Phase::Creating { step: 0 }),
        creation_succeeds(m, replies),
        0 <= k <= CREATE_STEPS,
    ensures
        m.advance_all(replies.take(k)).wf(),
        m.advance_all(replies.take(k)).phase == if k == CREATE_STEPS {
            Phase::Ready
        } else {
            Phase::Creating { step: k as usize }
        },
        m.advance_all(replies.take(k)).staging == m.staging,
        m.advance_all(replies.take(k)).pixels == m.pixels,
        m.advance_all(replies.take(k)).layout == m.layout,
        m.advance_all(replies.take(k)).memory_types == m.memory_types,
    decreases k,
{
    if k > 0 {
        lemma_creation_progress(m, replies, k - 1);
        let upto = replies.take(k);
        assert(upto.drop_last() =~= replies.take(k - 1));
        assert(upto.last() == replies[k - 1]);
        let before = m.advance_all(replies.take(k - 1));
        lemma_advance_preserves_wf(before, replies[k - 1]);
        assert(!(replies[k - 1] is Failed));
    } else {
        assert(replies.take(0).len() == 0);
    }
}

/// A creation that the device performs without failure ends with a texture
/// that is ready, holds every object but the fence, and whose image holds the
/// pixels it was created for, where the row pitch is a whole number of texels.
pub proof fn lemma_creation_completes(m: TextureModel, replies: Seq<DeviceReply>)
    requires
        m.wf(),
        m.phase == (Phase::Creating { step: 0 }),
        creation_succeeds(m, replies),
    ensures
        m.advance_all(replies).wf(),
        m.advance_all(replies).sampleable(),
        m.advance_all(replies).held == held_texture(),
        m.layout.texel_aligned() ==> m.advance_all(replies).content == m.pixels,
{
    lemma_creation_progress(m, replies, CREATE_STEPS as int);
    assert(replies.take(CREATE_STEPS as int) =~= replies);
    if m.layout.texel_aligned() {
        lemma_ready_content_is_pixels(m.advance_all(replies));
    }
}

/// Uploading the pixels that the image already holds changes nothing that
/// can be sampled: after the update's five operations the texture is ready
/// again and its image holds the same bytes as before.
pub proof fn lemma_reupload_keeps_content(
    before: TextureModel,
    data: Seq<u8>,
    begun: TextureModel,
    replies: Seq<DeviceReply>,
)
    requires
        before.wf(),
        before.sampleable(),
        before.layout.texel_aligned(),
        data == before.pixels,
        before.began_update(data, begun),
        replies.len() == UPDATE_STEPS,
        forall|i: int| 0 <= i < replies.len() ==> !(#[trigger] replies[i] is Failed),
    ensures
        begun.advance_all(replies).wf(),
        begun.advance_all(replies).sampleable(),
        begun.advance_all(replies).content == before.content,
{
    lemma_ready_content_is_pixels(before);
    assert(begun.wf());
    lemma_update_progress(begun, replies, UPDATE_STEPS as int);
    assert(replies.take(UPDATE_STEPS as int) =~= replies);
    lemma_ready_content_is_pixels(begun.advance_all(replies));
}

/// Giving up takes one object with each answer, whatever the answer is, and
/// is settled when none is left to give up: with nothing held after a failed
/// creation or a teardown, with the whole texture but no fence after a failed
/// update.
pub proof fn lemma_unwinding_step(m: TextureModel, reply: DeviceReply)
    requires
        m.wf(),
        m.phase is Unwinding,
    ensures
        crate::device::is_release(m.request_of()),
        ({
            let outcome = m.phase->Unwinding_outcome;
            let after = m.advance_of(reply);
            let left = crate::device::held_count(releasable(after.held, outcome));
            &&& after.wf()
            &&& left + 1 == crate::device::held_count(releasable(m.held, outcome))
            &&& crate::device::held_count(after.held) + 1 == crate::device::held_count(m.held)
            &&& after.phase == if left == 0 {
                Phase::Settled { outcome }
            } else {
                Phase::Unwinding { outcome }
            }
            &&& left == 0 ==> after.held == if outcome is Contaminated {
                held_texture()
            } else {
                held_nothing()
            }
        }),
{
    let outcome = m.phase->Unwinding_outcome;
    let due = releasable(m.held, outcome);
    let request = next_release(due);
    crate::device::lemma_release_makes_progress(due);
    let held = held_after(m.held, request);
    assert(releasable(held, outcome) == held_after(due, request));
    crate::device::lemma_release_makes_progress(held_after(due, request));
    lemma_advance_preserves_wf(m, reply);
}

/// Giving up ends: after as many answers as there are objects to give up,
/// whatever the answers are, the texture is settled in the outcome it was
/// unwinding to, and holds nothing, or, if contaminated, all but the fence.
pub proof fn lemma_unwinding_settles(m: TextureModel, replies: Seq<DeviceReply>, k: int)
    requires
        m.wf(),
        m.phase is Unwinding,
        replies.len() == crate::device::held_count(releasable(m.held, m.phase->Unwinding_outcome)),
        0 <= k <= replies.len(),
    ensures
        ({
            let outcome = m.phase->Unwinding_outcome;
            let after = m.advance_all(replies.take(k));
            &&& after.wf()
            &&& crate::device::held_count(releasable(after.held, outcome)) == replies.len() - k
            &&& after.phase == if k == replies.len() {
                Phase::Settled { outcome }
            } else {
                Phase::Unwinding { outcome }
            }
            &&& k == replies.len() ==> after.held == if outcome is Contaminated {
                held_texture()
            } else {
                held_nothing()
            }
        }),
    decreases k,
{
    if k > 0 {
        lemma_unwinding_settles(m, replies, k - 1);
        let upto = replies.take(k);
        assert(upto.drop_last() =~= replies.take(k - 1));
        assert(upto.last() == replies[k - 1]);
        let before = m.advance_all(replies.take(k - 1));
        lemma_unwinding_step(before, replies[k - 1]);
    } else {
        assert(replies.take(0).len() == 0);
    }
}

/// A creation that has ended in failure holds no device object: what had
/// been created by then was given up.
pub proof fn lemma_failed_creation_leaks_nothing(m: TextureModel)
    requires
        m.wf(),
        m.phase matches Phase::Settled { outcome } && outcome is Failed,
    ensures
        m.held == held_nothing(),
        m.request_of() is Idle,
        !m.sampleable(),
{
}

/// Where no memory type allowed for the image is device-local, creation ends
/// with `NoCompatibleMemoryType`, and the image that was already created is
/// the first object to be destroyed, followed by the staging buffer and its
/// memory.
#[verifier::rlimit(50)]
pub proof fn lemma_no_device_local_type_unwinds(
    m: TextureModel,
    requirements: MemoryRequirement,
    a: DeviceReply,
    b: DeviceReply,
    c: DeviceReply,
)
    requires
        m.wf(),
        m.phase == (Phase::Creating { step: 6 }),
        !crate::memory::has_compatible(
            requirements.type_mask,
            m.memory_types,
            MemoryProperty::DeviceLocal,
        ),
    ensures
        ({
            let failed = m.advance_of(DeviceReply::Requirements(requirements));
            let outcome = Outcome::Failed(TextureError::NoCompatibleMemoryType);
            &&& failed.phase == Phase::Unwinding { outcome }
            &&& failed.request_of() is DestroyImage
            &&& failed.advance_of(a).request_of() is DestroyBuffer
            &&& failed.advance_of(a).advance_of(b).request_of() is FreeStagingMemory
            &&& failed.advance_of(a).advance_of(b).advance_of(c).phase == Phase::Settled { outcome }
            &&& failed.advance_of(a).advance_of(b).advance_of(c).held == held_nothing()
        }),
{
    let outcome = Outcome::Failed(TextureError::NoCompatibleMemoryType);
    let reply = DeviceReply::Requirements(requirements);
    let failed = m.advance_of(reply);
    assert(m.create_request(6) == DeviceRequest::QueryImageRequirements);
    assert(m.selection_fails(DeviceRequest::QueryImageRequirements, reply));
    assert(failed == m.completed(DeviceRequest::QueryImageRequirements, reply).settle(outcome));
    assert(failed.held == held_in_create(6));
    assert(failed.phase == Phase::Unwinding { outcome });
    lemma_advance_preserves_wf(m, reply);
    let first = failed.advance_of(a);
    assert(first.held == Held { image: false, ..failed.held });
    assert(first.phase == Phase::Unwinding { outcome });
    lemma_advance_preserves_wf(failed, a);
    let second = first.advance_of(b);
    assert(second.held == Held { staging_buffer: false, ..first.held });
    assert(second.phase == Phase::Unwinding { outcome });
    lemma_advance_preserves_wf(first, b);
    let third = second.advance_of(c);
    assert(third.held == held_nothing());
}

/// A texture on the device together with the host side of its uploads.
pub struct RenderTexture {
    phase: Phase,
    held: Held,
    staging: StagingBuffer,
    memory_types: Vec<MemoryType>,
    image_mem_reqs: MemoryRequirement,
    upload_type: u32,
    image_req: MemoryRequirement,
    device_type: u32,
    image_state: ImageState,
    pixels: Ghost<Seq<u8>>,
    content: Ghost<Seq<u8>>,
}

impl View for RenderTexture {
    type V = TextureModel;

    closed spec fn view(&self) -> TextureModel {
        TextureModel {
            phase: self.phase,
            held: self.held,
            layout: self.staging.layout,
            staging: self.staging.bytes@,
            pixels: self.pixels@,
            memory_types: self.memory_types@,
            buffer_requirements: self.image_mem_reqs,
            upload_type: self.upload_type,
            image_requirements: self.image_req,
            device_type: self.device_type,
            image_state: self.image_state,
            content: self.content@,
        }
    }
}

impl RenderTexture {
    /// Begins the creation of a texture for `pixels` on a device with the
    /// given memory types and limits: lays out the staging buffer and writes
    /// the pixels into the host's image of it. No device object exists yet;
    /// `request` says what the device must do first.
    ///
    /// Fails with `ResourceCreationFailed` exactly when the pixel data does
    /// not match its dimensions or no staging layout exists for them.
    pub fn new(memory_types: Vec<MemoryType>, limits: Limits, pixels: &PixelSource) -> (r: Result<
        RenderTexture,
        TextureError,
    >)
        ensures
            r is Ok <==> pixels.wf() && layout_exists(
                pixels.width as nat,
                pixels.height as nat,
                limits.optimal_buffer_copy_pitch_alignment as nat,
                limits.non_coherent_atom_size as nat,
            ),
            r matches Err(e) ==> e == TextureError::ResourceCreationFailed,
            r matches Ok(t) ==> {
                &&& t@.wf()
                &&& t@.phase == Phase::Creating { step: 0 }
                &&& t@.held == held_nothing()
                &&& t@.layout.describes(
                    pixels.width,
                    pixels.height,
                    limits.optimal_buffer_copy_pitch_alignment,
                    limits.non_coherent_atom_size,
                )
                &&& t@.pixels == pixels.data@
                &&& t@.memory_types == memory_types@
                &&& t@.image_state == undefined_state()
                &&& t@.content == Seq::<u8>::empty()
                &&& t@.buffer_requirements == t@.image_requirements
                &&& t@.buffer_requirements == (MemoryRequirement {
                    size: 0,
                    alignment: 0,
                    type_mask: 0,
                })
                &&& t@.upload_type == 0
                &&& t@.device_type == 0
                &&& forall|k: int|
                    0 <= k < t@.staging.len() && !is_row_data(t@.layout, k) ==> t@.staging[k] == 0
            },
    {
        if !pixels.is_valid() {
            return Err(TextureError::ResourceCreationFailed);
        }
        let layout = match StagingLayout::new(
            pixels.width,
            pixels.height,
            limits.optimal_buffer_copy_pitch_alignment,
            limits.non_coherent_atom_size,
        ) {
            Some(layout) => layout,
            None => {
                return Err(TextureError::ResourceCreationFailed);
            },
        };
        let mut staging = StagingBuffer::create(layout);
        staging.write(pixels);
        let unknown = MemoryRequirement { size: 0, alignment: 0, type_mask: 0 };
        Ok(
            RenderTexture {
                phase: Phase::Creating { step: 0 },
                held: Held::nothing(),
                staging,
                memory_types,
                image_mem_reqs: unknown,
                upload_type: 0,
                image_req: unknown,
                device_type: 0,
                image_state: ImageState::undefined(),
                pixels: Ghost(pixels.data@),
                content: Ghost(Seq::empty()),
            },
        )
    }

    /// What the device must do next for the texture, or `Idle`.
    pub fn request(&self) -> (r: DeviceRequest)
        requires
            self@.wf(),
        ensures
            r == self@.request_of(),
    {
        match self.phase {
            Phase::Creating { step } => self.create_request(step),
            Phase::Updating { step } => self.update_request(step),
            Phase::Unwinding { outcome } => self.held.to_release(&outcome).release_next(),
            _ => DeviceRequest::Idle,
        }
    }

    fn create_request(&self, step: usize) -> (r: DeviceRequest)
        requires
            step < CREATE_STEPS,
        ensures
            r == self@.create_request(step as int),
    {
        match step {
            0 => DeviceRequest::CreateBuffer { size: self.staging.layout.padded_upload_size },
            1 => DeviceRequest::QueryBufferRequirements,
            2 => DeviceRequest::AllocateStagingMemory {
                memory_type: self.upload_type,
                size: self.image_mem_reqs.size,
            },
            3 => DeviceRequest::BindBufferMemory,
            4 => DeviceRequest::WriteStaging,
            5 => DeviceRequest::CreateImage {
                width: self.staging.layout.width,
                height: self.staging.layout.height,
            },
            6 => DeviceRequest::QueryImageRequirements,
            7 => DeviceRequest::AllocateImageMemory {
                memory_type: self.device_type,
                size: self.image_req.size,
            },
            8 => DeviceRequest::BindImageMemory,
            9 => DeviceRequest::CreateImageView,
            10 => DeviceRequest::CreateSampler,
            11 => DeviceRequest::WriteDescriptorSets,
            _ => self.update_request(step - 11),
        }
    }

    fn update_request(&self, step: usize) -> (r: DeviceRequest)
        ensures
            r == self@.update_request(step as int),
    {
        match step {
            0 => DeviceRequest::WriteStaging,
            1 => DeviceRequest::CreateFence,
            2 => DeviceRequest::SubmitUpload,
            3 => DeviceRequest::WaitFence,
            _ => DeviceRequest::DestroyFence,
        }
    }

    fn settle(&mut self, outcome: Outcome)
        ensures
            final(self)@ == old(self)@.settle(outcome),
    {
        match self.held.to_release(&outcome).release_next() {
            DeviceRequest::Idle => {
                self.phase = Phase::Settled { outcome };
            },
            _ => {
                self.phase = Phase::Unwinding { outcome };
            },
        }
    }

    /// Notes what the performed request has brought; tells whether a memory
    /// type could be chosen where one was due.
    fn complete(&mut self, request: &DeviceRequest, reply: &DeviceReply) -> (chosen: bool)
        ensures
            final(self)@ == old(self)@.completed(*request, *reply),
            chosen == !old(self)@.selection_fails(*request, *reply),
    {
        self.held = self.held.after(request);
        match request {
            DeviceRequest::QueryBufferRequirements => {
                match reply {
                    DeviceReply::Requirements(r) => {
                        self.image_mem_reqs = *r;
                        match select(r, &self.memory_types, MemoryProperty::HostVisible) {
                            Ok(t) => {
                                self.upload_type = t;
                                true
                            },
                            Err(_) => false,
                        }
                    },
                    _ => true,
                }
            },
            DeviceRequest::QueryImageRequirements => {
                match reply {
                    DeviceReply::Requirements(r) => {
                        self.image_req = *r;
                        match select(r, &self.memory_types, MemoryProperty::DeviceLocal) {
                            Ok(t) => {
                                self.device_type = t;
                                true
                            },
                            Err(_) => false,
                        }
                    },
                    _ => true,
                }
            },
            DeviceRequest::CreateImage { .. } => {
                self.image_state = ImageState::undefined();
                true
            },
            DeviceRequest::SubmitUpload => {
                self.image_state = ImageState {
                    access: Access::TransferWrite,
                    layout: ImageLayout::TransferDstOptimal,
                };
                true
            },
            DeviceRequest::WaitFence => {
                self.image_state = ImageState {
                    access: Access::ShaderRead,
                    layout: ImageLayout::ShaderReadOnlyOptimal,
                };
                self.content = Ghost(
                    copied_texels(self.staging.bytes@, copy_region(self.staging.layout)),
                );
                true
            },
            _ => true,
        }
    }

    fn step(&mut self, request: DeviceRequest, reply: DeviceReply, updating: bool, next: Phase)
        ensures
            final(self)@ == old(self)@.stepped(request, reply, updating, next),
    {
        if !request.succeeded(&reply) {
            let error = request.failure();
            self.settle(if updating { Outcome::Contaminated(error) } else { Outcome::Failed(error) });
        } else if !self.complete(&request, &reply) {
            let error = TextureError::NoCompatibleMemoryType;
            self.settle(if updating { Outcome::Contaminated(error) } else { Outcome::Failed(error) });
        } else {
            self.phase = next;
        }
    }

    /// Takes the device's answer to the pending request and moves on: to the
    /// next operation, to `Ready` after the last one, or, after a failure, to
    /// giving up what must not be leaked. While nothing is pending, answers
    /// change nothing.
    pub fn advance(&mut self, reply: DeviceReply)
        requires
            old(self)@.wf(),
        ensures
            final(self)@ == old(self)@.advance_of(reply),
            final(self)@.wf(),
    {
        proof {
            lemma_advance_preserves_wf(self@, reply);
        }
        match self.phase {
            Phase::Creating { step } => {
                let request = self.create_request(step);
                let next = if step + 1 == CREATE_STEPS {
                    Phase::Ready
                } else {
                    Phase::Creating { step: step + 1 }
                };
                self.step(request, reply, false, next);
            },
            Phase::Updating { step } => {
                let request = self.update_request(step);
                let next = if step + 1 == UPDATE_STEPS {
                    Phase::Ready
                } else {
                    Phase::Updating { step: step + 1 }
                };
                self.step(request, reply, true, next);
            },
            Phase::Unwinding { outcome } => {
                let request = self.held.to_release(&outcome).release_next();
                self.held = self.held.after(&request);
                self.settle(outcome);
            },
            _ => {},
        }
    }

    /// Begins an update with new pixels: writes them into the host's image of
    /// the staging buffer, after which `request` asks for the write to the
    /// device and the upload. The image, its view, the sampler and the
    /// descriptors are not created again.
    ///
    /// Fails, and changes nothing, with `ResourceCreationFailed` when the
    /// texture is not ready, and otherwise with `MemoryOperationFailed` when
    /// the pixels are not valid or not of the texture's dimensions.
    pub fn update(&mut self, pixels: &PixelSource) -> (r: Result<(), TextureError>)
        requires
            old(self)@.wf(),
        ensures
            final(self)@.wf(),
            r is Ok <==> old(self)@.phase is Ready && pixels.wf()
                && pixels.width == old(self)@.layout.width
                && pixels.height == old(self)@.layout.height,
            r is Ok ==> old(self)@.began_update(pixels.data@, final(self)@),
            r matches Err(e) ==> final(self)@ == old(self)@ && e == if old(self)@.phase is Ready {
                TextureError::MemoryOperationFailed
            } else {
                TextureError::ResourceCreationFailed
            },
    {
        match self.phase {
            Phase::Ready => {},
            _ => {
                return Err(TextureError::ResourceCreationFailed);
            },
        }
        if !pixels.is_valid() || pixels.width != self.staging.layout.width || pixels.height
            != self.staging.layout.height {
            return Err(TextureError::MemoryOperationFailed);
        }
        self.staging.write(pixels);
        self.pixels = Ghost(pixels.data@);
        self.phase = Phase::Updating { step: 0 };
        Ok(())
    }

    /// Begins the teardown of a ready or contaminated texture, after which
    /// `request` asks for each object to be given up: sampler, view, image,
    /// image memory, staging buffer, staging memory. Returns whether teardown
    /// began; in any other phase nothing changes.
    pub fn drop(&mut self) -> (r: bool)
        requires
            old(self)@.wf(),
        ensures
            final(self)@.wf(),
            r == old(self)@.can_drop(),
            r ==> final(self)@ == old(self)@.dropped(),
            !r ==> final(self)@ == old(self)@,
    {
        let droppable = match self.phase {
            Phase::Ready => true,
            Phase::Settled { outcome } => match outcome {
                Outcome::Contaminated(_) => true,
                _ => false,
            },
            _ => false,
        };
        if droppable {
            self.settle(Outcome::Destroyed);
        }
        droppable
    }

    /// Where the texture stands in its life.
    pub fn phase(&self) -> (r: Phase)
        ensures
            r == self@.phase,
    {
        self.phase
    }

    /// Whether a draw call may sample the image.
    pub fn is_ready(&self) -> (r: bool)
        ensures
            r == self@.sampleable(),
    {
        match self.phase {
            Phase::Ready => true,
            _ => false,
        }
    }

    /// The error that ended creation or an update, if one did.
    pub fn error(&self) -> (r: Option<TextureError>)
        ensures
            r == match self@.phase {
                Phase::Unwinding { outcome: Outcome::Failed(e) } => Some(e),
                Phase::Unwinding { outcome: Outcome::Contaminated(e) } => Some(e),
                Phase::Settled { outcome: Outcome::Failed(e) } => Some(e),
                Phase::Settled { outcome: Outcome::Contaminated(e) } => Some(e),
                _ => None,
            },
    {
        match self.phase {
            Phase::Unwinding { outcome } | Phase::Settled { outcome } => match outcome {
                Outcome::Failed(e) => Some(e),
                Outcome::Contaminated(e) => Some(e),
                Outcome::Destroyed => None,
            },
            _ => None,
        }
    }

    /// The device objects that the texture holds.
    pub fn held(&self) -> (r: Held)
        ensures
            r == self@.held,
    {
        self.held
    }

    /// Where the rows lie in the staging buffer.
    pub fn layout(&self) -> (r: StagingLayout)
        ensures
            r == self@.layout,
    {
        self.staging.layout
    }

    /// Access and layout of the device image.
    pub fn image_state(&self) -> (r: ImageState)
        ensures
            r == self@.image_state,
    {
        self.image_state
    }

    /// The bytes that `WriteStaging` copies into the mapped staging memory.
    pub fn staging_bytes(&self) -> (r: &Vec<u8>)
        ensures
            r@ == self@.staging,
    {
        &self.staging.bytes
    }

    /// The commands that `SubmitUpload` records.
    pub fn commands(&self) -> (r: Vec<Command>)
        ensures
            r@ == upload_commands(self@.layout),
    {
        record(&self.staging.layout)
    }
}

} // verus!
