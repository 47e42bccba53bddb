//! The one-shot upload transaction: what is recorded, what it does to the
//! image's layout, and which bytes the copy brings into the image.

use vstd::prelude::*;
use crate::layout::StagingLayout;
use crate::staging::{holds_rows, staged_row};
use crate::pixels::source_row;

verus! {

/// The memory layout of the device image.
#[derive(Clone, Copy, Debug, PartialEq, Eq, Structural)]
pub enum ImageLayout {
    /// The content is not defined.
    Undefined,
    /// The image can be the destination of a transfer.
    TransferDstOptimal,
    /// The image can be sampled by a shader.
    ShaderReadOnlyOptimal,
}

/// The kind of access that the image is ready for.
#[derive(Clone, Copy, Debug, PartialEq, Eq, Structural)]
pub enum Access {
    /// No access.
    Empty,
    /// Writes by a transfer.
    TransferWrite,
    /// Reads by a shader.
    ShaderRead,
}

/// A stage of the device's pipeline.
#[derive(Clone, Copy, Debug, PartialEq, Eq, Structural)]
pub enum PipelineStage {
    TopOfPipe,
    Transfer,
    FragmentShader,
}

/// Access and layout of the image at one moment.
#[derive(Clone, Copy, Debug, PartialEq, Eq, Structural)]
pub struct ImageState {
    pub access: Access,
    pub layout: ImageLayout,
}

/// A pipeline barrier on the whole colour image, one level and one layer.
#[derive(Clone, Copy, Debug, PartialEq, Eq, Structural)]
pub struct ImageBarrier {
    /// The stage whose work must be done before the transition.
    pub src_stage: PipelineStage,
    /// The stage that waits for the transition.
    pub dst_stage: PipelineStage,
    /// What the image is taken to be before the barrier.
    pub before: ImageState,
    /// What the image is after the barrier.
    pub after: ImageState,
}

/// A copy from the staging buffer into the whole image: level 0, layer 0,
/// from offset (0, 0, 0), depth 1.
#[derive(Clone, Copy, Debug, PartialEq, Eq, Structural)]
pub struct BufferImageCopy {
    /// Byte offset of the first row in the buffer.
    pub buffer_offset: u64,
    /// Stride between rows in the buffer, in texels.
    pub buffer_width: u32,
    /// Rows of one image slice in the buffer.
    pub buffer_height: u32,
    /// Width of the copied extent in texels.
    pub image_width: u32,
    /// Height of the copied extent in texels.
    pub image_height: u32,
}

/// One command of the upload's command buffer.
#[derive(Clone, Copy, Debug, PartialEq, Eq, Structural)]
pub enum Command {
    /// Begin a primary command buffer that is submitted once.
    BeginOneTimeSubmit,
    /// Transition the image.
    PipelineBarrier(ImageBarrier),
    /// Copy from the staging buffer into the image, which is in `TransferDstOptimal`.
    CopyBufferToImage(BufferImageCopy),
    /// End the command buffer.
    Finish,
}

/// The state in which the image can be sampled.
pub open spec fn shader_read_state() -> ImageState {
    ImageState { access: Access::ShaderRead, layout: ImageLayout::ShaderReadOnlyOptimal }
}

/// The state in which the image receives a transfer.
pub open spec fn transfer_write_state() -> ImageState {
    ImageState { access: Access::TransferWrite, layout: ImageLayout::TransferDstOptimal }
}

/// The state of an image whose content is discarded.
pub open spec fn undefined_state() -> ImageState {
    ImageState { access: Access::Empty, layout: ImageLayout::Undefined }
}

/// The first barrier: from no access and an undefined layout to a transfer
/// destination, between the top of the pipe and the transfer stage.
pub open spec fn to_transfer_barrier() -> ImageBarrier {
    ImageBarrier {
        src_stage: PipelineStage::TopOfPipe,
        dst_stage: PipelineStage::Transfer,
        before: undefined_state(),
        after: transfer_write_state(),
    }
}

/// The second barrier: from a transfer destination to a shader-read image,
/// between the transfer stage and the fragment shader.
pub open spec fn to_shader_barrier() -> ImageBarrier {
    ImageBarrier {
        src_stage: PipelineStage::Transfer,
        dst_stage: PipelineStage::FragmentShader,
        before: transfer_write_state(),
        after: shader_read_state(),
    }
}

/// The copy of a whole frame: rows `row_pitch / 4` texels apart, the full extent.
pub open spec fn copy_region(layout: StagingLayout) -> BufferImageCopy {
    BufferImageCopy {
        buffer_offset: 0,
        buffer_width: (layout.row_pitch / 4) as u32,
        buffer_height: layout.height,
        image_width: layout.width,
        image_height: layout.height,
    }
}

/// The commands of one upload, in the order in which they are recorded.
pub open spec fn upload_commands(layout: StagingLayout) -> Seq<Command> {
    seq![
        Command::BeginOneTimeSubmit,
        Command::PipelineBarrier(to_transfer_barrier()),
        Command::CopyBufferToImage(copy_region(layout)),
        Command::PipelineBarrier(to_shader_barrier()),
        Command::Finish,
    ]
}

/// The image after one command, or `None` where the command is not valid in
/// the state the image is in. A barrier is valid where it names the image's
/// state, or an undefined layout, which gives the content up. A copy is valid
/// only into a transfer destination.
pub open spec fn after_command(state: ImageState, command: Command) -> Option<ImageState> {
    match command {
        Command::BeginOneTimeSubmit => Some(state),
        Command::PipelineBarrier(b) => if b.before == state || b.before.layout
            == ImageLayout::Undefined {
            Some(b.after)
        } else {
            None
        },
        Command::CopyBufferToImage(_) => if state == transfer_write_state() {
            Some(state)
        } else {
            None
        },
        Command::Finish => Some(state),
    }
}

/// The image after a sequence of commands, or `None` where one of them is not valid.
pub open spec fn after_commands(state: ImageState, commands: Seq<Command>) -> Option<ImageState>
    decreases commands.len(),
{
    if commands.len() == 0 {
        Some(state)
    } else {
        match after_commands(state, commands.drop_last()) {
            Some(s) => after_command(s, commands.last()),
            None => None,
        }
    }
}

/// Byte `k` of the image after a copy: texel rows are read `buffer_width`
/// texels apart, from the buffer offset on.
pub open spec fn copied_byte(buffer: Seq<u8>, copy: BufferImageCopy, k: int) -> u8 {
    buffer[copy.buffer_offset + (k / (copy.image_width * 4)) * (copy.buffer_width * 4) + k % (
    copy.image_width * 4)]
}

/// The tightly packed content of the image after a copy from `buffer`.
pub open spec fn copied_texels(buffer: Seq<u8>, copy: BufferImageCopy) -> Seq<u8> {
    Seq::new(
        (copy.image_height * (copy.image_width * 4)) as nat,
        |k: int| copied_byte(buffer, copy, k),
    )
}

/// Whether a buffer of `len` bytes holds every row that the copy reads, each
/// with its full stride.
pub open spec fn copy_in_bounds(len: nat, copy: BufferImageCopy) -> bool {
    &&& copy.image_width <= copy.buffer_width
    &&& copy.buffer_offset + copy.image_height * (copy.buffer_width * 4) <= len
}

impl ImageState {
    /// An image whose content is not defined.
    pub fn undefined() -> (r: ImageState)
        ensures
            r == undefined_state(),
    {
        ImageState { access: Access::Empty, layout: ImageLayout::Undefined }
    }

    /// Whether a shader may sample the image.
    pub fn is_sampleable(&self) -> (r: bool)
        ensures
            r == (*self == shader_read_state()),
    {
        self.access == Access::ShaderRead && self.layout == ImageLayout::ShaderReadOnlyOptimal
    }

    /// The image after `command`, or `None` where the command is not valid in this state.
    pub fn apply(&self, command: &Command) -> (r: Option<ImageState>)
        ensures
            r == after_command(*self, *command),
    {
        match command {
            Command::BeginOneTimeSubmit => Some(*self),
            Command::PipelineBarrier(b) => {
                if (b.before.access == self.access && b.before.layout == self.layout)
                    || b.before.layout == ImageLayout::Undefined {
                    Some(b.after)
                } else {
                    None
                }
            },
            Command::CopyBufferToImage(_) => {
                if self.access == Access::TransferWrite && self.layout
                    == ImageLayout::TransferDstOptimal {
                    Some(*self)
                } else {
                    None
                }
            },
            Command::Finish => Some(*self),
        }
    }

    /// The image after all of `commands`, or `None` where one of them is not valid.
    pub fn apply_all(&self, commands: &Vec<Command>) -> (r: Option<ImageState>)
        ensures
            r == after_commands(*self, commands@),
    {
        let mut state = *self;
        let mut k: usize = 0;
        while k < commands.len()
            invariant
                k <= commands.len(),
                after_commands(*self, commands@.take(k as int)) == Some(state),
            decreases commands.len() - k,
        {
            let next = state.apply(&commands[k]);
            proof {
                let upto = commands@.take(k + 1);
                assert(upto.drop_last() =~= commands@.take(k as int));
                assert(upto.last() == commands@[k as int]);
            }
            match next {
                Some(s) => {
                    state = s;
                },
                None => {
                    proof {
                        lemma_after_invalid_stays_invalid(*self, commands@, k + 1);
                    }
                    return None;
                },
            }
            k += 1;
        }
        assert(commands@.take(k as int) =~= commands@);
        Some(state)
    }
}

/// Once a command is not valid, no later command makes the sequence valid.
pub proof fn lemma_after_invalid_stays_invalid(state: ImageState, commands: Seq<Command>, k: int)
    requires
        0 <= k <= commands.len(),
        after_commands(state, commands.take(k)) is None,
    ensures
        after_commands(state, commands) is None,
    decreases commands.len() - k,
{
    if k < commands.len() {
        let upto = commands.take(k + 1);
        assert(upto.drop_last() =~= commands.take(k));
        lemma_after_invalid_stays_invalid(state, commands, k + 1);
    } else {
        assert(commands.take(k) =~= commands);
    }
}

/// The barrier that makes the image a transfer destination.
pub fn transfer_barrier() -> (r: ImageBarrier)
    ensures
        r == to_transfer_barrier(),
{
    ImageBarrier {
        src_stage: PipelineStage::TopOfPipe,
        dst_stage: PipelineStage::Transfer,
        before: ImageState { access: Access::Empty, layout: ImageLayout::Undefined },
        after: ImageState {
            access: Access::TransferWrite,
            layout: ImageLayout::TransferDstOptimal,
        },
    }
}

/// The barrier that makes the image readable by the fragment shader.
pub fn shader_barrier() -> (r: ImageBarrier)
    ensures
        r == to_shader_barrier(),
{
    ImageBarrier {
        src_stage: PipelineStage::Transfer,
        dst_stage: PipelineStage::FragmentShader,
        before: ImageState {
            access: Access::TransferWrite,
            layout: ImageLayout::TransferDstOptimal,
        },
        after: ImageState {
            access: Access::ShaderRead,
            layout: ImageLayout::ShaderReadOnlyOptimal,
        },
    }
}

/// The commands that upload one frame laid out as `layout` says: begin,
/// barrier to transfer destination, copy, barrier to shader read, finish.
pub fn record(layout: &StagingLayout) -> (r: Vec<Command>)
    ensures
        r@ == upload_commands(*layout),
{
    let copy = BufferImageCopy {
        buffer_offset: 0,
        buffer_width: layout.buffer_width(),
        buffer_height: layout.height,
        image_width: layout.width,
        image_height: layout.height,
    };
    let mut commands: Vec<Command> = Vec::new();
    commands.push(Command::BeginOneTimeSubmit);
    commands.push(Command::PipelineBarrier(transfer_barrier()));
    commands.push(Command::CopyBufferToImage(copy));
    commands.push(Command::PipelineBarrier(shader_barrier()));
    commands.push(Command::Finish);
    assert(commands@ =~= upload_commands(*layout));
    commands
}

/// Whatever state the image is in, the upload's commands are all valid and
/// leave it readable by the shader; the copy finds it a transfer destination.
pub proof fn lemma_upload_ends_shader_read(state: ImageState, layout: StagingLayout)
    ensures
        after_commands(state, upload_commands(layout)) == Some(shader_read_state()),
        after_commands(state, upload_commands(layout).take(2)) == Some(transfer_write_state()),
        after_commands(state, upload_commands(layout).take(3)) == Some(transfer_write_state()),
{
    let c = upload_commands(layout);
    let c0 = c.take(0);
    let c1 = c.take(1);
    let c2 = c.take(2);
    let c3 = c.take(3);
    let c4 = c.take(4);
    assert(c1.drop_last() =~= c0);
    assert(c2.drop_last() =~= c1);
    assert(c3.drop_last() =~= c2);
    assert(c4.drop_last() =~= c3);
    assert(c.drop_last() =~= c4);
    assert(after_commands(state, c0) == Some(state));
    assert(c1.last() == c[0]);
    assert(after_commands(state, c1) == Some(state));
    assert(c2.last() == c[1]);
    assert(after_commands(state, c2) == Some(transfer_write_state()));
    assert(c3.last() == c[2]);
    assert(after_commands(state, c3) == Some(transfer_write_state()));
    assert(c4.last() == c[3]);
    assert(after_commands(state, c4) == Some(shader_read_state()));
    assert(c.last() == c[4]);
}

/// Reads out of `buffer` the texels that the copy brings into the image,
/// tightly packed: what a transfer back to the host would return after the
/// upload. Gives `None` exactly when the buffer does not hold every row that
/// the copy reads.
pub fn read_back(buffer: &Vec<u8>, copy: &BufferImageCopy) -> (r: Option<Vec<u8>>)
    ensures
        r is Some <==> copy_in_bounds(buffer@.len(), *copy),
        r matches Some(v) ==> v@ == copied_texels(buffer@, *copy),
{
    if copy.image_width > copy.buffer_width {
        return None;
    }
    proof {
        assert(copy.image_height as u128 * (copy.buffer_width as u128 * 4) <= 0xffff_ffff * (
        0xffff_ffff * 4)) by (nonlinear_arith)
            requires
                copy.image_height <= 0xffff_ffff,
                copy.buffer_width <= 0xffff_ffff,
        ;
    }
    let end: u128 = copy.buffer_offset as u128 + copy.image_height as u128 * (copy.buffer_width as u128
        * 4);
    if end > buffer.len() as u128 {
        return None;
    }
    let mut out: Vec<u8> = Vec::new();
    if copy.image_height == 0 {
        assert(out@ =~= copied_texels(buffer@, *copy));
        return Some(out);
    }
    proof {
        lemma_rows_of_copy(*copy, 0);
    }
    let offset: usize = copy.buffer_offset as usize;
    let stride: usize = copy.buffer_width as usize * 4;
    let row: usize = copy.image_width as usize * 4;
    let height: usize = copy.image_height as usize;
    let mut y: usize = 0;
    while y < height
        invariant
            y <= height,
            height == copy.image_height,
            stride == copy.buffer_width * 4,
            row == copy.image_width * 4,
            row <= stride,
            offset == copy.buffer_offset,
            offset + height * stride <= buffer.len(),
            out@.len() == y * row,
            forall|k: int| 0 <= k < y * row ==> #[trigger] out@[k] == copied_byte(buffer@, *copy, k),
        decreases height - y,
    {
        proof {
            lemma_rows_of_copy(*copy, y as int);
        }
        let base: usize = offset + y * stride;
        let mut i: usize = 0;
        while i < row
            invariant
                i <= row,
                y < height,
                height == copy.image_height,
                stride == copy.buffer_width * 4,
                row == copy.image_width * 4,
                row <= stride,
                base == offset + y * stride,
                offset == copy.buffer_offset,
                base + stride <= buffer.len(),
                out@.len() == y * row + i,
                forall|k: int|
                    0 <= k < y * row + i ==> #[trigger] out@[k] == copied_byte(buffer@, *copy, k),
            decreases row - i,
        {
            let b: u8 = buffer[base + i];
            let ghost before = out@;
            out.push(b);
            proof {
                let k = y * row + i;
                vstd::arithmetic::mul::lemma_mul_is_commutative(y as int, row as int);
                vstd::arithmetic::div_mod::lemma_fundamental_div_mod_converse(
                    k,
                    row as int,
                    y as int,
                    i as int,
                );
                assert(copied_byte(buffer@, *copy, k) == b);
                assert forall|j: int| 0 <= j < y * row + i + 1 implies #[trigger] out@[j]
                    == copied_byte(buffer@, *copy, j) by {
                    if j < k {
                        assert(out@[j] == before[j]);
                    }
                }
            }
            i += 1;
        }
        y += 1;
    }
    assert(out@ =~= copied_texels(buffer@, *copy));
    Some(out)
}

/// Row `y` of a copy ends where its stride ends, inside the rows before the
/// last one's end; what is read of it ends where row `y + 1` is written out.
pub proof fn lemma_rows_of_copy(copy: BufferImageCopy, y: int)
    requires
        0 <= y < copy.image_height,
    ensures
        0 <= y * (copy.buffer_width * 4),
        y * (copy.buffer_width * 4) + copy.buffer_width * 4 <= copy.image_height * (copy.buffer_width
            * 4),
        0 <= y * (copy.image_width * 4),
        (y + 1) * (copy.image_width * 4) == y * (copy.image_width * 4) + copy.image_width * 4,
        (y + 1) * (copy.image_width * 4) <= copy.image_height * (copy.image_width * 4),
{
    let h = copy.image_height as int;
    let s = copy.buffer_width * 4;
    let r = copy.image_width * 4;
    assert(0 <= y * s && y * s + s <= h * s) by (nonlinear_arith)
        requires
            0 <= y < h,
            0 <= s,
    ;
    assert(0 <= y * r && (y + 1) * r == y * r + r && (y + 1) * r <= h * r) by (nonlinear_arith)
        requires
            0 <= y < h,
            0 <= r,
    ;
}

/// A staging buffer that holds the rows of some pixel data gives exactly that
/// data back through the upload's copy, where the row pitch is a whole number
/// of texels: the padding between rows never reaches the image.
pub proof fn lemma_copy_returns_pixels(buffer: Seq<u8>, layout: StagingLayout, data: Seq<u8>)
    requires
        layout.wf(),
        layout.texel_aligned(),
        buffer.len() == layout.padded_upload_size,
        data.len() == layout.width * layout.height * 4,
        holds_rows(buffer, layout, data),
    ensures
        copy_in_bounds(buffer.len(), copy_region(layout)),
        copied_texels(buffer, copy_region(layout)) == data,
{
    let copy = copy_region(layout);
    let w = layout.width as int;
    let h = layout.height as int;
    let p = layout.row_pitch as int;
    let r = w * 4;
    assert(copy.buffer_width * 4 == p);
    assert(h * r == w * h * 4) by (nonlinear_arith)
        requires
            r == w * 4,
    ;
    let out = copied_texels(buffer, copy);
    assert(out.len() == data.len());
    assert forall|k: int| 0 <= k < out.len() implies out[k] == data[k] by {
        let y = k / r;
        let i = k % r;
        vstd::arithmetic::div_mod::lemma_fundamental_div_mod(k, r);
        vstd::arithmetic::div_mod::lemma_mod_pos_bound(k, r);
        vstd::arithmetic::div_mod::lemma_div_pos_is_pos(k, r);
        vstd::arithmetic::mul::lemma_mul_is_commutative(r, y);
        assert(y < h) by (nonlinear_arith)
            requires
                k < h * r,
                k == y * r + i,
                0 <= i,
                0 < r,
        ;
        crate::staging::lemma_row_in_bounds(layout, y);
        assert(staged_row(buffer, layout, y) == source_row(data, layout.width as nat, y));
        assert(staged_row(buffer, layout, y)[i] == buffer[y * p + i]);
        assert(source_row(data, layout.width as nat, y)[i] == data[y * r + i]);
    }
    assert(out =~= data);
}

} // verus!
