//! The host-visible staging buffer and the row-by-row write into it.

use vstd::prelude::*;
use crate::layout::StagingLayout;
use crate::pixels::{source_row, PixelSource};

verus! {

/// The data bytes of row `y` as they lie in a staging buffer: `width * 4`
/// bytes from byte `y * row_pitch` on.
pub open spec fn staged_row(buffer: Seq<u8>, layout: StagingLayout, y: int) -> Seq<u8> {
    buffer.subrange(y * layout.row_pitch, y * layout.row_pitch + layout.width * 4)
}

/// Whether every row of the staging buffer holds the bytes of the same row of
/// the tightly packed pixel data.
pub open spec fn holds_rows(buffer: Seq<u8>, layout: StagingLayout, data: Seq<u8>) -> bool {
    forall|y: int|
        0 <= y < layout.height ==> #[trigger] staged_row(buffer, layout, y) == source_row(
            data,
            layout.width as nat,
            y,
        )
}

/// Whether byte `k` of the staging buffer is a data byte of row `y`.
pub open spec fn row_holds(layout: StagingLayout, y: int, k: int) -> bool {
    &&& 0 <= y < layout.height
    &&& y * layout.row_pitch <= k < y * layout.row_pitch + layout.width * 4
}

/// Whether byte `k` of the staging buffer is a data byte of some row, and not
/// padding between rows or behind the last one.
pub open spec fn is_row_data(layout: StagingLayout, k: int) -> bool {
    exists|y: int| #[trigger] row_holds(layout, y, k)
}

/// Row `y` lies inside both the staging buffer and the pixel data, and behind
/// every row before it.
pub proof fn lemma_row_in_bounds(layout: StagingLayout, y: int)
    requires
        layout.wf(),
        0 <= y < layout.height,
    ensures
        0 <= y * layout.row_pitch,
        y * layout.row_pitch + layout.width * 4 <= layout.height * layout.row_pitch,
        y * layout.row_pitch + layout.width * 4 <= layout.padded_upload_size,
        0 <= y * (layout.width * 4),
        y * (layout.width * 4) + layout.width * 4 <= layout.width * layout.height * 4,
{
    let p = layout.row_pitch as int;
    let w = layout.width as int;
    let h = layout.height as int;
    assert(0 <= y * p && y * p + p <= h * p) by (nonlinear_arith)
        requires
            0 <= y < h,
            0 <= p,
    ;
    assert(0 <= y * (w * 4) && y * (w * 4) + w * 4 <= w * h * 4) by (nonlinear_arith)
        requires
            0 <= y < h,
            0 <= w,
    ;
}

/// The data of an earlier row ends before a later row begins.
pub proof fn lemma_rows_disjoint(layout: StagingLayout, z: int, y: int)
    requires
        layout.wf(),
        0 <= z < y,
    ensures
        0 <= z * layout.row_pitch,
        z * layout.row_pitch + layout.width * 4 <= y * layout.row_pitch,
{
    let p = layout.row_pitch as int;
    assert(0 <= z * p && z * p + p <= y * p) by (nonlinear_arith)
        requires
            0 <= z < y,
            0 <= p,
    ;
}

/// Where the row pitch is the length of a row's data, the rows lie in the
/// staging buffer as they lie in the pixel data: the write is one contiguous copy.
pub proof fn lemma_unpadded_rows_are_contiguous(buffer: Seq<u8>, layout: StagingLayout, data: Seq<u8>)
    requires
        layout.wf(),
        layout.row_pitch == layout.width * 4,
        buffer.len() == layout.padded_upload_size,
        data.len() == layout.width * layout.height * 4,
        holds_rows(buffer, layout, data),
    ensures
        data.len() <= buffer.len(),
        buffer.subrange(0, data.len() as int) == data,
{
    let w = layout.width as int;
    let h = layout.height as int;
    let r = w * 4;
    assert(h * r == w * h * 4) by (nonlinear_arith)
        requires
            r == w * 4,
    ;
    let head = buffer.subrange(0, data.len() as int);
    assert forall|k: int| 0 <= k < data.len() implies head[k] == data[k] by {
        let y = k / r;
        let i = k % r;
        vstd::arithmetic::div_mod::lemma_fundamental_div_mod(k, r);
        vstd::arithmetic::div_mod::lemma_mod_pos_bound(k, r);
        vstd::arithmetic::div_mod::lemma_div_pos_is_pos(k, r);
        vstd::arithmetic::mul::lemma_mul_is_commutative(r, y);
        assert(y < h) by (nonlinear_arith)
            requires
                k < h * r,
                k == y * r + i,
                0 <= i,
                0 < r,
        ;
        lemma_row_in_bounds(layout, y);
        assert(staged_row(buffer, layout, y) == source_row(data, layout.width as nat, y));
        assert(staged_row(buffer, layout, y)[i] == buffer[y * r + i]);
        assert(source_row(data, layout.width as nat, y)[i] == data[y * r + i]);
    }
    assert(head =~= data);
}

/// Copies `len` bytes of `src` from `src_at` on into `dst` from `dst_at` on.
/// Both ranges are checked against their buffers before any byte is copied;
/// bytes of `dst` outside the range stay as they were.
pub fn copy_row(dst: &mut Vec<u8>, dst_at: usize, src: &Vec<u8>, src_at: usize, len: usize)
    requires
        dst_at + len <= old(dst)@.len(),
        src_at + len <= src@.len(),
    ensures
        final(dst)@.len() == old(dst)@.len(),
        final(dst)@.subrange(dst_at as int, dst_at + len) == src@.subrange(
            src_at as int,
            src_at + len,
        ),
        forall|k: int|
            0 <= k < old(dst)@.len() && !(dst_at <= k < dst_at + len)
                ==> final(dst)@[k] == old(dst)@[k],
{
    let ghost before = dst@;
    let mut i: usize = 0;
    while i < len
        invariant
            i <= len,
            dst_at + len <= dst.len(),
            src_at + len <= src.len(),
            dst@.len() == before.len(),
            forall|k: int|
                dst_at <= k < dst_at + i ==> #[trigger] dst@[k] == src@[k - dst_at + src_at],
            forall|k: int| 0 <= k < before.len() && !(dst_at <= k < dst_at + i) ==> dst@[k] == before[k],
        decreases len - i,
    {
        let b: u8 = src[src_at + i];
        dst.set(dst_at + i, b);
        i += 1;
    }
    assert(dst@.subrange(dst_at as int, dst_at + len) =~= src@.subrange(
        src_at as int,
        src_at + len,
    ));
}

/// The host's image of the staging buffer: the bytes that are written into
/// the mapped memory, laid out for the copy into the device image.
#[derive(Debug)]
pub struct StagingBuffer {
    /// Where the rows lie.
    pub layout: StagingLayout,
    /// The content of the buffer, `padded_upload_size` bytes.
    pub bytes: Vec<u8>,
}

impl StagingBuffer {
    /// The invariant of a staging buffer: it has the size that its layout asks for.
    pub open spec fn wf(&self) -> bool {
        &&& self.layout.wf()
        &&& self.bytes@.len() == self.layout.padded_upload_size
    }

    /// A staging buffer of the layout's padded size, filled with zeros.
    pub fn create(layout: StagingLayout) -> (r: StagingBuffer)
        requires
            layout.wf(),
        ensures
            r.wf(),
            r.layout == layout,
            forall|k: int| 0 <= k < r.bytes@.len() ==> r.bytes@[k] == 0,
    {
        let size: usize = layout.padded_upload_size as usize;
        let mut bytes: Vec<u8> = Vec::new();
        bytes.resize(size, 0u8);
        StagingBuffer { layout, bytes }
    }

    /// Size of the buffer in bytes.
    pub fn size(&self) -> (r: u64)
        ensures
            r == self.layout.padded_upload_size,
    {
        self.layout.padded_upload_size
    }

    /// Writes the pixels into the buffer: row `y` of the source goes to byte
    /// offset `y * row_pitch`, `width * 4` bytes long. Padding bytes are not
    /// touched.
    pub fn write(&mut self, pixels: &PixelSource)
        requires
            old(self).wf(),
            pixels.wf(),
            pixels.width == old(self).layout.width,
            pixels.height == old(self).layout.height,
        ensures
            final(self).wf(),
            final(self).layout == old(self).layout,
            holds_rows(final(self).bytes@, old(self).layout, pixels.data@),
            forall|k: int|
                0 <= k < old(self).bytes@.len() && !is_row_data(old(self).layout, k)
                    ==> final(self).bytes@[k] == old(self).bytes@[k],
    {
        let layout = self.layout;
        let ghost start = self.bytes@;
        let row: usize = layout.row_len() as usize;
        let pitch: usize = layout.row_pitch as usize;
        let height: usize = layout.height as usize;
        let mut y: usize = 0;
        while y < height
            invariant
                y <= height,
                height == layout.height,
                row == layout.width * 4,
                pitch == layout.row_pitch,
                layout.wf(),
                pixels.wf(),
                pixels.width == layout.width,
                pixels.height == layout.height,
                self.layout == layout,
                self.bytes@.len() == layout.padded_upload_size,
                self.bytes@.len() == start.len(),
                forall|z: int|
                    0 <= z < y ==> #[trigger] staged_row(self.bytes@, layout, z) == source_row(
                        pixels.data@,
                        layout.width as nat,
                        z,
                    ),
                forall|k: int|
                    0 <= k < start.len() && !is_row_data(layout, k) ==> self.bytes@[k] == start[k],
            decreases height - y,
        {
            proof {
                lemma_row_in_bounds(layout, y as int);
                assert(self.bytes@.len() == self.bytes.len());
                assert(pixels.data@.len() == pixels.data.len());
            }
            let ghost before = self.bytes@;
            let dst_at: usize = y * pitch;
            let src_at: usize = y * row;
            copy_row(&mut self.bytes, dst_at, &pixels.data, src_at, row);
            proof {
                assert forall|z: int| 0 <= z < y + 1 implies #[trigger] staged_row(
                    self.bytes@,
                    layout,
                    z,
                ) == source_row(pixels.data@, layout.width as nat, z) by {
                    if z < y {
                        lemma_rows_disjoint(layout, z, y as int);
                        assert(staged_row(self.bytes@, layout, z) =~= staged_row(before, layout, z));
                    }
                }
                assert forall|k: int|
                    0 <= k < start.len() && !is_row_data(layout, k) implies self.bytes@[k]
                    == start[k] by {
                    if dst_at <= k < dst_at + row {
                        assert(row_holds(layout, y as int, k));
                    }
                }
            }
            y += 1;
        }
    }
}

} // verus!
