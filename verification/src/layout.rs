//! Byte layout of one frame of pixel data inside a staging buffer.

use vstd::prelude::*;

verus! {

/// The smallest multiple of `alignment` that is at least `value`.
pub open spec fn align_up(value: nat, alignment: nat) -> nat
    recommends
        alignment > 0,
{
    (((value + alignment - 1) / (alignment as int)) * alignment) as nat
}

/// Rounds `value` up to a multiple of `alignment`, or gives `None` when the
/// alignment is zero or the rounded value does not fit in 64 bits.
pub fn checked_align_up(value: u64, alignment: u64) -> (r: Option<u64>)
    ensures
        r matches Some(v) ==> v == align_up(value as nat, alignment as nat),
        r is Some <==> alignment > 0 && align_up(value as nat, alignment as nat) <= u64::MAX,
{
    if alignment == 0 {
        return None;
    }
    let rem: u64 = value % alignment;
    proof {
        lemma_align_up_by_remainder(value as nat, alignment as nat);
    }
    if rem == 0 {
        Some(value)
    } else {
        let pad: u64 = alignment - rem;
        value.checked_add(pad)
    }
}

/// Rounding up adds exactly what is missing to the next multiple.
pub proof fn lemma_align_up_by_remainder(value: nat, alignment: nat)
    requires
        alignment > 0,
    ensures
        value % alignment == 0 ==> align_up(value, alignment) == value,
        value % alignment != 0 ==> align_up(value, alignment) == value + alignment - value % alignment,
{
    let a = alignment as int;
    let v = value as int;
    let q = v / a;
    let r = v % a;
    vstd::arithmetic::div_mod::lemma_fundamental_div_mod(v, a);
    assert(v == a * q + r);
    vstd::arithmetic::mul::lemma_mul_is_commutative(a, q);
    if r == 0 {
        // v + a - 1 == q * a + (a - 1)
        vstd::arithmetic::div_mod::lemma_fundamental_div_mod_converse(v + a - 1, a, q, a - 1);
    } else {
        // v + a - 1 == (q + 1) * a + (r - 1)
        vstd::arithmetic::mul::lemma_mul_is_distributive_add_other_way(a, q, 1);
        vstd::arithmetic::div_mod::lemma_fundamental_div_mod_converse(v + a - 1, a, q + 1, r - 1);
    }
}

/// A value rounded up to an alignment is a multiple of the alignment, is not
/// below the value, and is less than one alignment above it.
pub proof fn lemma_align_up_bounds(value: nat, alignment: nat)
    requires
        alignment > 0,
    ensures
        align_up(value, alignment) >= value,
        align_up(value, alignment) < value + alignment,
        align_up(value, alignment) % alignment == 0,
{
    let a = alignment as int;
    let v = value as int;
    let q = (v + a - 1) / a;
    vstd::arithmetic::div_mod::lemma_fundamental_div_mod(v + a - 1, a);
    vstd::arithmetic::div_mod::lemma_mod_pos_bound(v + a - 1, a);
    vstd::arithmetic::mul::lemma_mul_is_commutative(a, q);
    assert(align_up(value, alignment) == q * a);
    vstd::arithmetic::div_mod::lemma_mod_multiples_basic(q, a);
}

/// A value that is already a multiple of the alignment stays as it is.
pub proof fn lemma_align_up_of_multiple(value: nat, alignment: nat)
    requires
        alignment > 0,
        value % alignment == 0,
    ensures
        align_up(value, alignment) == value,
{
    lemma_align_up_by_remainder(value, alignment);
}

/// Bytes that one texel takes: four channels of eight bits.
pub const BYTES_PER_PIXEL: u32 = 4;

/// Bytes of pixel data in one row of an image `width` texels wide.
pub open spec fn row_bytes(width: nat) -> nat {
    width * 4
}

/// The byte stride between rows in the staging buffer: the row's data length
/// rounded up to the device's copy pitch alignment.
pub open spec fn row_pitch_for(width: nat, pitch_alignment: nat) -> nat {
    align_up(row_bytes(width), pitch_alignment)
}

/// The size of the staging buffer: all rows at their pitch, rounded up to the
/// device's non-coherent atom size.
pub open spec fn padded_upload_size_for(
    width: nat,
    height: nat,
    pitch_alignment: nat,
    non_coherent_atom_size: nat,
) -> nat {
    align_up(height * row_pitch_for(width, pitch_alignment), non_coherent_atom_size)
}

/// Whether a layout exists for these dimensions and device limits: both
/// alignments are positive, the row pitch fits in 32 bits and the padded size
/// can be addressed on this machine.
pub open spec fn layout_exists(
    width: nat,
    height: nat,
    pitch_alignment: nat,
    non_coherent_atom_size: nat,
) -> bool {
    &&& pitch_alignment > 0
    &&& non_coherent_atom_size > 0
    &&& row_pitch_for(width, pitch_alignment) <= u32::MAX
    &&& padded_upload_size_for(width, height, pitch_alignment, non_coherent_atom_size) <= usize::MAX
    &&& padded_upload_size_for(width, height, pitch_alignment, non_coherent_atom_size) <= u64::MAX
}

/// Where the rows of an image lie in its staging buffer.
#[derive(Clone, Copy, Debug, PartialEq, Eq, Structural)]
pub struct StagingLayout {
    /// Width of the image in texels.
    pub width: u32,
    /// Height of the image in texels.
    pub height: u32,
    /// Byte stride between consecutive rows in the staging buffer.
    pub row_pitch: u32,
    /// Size of the staging buffer in bytes.
    pub padded_upload_size: u64,
}

impl StagingLayout {
    /// The invariant of a layout: a row's data fits in its pitch and all rows
    /// fit in the buffer, whose size this machine can address.
    pub open spec fn wf(self) -> bool {
        &&& self.row_pitch >= row_bytes(self.width as nat)
        &&& self.height * self.row_pitch <= self.padded_upload_size
        &&& self.padded_upload_size <= usize::MAX
    }

    /// Whether this is the layout for the given dimensions and device limits.
    pub open spec fn describes(
        self,
        width: u32,
        height: u32,
        pitch_alignment: u64,
        non_coherent_atom_size: u64,
    ) -> bool {
        &&& self.width == width
        &&& self.height == height
        &&& self.row_pitch == row_pitch_for(width as nat, pitch_alignment as nat)
        &&& self.padded_upload_size == padded_upload_size_for(
            width as nat,
            height as nat,
            pitch_alignment as nat,
            non_coherent_atom_size as nat,
        )
    }

    /// Whether the row pitch is a whole number of texels, so that a copy whose
    /// row stride is given in texels reads each row where it was written.
    pub open spec fn texel_aligned(self) -> bool {
        self.row_pitch % 4 == 0
    }

    /// Byte offset of row `y` in the staging buffer.
    pub open spec fn row_offset(self, y: int) -> int {
        y * self.row_pitch
    }

    /// Computes the layout for an image of `width` by `height` texels on a
    /// device with the given copy pitch alignment and non-coherent atom size.
    /// Gives `None` exactly when no layout exists for them.
    pub fn new(width: u32, height: u32, pitch_alignment: u64, non_coherent_atom_size: u64) -> (r:
        Option<StagingLayout>)
        ensures
            r is Some <==> layout_exists(
                width as nat,
                height as nat,
                pitch_alignment as nat,
                non_coherent_atom_size as nat,
            ),
            r matches Some(l) ==> l.wf() && l.describes(
                width,
                height,
                pitch_alignment,
                non_coherent_atom_size,
            ),
    {
        let data: u64 = width as u64 * 4;
        let row_pitch: u64 = match checked_align_up(data, pitch_alignment) {
            Some(p) => p,
            None => {
                return None;
            },
        };
        if row_pitch > 0xffff_ffff {
            return None;
        }
        proof {
            lemma_align_up_bounds(data as nat, pitch_alignment as nat);
            assert(height as u64 * row_pitch <= 0xffff_ffff * 0xffff_ffff) by (nonlinear_arith)
                requires
                    height <= 0xffff_ffff,
                    row_pitch <= 0xffff_ffff,
            ;
        }
        let upload_size: u64 = height as u64 * row_pitch;
        let padded: u64 = match checked_align_up(upload_size, non_coherent_atom_size) {
            Some(p) => p,
            None => {
                return None;
            },
        };
        if padded > usize::MAX as u64 {
            return None;
        }
        proof {
            lemma_align_up_bounds(upload_size as nat, non_coherent_atom_size as nat);
        }
        Some(
            StagingLayout {
                width,
                height,
                row_pitch: row_pitch as u32,
                padded_upload_size: padded,
            },
        )
    }

    /// Bytes of pixel data in one row.
    pub fn row_len(&self) -> (r: u32)
        requires
            self.wf(),
        ensures
            r == row_bytes(self.width as nat),
    {
        self.width * BYTES_PER_PIXEL
    }

    /// Bytes that the rows take at their pitch, before padding to the atom size.
    pub fn upload_size(&self) -> (r: u64)
        ensures
            r == self.height * self.row_pitch,
    {
        proof {
            assert(self.height as u64 * self.row_pitch as u64 <= 0xffff_ffff * 0xffff_ffff)
                by (nonlinear_arith)
                requires
                    self.height <= 0xffff_ffff,
                    self.row_pitch <= 0xffff_ffff,
            ;
        }
        self.height as u64 * self.row_pitch as u64
    }

    /// The row stride in texels, as a buffer-to-image copy states it.
    pub fn buffer_width(&self) -> (r: u32)
        ensures
            r == self.row_pitch / 4,
    {
        self.row_pitch / BYTES_PER_PIXEL
    }
}

/// The row pitch is never below the row's data and is a multiple of the copy
/// pitch alignment, whatever the width.
pub proof fn lemma_row_pitch_is_padded(width: u32, pitch_alignment: u64)
    requires
        pitch_alignment > 0,
    ensures
        row_pitch_for(width as nat, pitch_alignment as nat) >= width * 4,
        row_pitch_for(width as nat, pitch_alignment as nat) % (pitch_alignment as nat) == 0,
        row_pitch_for(width as nat, pitch_alignment as nat) < width * 4 + pitch_alignment,
{
    lemma_align_up_bounds(row_bytes(width as nat), pitch_alignment as nat);
}

/// Where the copy pitch alignment is a whole number of texels, so is the row
/// pitch; where it is one or two bytes, the rows are packed without padding.
pub proof fn lemma_row_pitch_texel_aligned(width: u32, pitch_alignment: u64)
    requires
        pitch_alignment % 4 == 0 && pitch_alignment > 0 || pitch_alignment == 1 || pitch_alignment
            == 2,
    ensures
        row_pitch_for(width as nat, pitch_alignment as nat) % 4 == 0,
{
    let a = pitch_alignment as nat;
    let v = row_bytes(width as nat);
    if pitch_alignment == 1 || pitch_alignment == 2 {
        assert(v % a == 0);
        lemma_align_up_of_multiple(v, a);
    } else {
        let q = ((v + a - 1) / (a as int));
        let m = (a / 4) as int;
        assert(a == 4 * m);
        assert(align_up(v, a) == q * a);
        assert(q * a == 4 * (q * m)) by (nonlinear_arith)
            requires
                a == 4 * m,
        ;
    }
}

} // verus!
