use texture_upload::layout::{checked_align_up, StagingLayout, BYTES_PER_PIXEL};

#[test]
fn align_up_rounds_to_next_multiple() {
    assert_eq!(checked_align_up(0, 4), Some(0));
    assert_eq!(checked_align_up(1, 4), Some(4));
    assert_eq!(checked_align_up(4, 4), Some(4));
    assert_eq!(checked_align_up(5, 4), Some(8));
    assert_eq!(checked_align_up(128, 256), Some(256));
    assert_eq!(checked_align_up(257, 256), Some(512));
    assert_eq!(checked_align_up(7, 3), Some(9));
    assert_eq!(checked_align_up(9, 1), Some(9));
}

#[test]
fn align_up_rejects_zero_alignment() {
    assert_eq!(checked_align_up(17, 0), None);
    assert_eq!(checked_align_up(0, 0), None);
}

#[test]
fn align_up_rejects_overflow() {
    assert_eq!(checked_align_up(u64::MAX, 2), None);
    assert_eq!(checked_align_up(u64::MAX - 1, 4), None);
    assert_eq!(checked_align_up(u64::MAX, 1), Some(u64::MAX));
    assert_eq!(checked_align_up(u64::MAX - 3, 4), Some(u64::MAX - 3));
}

#[test]
fn bytes_per_pixel_is_four() {
    assert_eq!(BYTES_PER_PIXEL, 4);
}

#[test]
fn layout_of_single_texel() {
    let l = StagingLayout::new(1, 1, 256, 64).unwrap();
    assert_eq!(l.width, 1);
    assert_eq!(l.height, 1);
    assert_eq!(l.row_pitch, 256);
    assert_eq!(l.padded_upload_size, 256);
    assert_eq!(l.row_len(), 4);
    assert_eq!(l.upload_size(), 256);
    assert_eq!(l.buffer_width(), 64);
}

#[test]
fn layout_of_width_not_multiple_of_alignment() {
    // 33 texels are 132 bytes: the next multiple of 128 is 256.
    let l = StagingLayout::new(33, 5, 128, 64).unwrap();
    assert_eq!(l.row_pitch, 256);
    assert!(l.row_pitch >= 33 * 4);
    assert_eq!(l.row_pitch % 128, 0);
    assert_eq!(l.upload_size(), 5 * 256);
    assert_eq!(l.padded_upload_size, 1280);
    assert_eq!(l.buffer_width(), 64);
}

#[test]
fn layout_of_aligned_width_has_no_padding() {
    let l = StagingLayout::new(32, 32, 128, 1).unwrap();
    assert_eq!(l.row_pitch, 128);
    assert_eq!(l.padded_upload_size, 32 * 128);
    assert_eq!(l.buffer_width(), 32);
}

#[test]
fn layout_pads_size_to_atom() {
    // Three rows of 8 bytes are 24 bytes; atoms of 64 bytes make that 64.
    let l = StagingLayout::new(2, 3, 8, 64).unwrap();
    assert_eq!(l.row_pitch, 8);
    assert_eq!(l.upload_size(), 24);
    assert_eq!(l.padded_upload_size, 64);
}

#[test]
fn row_pitch_is_aligned_and_covers_row_for_many_widths() {
    for alignment in [1u64, 2, 4, 8, 64, 256, 3, 12] {
        for width in 0u32..70 {
            let l = StagingLayout::new(width, 2, alignment, 1).unwrap();
            assert!(l.row_pitch as u64 >= width as u64 * 4);
            assert_eq!(l.row_pitch as u64 % alignment, 0);
            assert!((l.row_pitch as u64) < width as u64 * 4 + alignment);
        }
    }
}

#[test]
fn layout_rejects_zero_alignments() {
    assert_eq!(StagingLayout::new(4, 4, 0, 64), None);
    assert_eq!(StagingLayout::new(4, 4, 4, 0), None);
}

#[test]
fn layout_rejects_row_pitch_beyond_32_bits() {
    // 2^30 texels are 2^32 bytes: one more than fits.
    assert_eq!(StagingLayout::new(1 << 30, 1, 4, 1), None);
    let widest = StagingLayout::new((1 << 30) - 1, 0, 4, 1).unwrap();
    assert_eq!(widest.row_pitch, u32::MAX - 3);
}

#[test]
fn layout_of_empty_image() {
    let l = StagingLayout::new(0, 0, 4, 16).unwrap();
    assert_eq!(l.row_pitch, 0);
    assert_eq!(l.padded_upload_size, 0);
}
