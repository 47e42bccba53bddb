use texture_upload::layout::StagingLayout;
use texture_upload::pixels::PixelSource;
use texture_upload::staging::{copy_row, StagingBuffer};

fn counting(width: u32, height: u32) -> PixelSource {
    let n = (width * height * 4) as usize;
    let data: Vec<u8> = (0..n).map(|k| (k % 251) as u8 + 1).collect();
    PixelSource::new(width, height, data).unwrap()
}

#[test]
fn copy_row_copies_the_range_only() {
    let mut dst = vec![9u8; 10];
    let src = vec![1u8, 2, 3, 4, 5, 6];
    copy_row(&mut dst, 3, &src, 2, 4);
    assert_eq!(dst, vec![9, 9, 9, 3, 4, 5, 6, 9, 9, 9]);
    copy_row(&mut dst, 0, &src, 0, 0);
    assert_eq!(dst, vec![9, 9, 9, 3, 4, 5, 6, 9, 9, 9]);
}

#[test]
fn create_gives_zeroed_buffer_of_padded_size() {
    let layout = StagingLayout::new(3, 2, 16, 64).unwrap();
    let staging = StagingBuffer::create(layout);
    assert_eq!(staging.size(), 64);
    assert_eq!(staging.bytes, vec![0u8; 64]);
    assert_eq!(staging.layout, layout);
}

#[test]
fn write_places_rows_at_row_pitch() {
    // Rows of 3 texels are 12 bytes long and lie 16 bytes apart.
    let layout = StagingLayout::new(3, 2, 16, 1).unwrap();
    assert_eq!(layout.row_pitch, 16);
    let pixels = counting(3, 2);
    let mut staging = StagingBuffer::create(layout);
    staging.write(&pixels);
    assert_eq!(&staging.bytes[0..12], &pixels.data[0..12]);
    assert_eq!(&staging.bytes[16..28], &pixels.data[12..24]);
}

#[test]
fn write_leaves_padding_untouched() {
    let layout = StagingLayout::new(3, 2, 16, 64).unwrap();
    let pixels = counting(3, 2);
    let mut staging = StagingBuffer::create(layout);
    for b in staging.bytes.iter_mut() {
        *b = 0xEE;
    }
    staging.write(&pixels);
    assert_eq!(&staging.bytes[12..16], &[0xEE; 4]);
    assert_eq!(&staging.bytes[28..64], &[0xEE; 36][..]);
    assert_eq!(staging.bytes.len(), 64);
}

#[test]
fn write_without_padding_is_one_contiguous_copy() {
    let layout = StagingLayout::new(4, 3, 16, 1).unwrap();
    assert_eq!(layout.row_pitch, 16);
    let pixels = counting(4, 3);
    let mut staging = StagingBuffer::create(layout);
    staging.write(&pixels);
    assert_eq!(staging.bytes, pixels.data);
}

#[test]
fn write_of_every_row_for_odd_sizes() {
    for (width, height, alignment) in [(1u32, 1u32, 256u64), (5, 7, 64), (33, 3, 128), (7, 2, 3)] {
        let layout = StagingLayout::new(width, height, alignment, 16).unwrap();
        let pixels = counting(width, height);
        let mut staging = StagingBuffer::create(layout);
        staging.write(&pixels);
        let row = (width * 4) as usize;
        let pitch = layout.row_pitch as usize;
        for y in 0..height as usize {
            assert_eq!(
                &staging.bytes[y * pitch..y * pitch + row],
                &pixels.data[y * row..(y + 1) * row]
            );
            for k in y * pitch + row..(y + 1) * pitch {
                assert_eq!(staging.bytes[k], 0);
            }
        }
    }
}

#[test]
fn second_write_replaces_the_rows() {
    let layout = StagingLayout::new(2, 2, 32, 1).unwrap();
    let mut staging = StagingBuffer::create(layout);
    staging.write(&counting(2, 2));
    let other = PixelSource::new(2, 2, vec![200u8; 16]).unwrap();
    staging.write(&other);
    assert_eq!(&staging.bytes[0..8], &[200u8; 8]);
    assert_eq!(&staging.bytes[32..40], &[200u8; 8]);
    assert_eq!(&staging.bytes[8..32], &[0u8; 24][..]);
}
