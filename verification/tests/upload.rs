use texture_upload::layout::StagingLayout;
use texture_upload::pixels::PixelSource;
use texture_upload::staging::StagingBuffer;
use texture_upload::upload::{
    read_back, record, shader_barrier, transfer_barrier, Access, BufferImageCopy, Command,
    ImageBarrier, ImageLayout, ImageState, PipelineStage,
};

const UNDEFINED: ImageState = ImageState { access: Access::Empty, layout: ImageLayout::Undefined };
const TRANSFER: ImageState =
    ImageState { access: Access::TransferWrite, layout: ImageLayout::TransferDstOptimal };
const SHADER: ImageState =
    ImageState { access: Access::ShaderRead, layout: ImageLayout::ShaderReadOnlyOptimal };

#[test]
fn barriers_are_the_two_transitions() {
    assert_eq!(
        transfer_barrier(),
        ImageBarrier {
            src_stage: PipelineStage::TopOfPipe,
            dst_stage: PipelineStage::Transfer,
            before: UNDEFINED,
            after: TRANSFER,
        }
    );
    assert_eq!(
        shader_barrier(),
        ImageBarrier {
            src_stage: PipelineStage::Transfer,
            dst_stage: PipelineStage::FragmentShader,
            before: TRANSFER,
            after: SHADER,
        }
    );
}

#[test]
fn record_gives_the_five_commands_in_order() {
    let layout = StagingLayout::new(33, 5, 128, 64).unwrap();
    let commands = record(&layout);
    assert_eq!(
        commands,
        vec![
            Command::BeginOneTimeSubmit,
            Command::PipelineBarrier(transfer_barrier()),
            Command::CopyBufferToImage(BufferImageCopy {
                buffer_offset: 0,
                buffer_width: 64,
                buffer_height: 5,
                image_width: 33,
                image_height: 5,
            }),
            Command::PipelineBarrier(shader_barrier()),
            Command::Finish,
        ]
    );
}

#[test]
fn copy_stride_is_row_pitch_in_texels() {
    let layout = StagingLayout::new(1, 1, 256, 1).unwrap();
    match record(&layout)[2] {
        Command::CopyBufferToImage(copy) => {
            assert_eq!(copy.buffer_width, 256 / 4);
            assert_eq!(copy.buffer_height, 1);
            assert_eq!((copy.image_width, copy.image_height), (1, 1));
        },
        _ => panic!("the third command is the copy"),
    }
}

#[test]
fn upload_leaves_image_shader_readable_from_any_state() {
    let layout = StagingLayout::new(8, 8, 32, 1).unwrap();
    let commands = record(&layout);
    assert_eq!(UNDEFINED.apply_all(&commands), Some(SHADER));
    assert_eq!(SHADER.apply_all(&commands), Some(SHADER));
    assert_eq!(TRANSFER.apply_all(&commands), Some(SHADER));
    assert!(SHADER.is_sampleable());
    assert!(!TRANSFER.is_sampleable());
    assert!(!UNDEFINED.is_sampleable());
    assert_eq!(ImageState::undefined(), UNDEFINED);
}

#[test]
fn image_is_transfer_destination_during_the_copy() {
    let layout = StagingLayout::new(8, 8, 32, 1).unwrap();
    let commands = record(&layout);
    let mut state = SHADER;
    state = state.apply(&commands[0]).unwrap();
    assert_eq!(state, SHADER);
    state = state.apply(&commands[1]).unwrap();
    assert_eq!(state, TRANSFER);
    state = state.apply(&commands[2]).unwrap();
    assert_eq!(state, TRANSFER);
    state = state.apply(&commands[3]).unwrap();
    assert_eq!(state, SHADER);
    state = state.apply(&commands[4]).unwrap();
    assert_eq!(state, SHADER);
}

#[test]
fn copy_without_first_barrier_is_invalid() {
    let layout = StagingLayout::new(8, 8, 32, 1).unwrap();
    let commands = record(&layout);
    let without = vec![commands[0], commands[2], commands[3], commands[4]];
    assert_eq!(SHADER.apply_all(&without), None);
    assert_eq!(UNDEFINED.apply_all(&without), None);
    assert_eq!(UNDEFINED.apply(&commands[2]), None);
}

#[test]
fn second_barrier_needs_transfer_destination() {
    assert_eq!(SHADER.apply(&Command::PipelineBarrier(shader_barrier())), None);
    assert_eq!(UNDEFINED.apply(&Command::PipelineBarrier(shader_barrier())), None);
    assert_eq!(TRANSFER.apply(&Command::PipelineBarrier(shader_barrier())), Some(SHADER));
}

#[test]
fn without_second_barrier_image_stays_transfer_destination() {
    let layout = StagingLayout::new(8, 8, 32, 1).unwrap();
    let commands = record(&layout);
    let without = vec![commands[0], commands[1], commands[2], commands[4]];
    assert_eq!(SHADER.apply_all(&without), Some(TRANSFER));
}

#[test]
fn apply_all_of_nothing_changes_nothing() {
    assert_eq!(TRANSFER.apply_all(&Vec::new()), Some(TRANSFER));
}

#[test]
fn read_back_skips_the_padding() {
    let copy = BufferImageCopy {
        buffer_offset: 0,
        buffer_width: 2,
        buffer_height: 2,
        image_width: 1,
        image_height: 2,
    };
    let buffer = vec![1, 2, 3, 4, 0xEE, 0xEE, 0xEE, 0xEE, 5, 6, 7, 8, 0xEE, 0xEE, 0xEE, 0xEE];
    assert_eq!(read_back(&buffer, &copy), Some(vec![1, 2, 3, 4, 5, 6, 7, 8]));
}

#[test]
fn read_back_starts_at_the_buffer_offset() {
    let copy = BufferImageCopy {
        buffer_offset: 3,
        buffer_width: 1,
        buffer_height: 1,
        image_width: 1,
        image_height: 1,
    };
    assert_eq!(read_back(&vec![0, 0, 0, 4, 5, 6, 7], &copy), Some(vec![4, 5, 6, 7]));
}

#[test]
fn read_back_rejects_what_the_buffer_does_not_hold() {
    let copy = BufferImageCopy {
        buffer_offset: 0,
        buffer_width: 2,
        buffer_height: 2,
        image_width: 2,
        image_height: 2,
    };
    assert_eq!(read_back(&vec![0u8; 15], &copy), None);
    assert!(read_back(&vec![0u8; 16], &copy).is_some());
    let narrow = BufferImageCopy { buffer_width: 1, ..copy };
    assert_eq!(read_back(&vec![0u8; 64], &narrow), None);
    let far = BufferImageCopy { buffer_offset: u64::MAX, ..copy };
    assert_eq!(read_back(&vec![0u8; 64], &far), None);
}

#[test]
fn read_back_of_empty_extent() {
    let copy = BufferImageCopy {
        buffer_offset: 0,
        buffer_width: 4,
        buffer_height: 0,
        image_width: 4,
        image_height: 0,
    };
    assert_eq!(read_back(&Vec::new(), &copy), Some(Vec::new()));
}

#[test]
fn staged_pixels_come_back_through_the_copy() {
    for (width, height, alignment) in [(1u32, 1u32, 256u64), (33, 4, 128), (32, 32, 64), (5, 3, 1)] {
        let layout = StagingLayout::new(width, height, alignment, 64).unwrap();
        let n = (width * height * 4) as usize;
        let pixels =
            PixelSource::new(width, height, (0..n).map(|k| (k * 7 % 256) as u8).collect()).unwrap();
        let mut staging = StagingBuffer::create(layout);
        staging.write(&pixels);
        let copy = match record(&layout)[2] {
            Command::CopyBufferToImage(copy) => copy,
            _ => panic!("the third command is the copy"),
        };
        assert_eq!(read_back(&staging.bytes, &copy), Some(pixels.data));
    }
}
