use shader_art_rs::app::{CaptureError, CopyLayout, RenderTarget, TextureSize};
use shader_art_rs::capture::{Capture, CaptureStep, FRAME_COUNT};

fn mapped_frame(width: usize, height: usize, stride: usize, seed: u8) -> Vec<u8> {
    let mut buffer = vec![0u8; stride * height];
    for row in 0..height {
        for column in 0..4 * width {
            buffer[row * stride + column] = seed.wrapping_add((row * 4 * width + column) as u8);
        }
    }
    buffer
}

#[test]
fn capture_run_of_59_frames_of_64_by_64() {
    assert_eq!(FRAME_COUNT, 59);
    let mut run = Capture::new(10, [64, 64], FRAME_COUNT);
    assert_eq!(run.copy_layout(), Some(CopyLayout { bytes_per_row: 256, rows_per_image: 64 }));
    let mut step = run.step();
    let mut rendered = 0u64;
    while step == CaptureStep::Render {
        rendered += 1;
        assert_eq!(run.common().time, 2000 + 10 * rendered);
        assert_eq!(run.common().dimensions, [64, 64]);
        assert_eq!(run.captured() as u64, rendered - 1);
        step = run.frame_mapped(Some(&mapped_frame(64, 64, 256, rendered as u8)));
    }
    assert_eq!(step, CaptureStep::Encode);
    assert_eq!(rendered, 59);
    assert_eq!(run.common().time, 2000 + 10 * 59);
    let frames = run.into_frames().unwrap();
    assert_eq!(frames.len(), 59);
    for (i, frame) in frames.iter().enumerate() {
        assert_eq!(frame.len(), 16384);
        assert_eq!(frame[0], (i + 1) as u8);
        assert_eq!(frame[255], ((i + 1) as u8).wrapping_add(255));
        assert_eq!(frame[256], (i + 1) as u8);
    }
}

#[test]
fn capture_run_of_a_wide_resolution_strips_the_padding() {
    let mut run = Capture::new(1, [3, 2], 2);
    assert_eq!(run.step(), CaptureStep::Render);
    assert_eq!(run.frame_mapped(Some(&mapped_frame(3, 2, 256, 0))), CaptureStep::Render);
    assert_eq!(run.frame_mapped(Some(&mapped_frame(3, 2, 256, 100))), CaptureStep::Encode);
    let frames = run.into_frames().unwrap();
    assert_eq!(frames[0], (0u8..24).collect::<Vec<u8>>());
    assert_eq!(frames[1], (100u8..124).collect::<Vec<u8>>());
}

#[test]
fn capture_run_without_frames_is_complete_at_once() {
    let run = Capture::new(10, [64, 64], 0);
    assert_eq!(run.step(), CaptureStep::Encode);
    assert_eq!(run.common().time, 2000);
    assert_eq!(run.into_frames(), Some(Vec::new()));
}

#[test]
fn capture_run_holds_the_offscreen_context() {
    let run = Capture::new(7, [100, 50], 3);
    match run.app().target {
        RenderTarget::Offscreen(offscreen) => {
            assert_eq!(offscreen.texture_size, TextureSize { width: 100, height: 50 });
            assert_eq!(offscreen.output_buffer_size, 512 * 50);
        },
        RenderTarget::Presentable(_) => panic!("the run draws to a window"),
    }
    assert_eq!(run.common().speed, 7);
    assert_eq!(run.common().time, 2007);
    assert_eq!(run.common().dimensions, [50, 100]);
}

#[test]
fn failed_mapping_ends_the_run() {
    let mut run = Capture::new(10, [2, 2], 3);
    assert_eq!(run.frame_mapped(Some(&mapped_frame(2, 2, 256, 0))), CaptureStep::Render);
    assert_eq!(run.frame_mapped(None), CaptureStep::Abort(CaptureError::MapFailed));
    assert_eq!(run.step(), CaptureStep::Abort(CaptureError::MapFailed));
    assert_eq!(run.captured(), 1);
    assert_eq!(run.common().time, 2020);
    assert_eq!(
        run.frame_mapped(Some(&mapped_frame(2, 2, 256, 0))),
        CaptureStep::Abort(CaptureError::MapFailed)
    );
    assert_eq!(run.captured(), 1);
    assert_eq!(run.into_frames(), None);
}

#[test]
fn buffer_of_the_wrong_size_ends_the_run() {
    let mut run = Capture::new(10, [2, 2], 3);
    assert_eq!(
        run.frame_mapped(Some(&vec![0u8; 16])),
        CaptureStep::Abort(CaptureError::BufferSize)
    );
    assert_eq!(run.captured(), 0);
    assert_eq!(run.into_frames(), None);
}

#[test]
fn unfinished_run_hands_out_no_frames() {
    let mut run = Capture::new(10, [2, 2], 2);
    assert_eq!(run.frame_mapped(Some(&mapped_frame(2, 2, 256, 0))), CaptureStep::Render);
    assert_eq!(run.into_frames(), None);
}

#[test]
fn complete_run_takes_no_more_frames() {
    let mut run = Capture::new(10, [2, 2], 1);
    assert_eq!(run.frame_mapped(Some(&mapped_frame(2, 2, 256, 0))), CaptureStep::Encode);
    assert_eq!(run.common().time, 2010);
    assert_eq!(run.frame_mapped(Some(&mapped_frame(2, 2, 256, 9))), CaptureStep::Encode);
    assert_eq!(run.frame_mapped(None), CaptureStep::Encode);
    assert_eq!(run.captured(), 1);
    assert_eq!(run.common().time, 2010);
    assert_eq!(run.into_frames().unwrap(), vec![(0u8..16).collect::<Vec<u8>>()]);
}

#[test]
fn run_stays_well_formed() {
    let mut run = Capture::new(255, [3, 2], 3);
    assert!(run.is_well_formed());
    run.frame_mapped(Some(&mapped_frame(3, 2, 256, 0)));
    assert!(run.is_well_formed());
    run.frame_mapped(Some(&vec![0u8; 5]));
    assert!(run.is_well_formed());
    run.frame_mapped(None);
    assert!(run.is_well_formed());
    assert!(Capture::new(0, [0, 0], 0).is_well_formed());
    let mut complete = Capture::new(1, [1, 1], 2);
    complete.frame_mapped(Some(&mapped_frame(1, 1, 256, 0)));
    complete.frame_mapped(Some(&mapped_frame(1, 1, 256, 0)));
    assert!(complete.is_well_formed());
    assert_eq!(complete.step(), CaptureStep::Encode);
}
