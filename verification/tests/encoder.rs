use shader_art_rs::capture::{Capture, CaptureStep, FRAME_COUNT};
use shader_art_rs::encoder::{
    check_frames, encode_gif, IndexedFrame, FRAME_DELAY, QUANTIZATION_SPEED,
};

fn solid(width: usize, height: usize, rgba: [u8; 4]) -> Vec<u8> {
    let mut frame = Vec::with_capacity(width * height * 4);
    for _ in 0..width * height {
        frame.extend_from_slice(&rgba);
    }
    frame
}

fn decode(bytes: &[u8]) -> (u16, u16, gif::Repeat, Vec<(u16, Vec<u8>)>) {
    let mut options = gif::DecodeOptions::new();
    options.set_color_output(gif::ColorOutput::RGBA);
    let mut decoder = options.read_info(bytes).unwrap();
    let mut frames = Vec::new();
    while let Some(frame) = decoder.read_next_frame().unwrap() {
        frames.push((frame.delay, frame.buffer.to_vec()));
    }
    (decoder.width(), decoder.height(), decoder.repeat(), frames)
}

#[test]
fn constants_of_a_saved_animation() {
    assert_eq!(FRAME_DELAY, 15);
    assert_eq!(QUANTIZATION_SPEED, 15);
}

#[test]
fn frames_of_the_right_size_fit() {
    let frames = vec![solid(2, 3, [1, 2, 3, 255]), solid(2, 3, [4, 5, 6, 255])];
    assert!(check_frames(&frames, 2, 3));
    assert!(check_frames(&frames, 3, 2));
    assert!(check_frames(&frames, 6, 1));
    assert!(!check_frames(&frames, 2, 2));
    assert!(!check_frames(&frames, 0, 0));
    assert!(check_frames(&Vec::new(), 7, 9));
    assert!(check_frames(&vec![Vec::new()], 0, 9));
}

#[test]
fn one_frame_of_the_wrong_size_does_not_fit() {
    let mut frames = vec![solid(2, 3, [1, 2, 3, 255]); 4];
    frames[2].pop();
    assert!(!check_frames(&frames, 2, 3));
    frames[2].push(0);
    frames[2].push(0);
    assert!(!check_frames(&frames, 2, 3));
}

#[test]
fn largest_frame_size_is_not_confused_with_a_small_one() {
    assert!(!check_frames(&vec![vec![0u8; 4]], 65535, 65535));
    assert!(!check_frames(&vec![Vec::new()], 65535, 65535));
}

#[test]
fn with_delay_changes_only_the_delay() {
    let frame = IndexedFrame {
        width: 2,
        height: 1,
        delay: 0,
        transparent: Some(1),
        palette: Some(vec![0, 0, 0, 255, 255, 255]),
        indices: vec![0, 1],
    };
    let delayed = frame.clone().with_delay(15);
    assert_eq!(delayed, IndexedFrame { delay: 15, ..frame });
}

#[test]
fn animation_without_frames_is_header_loop_mark_and_trailer() {
    let bytes = encode_gif(&Vec::new(), 15, 0x0140, 0x00c8).unwrap();
    let mut expected: Vec<u8> = Vec::new();
    expected.extend_from_slice(b"GIF89a");
    expected.extend_from_slice(&[0x40, 0x01, 0xc8, 0x00, 0x80, 0, 0]);
    expected.extend_from_slice(&[0, 0, 0, 0, 0, 0]);
    expected.extend_from_slice(&[0x21, 0xff, 0x0b]);
    expected.extend_from_slice(b"NETSCAPE2.0");
    expected.extend_from_slice(&[0x03, 0x01, 0x00, 0x00, 0x00]);
    expected.push(0x3b);
    assert_eq!(bytes, expected);
}

#[test]
fn animation_starts_with_the_header_and_ends_with_the_trailer() {
    let frames = vec![solid(4, 2, [255, 0, 0, 255])];
    let bytes = encode_gif(&frames, 15, 4, 2).unwrap();
    let empty = encode_gif(&Vec::new(), 15, 4, 2).unwrap();
    assert_eq!(bytes[..38], empty[..38]);
    assert_eq!(bytes[bytes.len() - 1], 0x3b);
    assert!(bytes.len() > empty.len());
}

#[test]
fn animation_is_made_of_its_frames_in_order() {
    let red = solid(4, 2, [255, 0, 0, 255]);
    let blue = solid(4, 2, [0, 0, 255, 255]);
    let head = encode_gif(&Vec::new(), 7, 4, 2).unwrap();
    let only_red = encode_gif(&vec![red.clone()], 7, 4, 2).unwrap();
    let only_blue = encode_gif(&vec![blue.clone()], 7, 4, 2).unwrap();
    let both = encode_gif(&vec![red, blue], 7, 4, 2).unwrap();
    let red_block = &only_red[head.len() - 1..only_red.len() - 1];
    let blue_block = &only_blue[head.len() - 1..only_blue.len() - 1];
    let mut expected = head[..head.len() - 1].to_vec();
    expected.extend_from_slice(red_block);
    expected.extend_from_slice(blue_block);
    expected.push(0x3b);
    assert_eq!(both, expected);
    assert_ne!(red_block, blue_block);
}

#[test]
fn encoding_is_repeatable() {
    let mut frames = Vec::new();
    for i in 0..3u8 {
        let mut frame = Vec::new();
        for pixel in 0..32u32 * 32 {
            let v = (pixel * 7 + u32::from(i) * 13) as u8;
            frame.extend_from_slice(&[v, v.wrapping_mul(3), v.wrapping_add(i), 255]);
        }
        frames.push(frame);
    }
    assert_eq!(encode_gif(&frames, 15, 32, 32), encode_gif(&frames, 15, 32, 32));
}

#[test]
fn encoding_leaves_the_frames_as_they_are() {
    let frames = vec![solid(2, 2, [9, 8, 7, 3])];
    let before = frames.clone();
    encode_gif(&frames, 15, 2, 2).unwrap();
    assert_eq!(frames, before);
}

#[test]
fn decoded_animation_loops_forever_with_the_given_delay() {
    let frames = vec![
        solid(4, 3, [255, 0, 0, 255]),
        solid(4, 3, [0, 255, 0, 255]),
        solid(4, 3, [0, 0, 255, 255]),
    ];
    let bytes = encode_gif(&frames, 15, 4, 3).unwrap();
    let (width, height, repeat, decoded) = decode(&bytes);
    assert_eq!((width, height), (4, 3));
    assert_eq!(repeat, gif::Repeat::Infinite);
    assert_eq!(decoded.len(), 3);
    for (i, (delay, pixels)) in decoded.iter().enumerate() {
        assert_eq!(*delay, 15);
        assert_eq!(pixels, &frames[i]);
    }
}

#[test]
fn decoded_frames_carry_another_delay() {
    let bytes = encode_gif(&vec![solid(1, 1, [1, 2, 3, 255])], 300, 1, 1).unwrap();
    let (_, _, _, decoded) = decode(&bytes);
    assert_eq!(decoded.len(), 1);
    assert_eq!(decoded[0].0, 300);
}

#[test]
fn frame_with_many_colours_is_quantised() {
    let mut frame = Vec::new();
    for pixel in 0..32u32 * 32 {
        frame.extend_from_slice(&[(pixel % 256) as u8, (pixel / 4) as u8, (pixel / 7) as u8, 255]);
    }
    let bytes = encode_gif(&vec![frame], 15, 32, 32).unwrap();
    let (width, height, _, decoded) = decode(&bytes);
    assert_eq!((width, height), (32, 32));
    assert_eq!(decoded.len(), 1);
    assert_eq!(decoded[0].1.len(), 32 * 32 * 4);
}

#[test]
fn captured_run_of_59_frames_is_encoded_as_59_frames() {
    let mut run = Capture::new(10, [64, 64], FRAME_COUNT);
    let mut step = run.step();
    let mut shade = 0u8;
    while step == CaptureStep::Render {
        shade = shade.wrapping_add(4);
        let mut mapped = vec![0u8; 256 * 64];
        for pixel in mapped.chunks_mut(4) {
            pixel.copy_from_slice(&[shade, 0, 255 - shade, 255]);
        }
        step = run.frame_mapped(Some(&mapped));
    }
    let frames = run.into_frames().unwrap();
    assert_eq!(frames.len(), 59);
    assert!(frames.iter().all(|frame| frame.len() == 16384));
    assert!(check_frames(&frames, 64, 64));
    let bytes = encode_gif(&frames, FRAME_DELAY, 64, 64).unwrap();
    let (width, height, repeat, decoded) = decode(&bytes);
    assert_eq!((width, height), (64, 64));
    assert_eq!(repeat, gif::Repeat::Infinite);
    assert_eq!(decoded.len(), 59);
    for (i, (delay, pixels)) in decoded.iter().enumerate() {
        assert_eq!(*delay, 15);
        assert_eq!(pixels, &frames[i]);
    }
}
