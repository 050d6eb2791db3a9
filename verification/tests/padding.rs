use shader_art_rs::app::App;
use shader_art_rs::padding::{padded_row_len, strip_row_padding, BYTES_PER_PIXEL, ROW_ALIGNMENT};

#[test]
fn padded_row_of_one_pixel_is_one_alignment_unit() {
    assert_eq!(padded_row_len(1), 256);
    assert_eq!(App::calculate_padding(1), 256);
}

#[test]
fn aligned_rows_get_no_padding() {
    assert_eq!(App::calculate_padding(64), 256);
    assert_eq!(App::calculate_padding(128), 512);
    assert_eq!(App::calculate_padding(512), 2048);
    assert_eq!(padded_row_len(0), 0);
}

#[test]
fn unaligned_rows_are_rounded_up() {
    assert_eq!(App::calculate_padding(63), 256);
    assert_eq!(App::calculate_padding(65), 512);
    assert_eq!(App::calculate_padding(100), 512);
    assert_eq!(App::calculate_padding(800), 3328);
    assert_eq!(App::calculate_padding(65535), 262144);
}

#[test]
fn both_padding_functions_agree() {
    for width in [0u32, 1, 2, 63, 64, 65, 127, 128, 1000, 4096, 65535] {
        assert_eq!(u64::from(App::calculate_padding(width)), padded_row_len(width));
    }
}

#[test]
fn padded_row_of_the_widest_row_needs_more_than_32_bits() {
    assert_eq!(padded_row_len(u32::MAX), 17_179_869_184);
    assert_eq!(padded_row_len(0x3fff_ffc0), 0xffff_ff00);
}

#[test]
fn padded_rows_are_aligned_and_hold_the_row() {
    let align = u64::from(ROW_ALIGNMENT);
    for width in 1u32..3000 {
        let unpadded = u64::from(BYTES_PER_PIXEL) * u64::from(width);
        let padded = padded_row_len(width);
        assert_eq!(padded % align, 0);
        assert!(padded >= unpadded);
        assert!(padded - unpadded < align);
    }
}

#[test]
fn stripping_keeps_the_start_of_each_row() {
    let buffer: Vec<u8> = vec![1, 2, 3, 0, 0, 4, 5, 6, 0, 0, 7, 8, 9, 0, 0];
    assert_eq!(strip_row_padding(&buffer, 3, 5, 3), vec![1, 2, 3, 4, 5, 6, 7, 8, 9]);
}

#[test]
fn stripping_without_padding_changes_nothing() {
    let buffer: Vec<u8> = vec![9, 8, 7, 6, 5, 4];
    assert_eq!(strip_row_padding(&buffer, 2, 2, 3), buffer);
}

#[test]
fn stripping_no_rows_gives_nothing() {
    let buffer: Vec<u8> = Vec::new();
    assert_eq!(strip_row_padding(&buffer, 4, 256, 0), Vec::<u8>::new());
    assert_eq!(strip_row_padding(&buffer, 0, 0, 7), Vec::<u8>::new());
}

#[test]
fn stripping_undoes_zero_padding() {
    let width = 5usize;
    let height = 7usize;
    let row_len = 4 * width;
    let stride = App::calculate_padding(5) as usize;
    let image: Vec<u8> = (0..row_len * height).map(|i| (i * 31 % 251) as u8).collect();
    let mut padded: Vec<u8> = Vec::new();
    for row in image.chunks(row_len) {
        padded.extend_from_slice(row);
        padded.resize(padded.len() + stride - row_len, 0);
    }
    assert_eq!(padded.len(), stride * height);
    assert_eq!(strip_row_padding(&padded, row_len, stride, height), image);
}

#[test]
fn stripping_ignores_what_the_padding_holds() {
    let buffer: Vec<u8> = vec![1, 2, 0xaa, 0xbb, 3, 4, 0xcc, 0xdd];
    assert_eq!(strip_row_padding(&buffer, 2, 4, 2), vec![1, 2, 3, 4]);
}
