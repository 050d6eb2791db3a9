//! Row layout of a texture copied into a linear buffer.
//!
//! A GPU copy writes every pixel row at an offset that is a multiple of the
//! device's row alignment, so each row of `4 * width` bytes is followed by
//! padding that is not part of the image. This module holds the arithmetic of
//! that layout and the removal of the padding from a mapped buffer.

use vstd::prelude::*;
use vstd::slice::slice_subrange;

verus! {

broadcast use vstd::slice::group_slice_axioms;

/// Bytes of one RGBA pixel.
pub const BYTES_PER_PIXEL: u32 = 4;

/// Alignment, in bytes, of each row of a texture-to-buffer copy.
pub const ROW_ALIGNMENT: u32 = 256;

/// Bytes of one row of `width` pixels, without padding.
pub open spec fn unpadded_bytes_per_row(width: nat) -> nat {
    4 * width
}

/// Bytes appended to a row of `width` pixels to reach the next multiple of
/// the row alignment.
pub open spec fn row_padding(width: nat) -> nat {
    ((256 - unpadded_bytes_per_row(width) % 256) % 256) as nat
}

/// Bytes of one row of `width` pixels in a copy buffer, padding included.
pub open spec fn padded_bytes_per_row(width: nat) -> nat {
    unpadded_bytes_per_row(width) + row_padding(width)
}

/// The padded row length is the least multiple of the alignment that holds
/// the row: it is a multiple of 256, not shorter than the row, and less than
/// one alignment unit longer.
pub proof fn lemma_padded_row_bounds(width: nat)
    ensures
        padded_bytes_per_row(width) % 256 == 0,
        padded_bytes_per_row(width) >= 4 * width,
        padded_bytes_per_row(width) - 4 * width < 256,
{
}

/// A row whose length is already aligned gets no padding.
pub proof fn lemma_aligned_row_is_unpadded(width: nat)
    requires
        (4 * width) % 256 == 0,
    ensures
        padded_bytes_per_row(width) == 4 * width,
{
}

/// `wgpu::COPY_BYTES_PER_ROW_ALIGNMENT`, the row pitch alignment that wgpu
/// demands of buffer copies. The contract claims its value, 256.
#[verifier::external_body]
pub(crate) fn copy_row_alignment() -> (align: u32)
    ensures
        align == ROW_ALIGNMENT,
{
    wgpu::COPY_BYTES_PER_ROW_ALIGNMENT
}

/// Padded row length of `width` pixels, for any width.
pub fn padded_row_len(width: u32) -> (padded: u64)
    ensures
        padded == padded_bytes_per_row(width as nat),
{
    let align: u64 = copy_row_alignment() as u64;
    let pixel_size: u64 = BYTES_PER_PIXEL as u64;
    assert(pixel_size * width == 4 * width) by (nonlinear_arith)
        requires
            pixel_size == 4,
    ;
    let unpadded: u64 = pixel_size * width as u64;
    let padding: u64 = (align - unpadded % align) % align;
    unpadded + padding
}

/// The first `len` bytes of the `row`-th chunk of `stride` bytes of `buffer`.
pub open spec fn row_prefix(buffer: Seq<u8>, row: nat, stride: nat, len: nat) -> Seq<u8> {
    buffer.subrange((row * stride) as int, (row * stride + len) as int)
}

/// The first `row_len` bytes of each of the first `rows` chunks of `stride`
/// bytes of `buffer`, concatenated in row order.
pub open spec fn strip_rows(buffer: Seq<u8>, row_len: nat, stride: nat, rows: nat) -> Seq<u8>
    recommends
        row_len <= stride,
        buffer.len() >= rows * stride,
    decreases rows,
{
    if rows == 0 {
        Seq::empty()
    } else {
        let row = (rows - 1) as nat;
        strip_rows(buffer, row_len, stride, row) + row_prefix(buffer, row, stride, row_len)
    }
}

/// The first `rows` rows of `row_len` bytes of `pixels`, each followed by
/// zeros up to `stride` bytes.
pub open spec fn pad_rows(pixels: Seq<u8>, row_len: nat, stride: nat, rows: nat) -> Seq<u8>
    recommends
        row_len <= stride,
        pixels.len() >= rows * row_len,
    decreases rows,
{
    if rows == 0 {
        Seq::empty()
    } else {
        let row = (rows - 1) as nat;
        pad_rows(pixels, row_len, stride, row) + row_prefix(pixels, row, row_len, row_len)
            + Seq::new((stride - row_len) as nat, |i: int| 0u8)
    }
}

proof fn lemma_row_end(rows: nat, len: nat)
    requires
        rows > 0,
    ensures
        ((rows - 1) as nat) * len + len == rows * len,
        0 <= ((rows - 1) as nat) * len,
{
    assert(((rows - 1) as nat) * len + len == rows * len && 0 <= ((rows - 1) as nat) * len)
        by (nonlinear_arith)
        requires
            rows > 0,
    ;
}

proof fn lemma_no_rows(len: nat)
    ensures
        0 * len == 0,
{
    assert(0 * len == 0) by (nonlinear_arith);
}

proof fn lemma_rows_monotonic(a: nat, b: nat, len: nat)
    requires
        a <= b,
    ensures
        a * len <= b * len,
{
    assert(a * len <= b * len) by (nonlinear_arith)
        requires
            a <= b,
    ;
}

/// Stripping keeps `row_len` bytes of every row.
pub proof fn lemma_strip_rows_len(buffer: Seq<u8>, row_len: nat, stride: nat, rows: nat)
    requires
        row_len <= stride,
        buffer.len() >= rows * stride,
    ensures
        strip_rows(buffer, row_len, stride, rows).len() == rows * row_len,
    decreases rows,
{
    if rows > 0 {
        let row = (rows - 1) as nat;
        lemma_row_end(rows, stride);
        lemma_row_end(rows, row_len);
        lemma_strip_rows_len(buffer, row_len, stride, row);
    } else {
        lemma_no_rows(row_len);
    }
}

/// Byte `column` of row `row` of the stripped image is byte `column` of the
/// `row`-th chunk of the buffer.
pub proof fn lemma_strip_rows_index(
    buffer: Seq<u8>,
    row_len: nat,
    stride: nat,
    rows: nat,
    row: nat,
    column: nat,
)
    requires
        row_len <= stride,
        buffer.len() >= rows * stride,
        row < rows,
        column < row_len,
    ensures
        row * row_len + column < strip_rows(buffer, row_len, stride, rows).len(),
        row * stride + column < buffer.len(),
        strip_rows(buffer, row_len, stride, rows)[(row * row_len + column) as int] == buffer[(row
            * stride + column) as int],
    decreases rows,
{
    let last = (rows - 1) as nat;
    lemma_row_end(rows, stride);
    lemma_row_end(rows, row_len);
    lemma_strip_rows_len(buffer, row_len, stride, last);
    lemma_strip_rows_len(buffer, row_len, stride, rows);
    if row < last {
        lemma_rows_monotonic(row + 1, last, row_len);
        lemma_row_end(row + 1, row_len);
        lemma_strip_rows_index(buffer, row_len, stride, last, row, column);
    }
}

/// Bytes behind the first `rows` chunks do not reach the stripped image.
pub proof fn lemma_strip_rows_prefix(
    buffer: Seq<u8>,
    tail: Seq<u8>,
    row_len: nat,
    stride: nat,
    rows: nat,
)
    requires
        row_len <= stride,
        buffer.len() >= rows * stride,
    ensures
        strip_rows(buffer + tail, row_len, stride, rows) == strip_rows(
            buffer,
            row_len,
            stride,
            rows,
        ),
    decreases rows,
{
    if rows > 0 {
        let row = (rows - 1) as nat;
        lemma_row_end(rows, stride);
        lemma_strip_rows_prefix(buffer, tail, row_len, stride, row);
        assert(row_prefix(buffer + tail, row, stride, row_len) =~= row_prefix(
            buffer,
            row,
            stride,
            row_len,
        ));
    }
}

/// Padding adds `stride` bytes for every row.
pub proof fn lemma_pad_rows_len(pixels: Seq<u8>, row_len: nat, stride: nat, rows: nat)
    requires
        row_len <= stride,
        pixels.len() >= rows * row_len,
    ensures
        pad_rows(pixels, row_len, stride, rows).len() == rows * stride,
    decreases rows,
{
    if rows > 0 {
        let row = (rows - 1) as nat;
        lemma_row_end(rows, stride);
        lemma_row_end(rows, row_len);
        lemma_pad_rows_len(pixels, row_len, stride, row);
    } else {
        lemma_no_rows(stride);
    }
}

/// Stripping undoes padding: from a buffer made of the rows of an image, each
/// followed by zero padding, stripping recovers the image byte for byte.
pub proof fn lemma_strip_inverts_pad(pixels: Seq<u8>, row_len: nat, stride: nat, rows: nat)
    requires
        row_len <= stride,
        pixels.len() >= rows * row_len,
    ensures
        strip_rows(pad_rows(pixels, row_len, stride, rows), row_len, stride, rows)
            == pixels.subrange(0, (rows * row_len) as int),
        pixels.len() == rows * row_len ==> strip_rows(
            pad_rows(pixels, row_len, stride, rows),
            row_len,
            stride,
            rows,
        ) == pixels,
    decreases rows,
{
    if rows == 0 {
        lemma_no_rows(row_len);
        assert(pixels.subrange(0, 0) =~= Seq::<u8>::empty());
    } else {
        let row = (rows - 1) as nat;
        lemma_row_end(rows, stride);
        lemma_row_end(rows, row_len);
        let before = pad_rows(pixels, row_len, stride, row);
        let image_row = row_prefix(pixels, row, row_len, row_len);
        let zeros = Seq::new((stride - row_len) as nat, |i: int| 0u8);
        let padded = pad_rows(pixels, row_len, stride, rows);
        assert(padded == before + image_row + zeros);
        lemma_pad_rows_len(pixels, row_len, stride, row);
        lemma_strip_inverts_pad(pixels, row_len, stride, row);
        assert(padded =~= before + (image_row + zeros));
        lemma_strip_rows_prefix(before, image_row + zeros, row_len, stride, row);
        assert(row_prefix(padded, row, stride, row_len) =~= image_row);
        assert(pixels.subrange(0, (row * row_len) as int) + image_row =~= pixels.subrange(
            0,
            (rows * row_len) as int,
        ));
    }
    if pixels.len() == rows * row_len {
        assert(pixels.subrange(0, (rows * row_len) as int) =~= pixels);
    }
}

/// An image of `width` by `height` pixels survives the copy layout: laid
/// out in padded rows and stripped again, it is the image it was.
pub proof fn lemma_image_survives_padding(pixels: Seq<u8>, width: nat, height: nat)
    requires
        pixels.len() == 4 * width * height,
    ensures
        strip_rows(
            pad_rows(
                pixels,
                unpadded_bytes_per_row(width),
                padded_bytes_per_row(width),
                height,
            ),
            unpadded_bytes_per_row(width),
            padded_bytes_per_row(width),
            height,
        ) == pixels,
{
    assert(4 * width * height == height * (4 * width)) by (nonlinear_arith);
    lemma_strip_inverts_pad(
        pixels,
        unpadded_bytes_per_row(width),
        padded_bytes_per_row(width),
        height,
    );
}

/// Removes the row padding from a mapped copy buffer of `rows` rows, each
/// `stride` bytes apart and `row_len` bytes long.
pub fn strip_row_padding(buffer: &[u8], row_len: usize, stride: usize, rows: usize) -> (pixels:
    Vec<u8>)
    requires
        row_len <= stride,
        buffer@.len() == rows * stride,
    ensures
        pixels@ == strip_rows(buffer@, row_len as nat, stride as nat, rows as nat),
        pixels@.len() == rows * row_len,
{
    let mut pixels: Vec<u8> = Vec::new();
    let total: usize = buffer.len();
    let mut row: usize = 0;
    proof {
        lemma_no_rows(stride as nat);
    }
    while row < rows
        invariant
            row <= rows,
            row_len <= stride,
            buffer@.len() == rows * stride,
            buffer@.len() == total,
            pixels@ == strip_rows(buffer@, row_len as nat, stride as nat, row as nat),
        decreases rows - row,
    {
        proof {
            assert(0 <= row * stride && row * stride + stride <= rows * stride && (row + 1)
                * stride == row * stride + stride) by (nonlinear_arith)
                requires
                    row < rows,
            ;
        }
        let start: usize = row * stride;
        let chunk = slice_subrange(buffer, start, start + row_len);
        let ghost before = pixels@;
        pixels.extend_from_slice(chunk);
        assert(pixels@ =~= before + chunk@);
        row = row + 1;
    }
    proof {
        lemma_strip_rows_len(buffer@, row_len as nat, stride as nat, rows as nat);
    }
    pixels
}

} // verus!
