//! The adapter between captured frames and the GIF encoder: an animation
//! that loops forever, with every frame shown for the same delay.
//!
//! The `gif` crate does the quantisation and the compression. This module
//! decides what it is handed and in which order, and says what the finished
//! stream is made of.

use vstd::prelude::*;

verus! {

/// Speed of the colour quantisation, from 1 (best) to 30 (fastest).
pub const QUANTIZATION_SPEED: i32 = 15;

/// Delay of every frame of a captured animation, in hundredths of a second.
pub const FRAME_DELAY: u16 = 15;

/// Why the encoder gave up.
#[derive(Clone, Copy, Debug, PartialEq, Eq, Structural)]
pub enum EncodeError {
    /// The image cannot be written as a GIF: it has no palette, or one of
    /// more than 256 colours.
    Format,
    /// Writing to the stream failed, or memory for it ran out.
    Io,
}

/// A frame as the encoder writes it: a palette and one palette index for
/// each pixel.
#[derive(Clone, Debug, PartialEq, Eq)]
pub struct IndexedFrame {
    pub width: u16,
    pub height: u16,
    /// Time the frame is shown, in hundredths of a second.
    pub delay: u16,
    /// Palette index of the transparent colour.
    pub transparent: Option<u8>,
    /// The colours as `[r, g, b, ...]`.
    pub palette: Option<Vec<u8>>,
    /// One palette index for each pixel, row by row.
    pub indices: Vec<u8>,
}

/// The encoder of the `gif` crate, writing into memory.
#[verifier::external_body]
pub struct GifStream {
    encoder: gif::Encoder<Vec<u8>>,
}

/// The bytes that the encoder has written so far.
pub uninterp spec fn written(stream: GifStream) -> Seq<u8>;

/// What `gif::Frame::from_rgba_speed` makes of RGBA pixels: the palette, the
/// index of each pixel and the transparent index.
pub uninterp spec fn quantized(width: u16, height: u16, rgba: Seq<u8>, speed: i32) -> (
    Option<Seq<u8>>,
    Seq<u8>,
    Option<u8>,
);

/// The bytes that `gif::Encoder::write_frame` writes for a frame at the
/// origin that is neither interlaced nor waits for input and keeps the
/// canvas when it ends: a graphic control extension, an image descriptor, the
/// palette and the compressed indices.
pub uninterp spec fn frame_block(
    width: u16,
    height: u16,
    delay: u16,
    transparent: Option<u8>,
    palette: Option<Seq<u8>>,
    indices: Seq<u8>,
) -> Seq<u8>;

/// Low byte, then high byte.
pub open spec fn le_bytes(n: u16) -> Seq<u8> {
    seq![(n % 256) as u8, (n / 256) as u8]
}

/// Start of a stream without a global palette: the signature `GIF89a`, the
/// logical screen descriptor and the smallest colour table, two black
/// entries.
pub open spec fn screen_header(width: u16, height: u16) -> Seq<u8> {
    seq![0x47u8, 0x49u8, 0x46u8, 0x38u8, 0x39u8, 0x61u8] + le_bytes(width) + le_bytes(height)
        + seq![0x80u8, 0u8, 0u8] + seq![0u8, 0u8, 0u8, 0u8, 0u8, 0u8]
}

/// The application extension `NETSCAPE2.0` with a repeat count of zero, which
/// stands for looping forever.
pub open spec fn loop_extension() -> Seq<u8> {
    seq![0x21u8, 0xFFu8, 0x0Bu8] + seq![
        0x4Eu8,
        0x45u8,
        0x54u8,
        0x53u8,
        0x43u8,
        0x41u8,
        0x50u8,
        0x45u8,
        0x32u8,
        0x2Eu8,
        0x30u8,
    ] + seq![0x03u8, 0x01u8, 0x00u8, 0x00u8, 0x00u8]
}

/// The byte that ends a stream.
pub open spec fn trailer() -> Seq<u8> {
    seq![0x3Bu8]
}

/// View of an optional palette.
pub open spec fn palette_view(palette: Option<Vec<u8>>) -> Option<Seq<u8>> {
    match palette {
        Some(colours) => Some(colours@),
        None => None,
    }
}

impl IndexedFrame {
    /// The bytes that the encoder writes for this frame.
    pub open spec fn block(self) -> Seq<u8> {
        frame_block(
            self.width,
            self.height,
            self.delay,
            self.transparent,
            palette_view(self.palette),
            self.indices@,
        )
    }

    /// The frame, shown for `delay` hundredths of a second.
    pub fn with_delay(self, delay: u16) -> (frame: IndexedFrame)
        ensures
            frame == (IndexedFrame { delay, ..self }),
    {
        IndexedFrame { delay, ..self }
    }
}

/// The bytes of one RGBA frame of a stream: quantised at the fixed speed,
/// then written with the given delay.
pub open spec fn rgba_block(width: u16, height: u16, delay: u16, rgba: Seq<u8>) -> Seq<u8> {
    let q = quantized(width, height, rgba, QUANTIZATION_SPEED);
    frame_block(width, height, delay, q.2, q.0, q.1)
}

/// The blocks of `frames`, in order.
pub open spec fn rgba_blocks(width: u16, height: u16, delay: u16, frames: Seq<Seq<u8>>) -> Seq<
    u8,
>
    decreases frames.len(),
{
    if frames.len() == 0 {
        Seq::empty()
    } else {
        rgba_blocks(width, height, delay, frames.drop_last()) + rgba_block(
            width,
            height,
            delay,
            frames.last(),
        )
    }
}

/// A whole animation: header, the mark that it loops forever, one block for
/// each frame in order, trailer.
pub open spec fn animation(width: u16, height: u16, delay: u16, frames: Seq<Seq<u8>>) -> Seq<u8> {
    screen_header(width, height) + loop_extension() + rgba_blocks(width, height, delay, frames)
        + trailer()
}

/// Whether every frame has four bytes for each pixel.
pub open spec fn frames_fit(frames: Seq<Seq<u8>>, width: u16, height: u16) -> bool {
    forall|i: int| 0 <= i < frames.len() ==> (#[trigger] frames[i]).len() == width * height * 4
}

/// The frames of a list, each as its bytes.
pub open spec fn frames_view(frames: Seq<Vec<u8>>) -> Seq<Seq<u8>> {
    Seq::new(frames.len(), |i: int| frames[i]@)
}

/// `gif::Encoder::new` on an empty `Vec<u8>` and with an empty global
/// palette. Where it succeeds, the contract claims that the encoder has
/// written the screen header for the given size and nothing else. It also
/// claims that a failure is a failed write: the encoder refuses nothing but
/// a palette of more than 256 colours.
#[verifier::external_body]
fn begin_stream(width: u16, height: u16) -> (result: Result<GifStream, EncodeError>)
    ensures
        result matches Ok(stream) ==> written(stream) == screen_header(width, height),
        result matches Err(error) ==> error == EncodeError::Io,
{
    match gif::Encoder::new(Vec::new(), width, height, &[]) {
        Ok(encoder) => Ok(GifStream { encoder }),
        Err(gif::EncodingError::Format(_)) => Err(EncodeError::Format),
        Err(gif::EncodingError::Io(_)) => Err(EncodeError::Io),
    }
}

/// `gif::Encoder::set_repeat` with `Repeat::Infinite`. Where it succeeds,
/// the contract claims that it has appended the loop extension. It also
/// claims that a failure is a failed write: writing an extension has no
/// other.
#[verifier::external_body]
fn repeat_forever(stream: &mut GifStream) -> (result: Result<(), EncodeError>)
    ensures
        result is Ok ==> written(*final(stream)) == written(*old(stream)) + loop_extension(),
        result matches Err(error) ==> error == EncodeError::Io,
{
    match stream.encoder.set_repeat(gif::Repeat::Infinite) {
        Ok(()) => Ok(()),
        Err(gif::EncodingError::Format(_)) => Err(EncodeError::Format),
        Err(gif::EncodingError::Io(_)) => Err(EncodeError::Io),
    }
}

/// `gif::Frame::from_rgba_speed` on a copy of the pixels. It panics on a
/// length other than `width * height * 4` and on a speed outside 1 to 30,
/// which `requires` leaves out. The contract names palette, indices and
/// transparent index after the arguments and claims that the frame has the
/// given size, one index for each pixel, no delay, and a palette of at most
/// 256 colours.
#[verifier::external_body]
fn quantize(width: u16, height: u16, rgba: &Vec<u8>, speed: i32) -> (frame: IndexedFrame)
    requires
        rgba@.len() == width * height * 4,
        1 <= speed <= 30,
    ensures
        frame.width == width,
        frame.height == height,
        frame.delay == 0,
        (palette_view(frame.palette), frame.indices@, frame.transparent) == quantized(
            width,
            height,
            rgba@,
            speed,
        ),
        frame.indices@.len() == width * height,
        frame.palette is Some,
        frame.palette->0@.len() <= 768,
{
    let mut pixels = rgba.clone();
    let frame = gif::Frame::from_rgba_speed(width, height, &mut pixels, speed);
    IndexedFrame {
        width: frame.width,
        height: frame.height,
        delay: frame.delay,
        transparent: frame.transparent,
        palette: frame.palette,
        indices: frame.buffer.into_owned(),
    }
}

/// `gif::Encoder::write_frame` on a frame with the given fields and the
/// defaults of `gif::Frame` for the rest. Where it succeeds, the contract
/// claims that it has appended the frame's block. It also claims that a
/// failure is a failed write or a lack of memory: the encoder refuses
/// nothing but a frame without a palette or with one of more than 256
/// colours, which `requires` leaves out.
#[verifier::external_body]
fn write_frame(stream: &mut GifStream, frame: &IndexedFrame) -> (result: Result<(), EncodeError>)
    requires
        frame.indices@.len() == frame.width * frame.height,
        frame.palette is Some,
        frame.palette->0@.len() <= 768,
    ensures
        result is Ok ==> written(*final(stream)) == written(*old(stream)) + frame_block(
            frame.width,
            frame.height,
            frame.delay,
            frame.transparent,
            palette_view(frame.palette),
            frame.indices@,
        ),
        result matches Err(error) ==> error == EncodeError::Io,
{
    let outside = gif::Frame {
        width: frame.width,
        height: frame.height,
        delay: frame.delay,
        transparent: frame.transparent,
        palette: frame.palette.clone(),
        buffer: std::borrow::Cow::Borrowed(&frame.indices),
        ..gif::Frame::default()
    };
    match stream.encoder.write_frame(&outside) {
        Ok(()) => Ok(()),
        Err(gif::EncodingError::Format(_)) => Err(EncodeError::Format),
        Err(gif::EncodingError::Io(_)) => Err(EncodeError::Io),
    }
}

/// `gif::Encoder::into_inner`. Where it succeeds, the contract claims that
/// it hands out what was written, followed by the trailer. Its error is
/// that of the write.
#[verifier::external_body]
fn finish_stream(stream: GifStream) -> (result: Result<Vec<u8>, EncodeError>)
    ensures
        result matches Ok(bytes) ==> bytes@ == written(stream) + trailer(),
        result matches Err(error) ==> error == EncodeError::Io,
{
    match stream.encoder.into_inner() {
        Ok(bytes) => Ok(bytes),
        Err(_) => Err(EncodeError::Io),
    }
}

/// Whether every frame has four bytes for each pixel of a `width` by
/// `height` image.
pub fn check_frames(frames: &Vec<Vec<u8>>, width: u16, height: u16) -> (fit: bool)
    ensures
        fit == frames_fit(frames_view(frames@), width, height),
{
    assert(width * height <= 0xffff * 0xffff) by (nonlinear_arith)
        requires
            width <= 0xffff,
            height <= 0xffff,
    ;
    let expected: u64 = width as u64 * height as u64 * 4;
    let mut i: usize = 0;
    while i < frames.len()
        invariant
            i <= frames@.len(),
            expected == width * height * 4,
            forall|j: int| 0 <= j < i ==> (#[trigger] frames@[j])@.len() == expected,
        decreases frames@.len() - i,
    {
        if frames[i].len() as u64 != expected {
            assert(frames_view(frames@)[i as int].len() != width * height * 4);
            return false;
        }
        i = i + 1;
    }
    assert forall|j: int| 0 <= j < frames_view(frames@).len() implies (#[trigger] frames_view(
        frames@,
    )[j]).len() == width * height * 4 by {
        assert(frames@[j]@.len() == expected);
    }
    true
}

/// Encodes RGBA frames of `width` by `height` pixels as a GIF that loops
/// forever and shows every frame for `delay` hundredths of a second. What
/// the encoder hands back is the whole animation. Whether it gets that far
/// is the encoder's to say; where it does not, a write has failed or memory
/// has run out, for frames of the right size are never refused.
pub fn encode_gif(frames: &Vec<Vec<u8>>, delay: u16, width: u16, height: u16) -> (result: Result<
    Vec<u8>,
    EncodeError,
>)
    requires
        frames_fit(frames_view(frames@), width, height),
    ensures
        result matches Ok(bytes) ==> bytes@ == animation(
            width,
            height,
            delay,
            frames_view(frames@),
        ),
        result matches Err(error) ==> error == EncodeError::Io,
{
    let mut stream = match begin_stream(width, height) {
        Ok(stream) => stream,
        Err(error) => {
            return Err(error);
        },
    };
    match repeat_forever(&mut stream) {
        Ok(()) => {},
        Err(error) => {
            return Err(error);
        },
    }
    let ghost all = frames_view(frames@);
    let mut i: usize = 0;
    while i < frames.len()
        invariant
            i <= frames@.len(),
            all == frames_view(frames@),
            frames_fit(all, width, height),
            written(stream) == screen_header(width, height) + loop_extension() + rgba_blocks(
                width,
                height,
                delay,
                all.subrange(0, i as int),
            ),
        decreases frames@.len() - i,
    {
        let rgba = &frames[i];
        assert(rgba@ == all[i as int]);
        let frame = quantize(width, height, rgba, QUANTIZATION_SPEED).with_delay(delay);
        match write_frame(&mut stream, &frame) {
            Ok(()) => {},
            Err(error) => {
                return Err(error);
            },
        }
        proof {
            let done = all.subrange(0, i + 1);
            assert(done.drop_last() =~= all.subrange(0, i as int));
            assert(done.last() == rgba@);
            assert(frame.block() == rgba_block(width, height, delay, rgba@));
        }
        i = i + 1;
    }
    assert(all.subrange(0, i as int) =~= all);
    finish_stream(stream)
}

} // verus!
