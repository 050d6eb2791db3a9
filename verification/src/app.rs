//! The render context as the host sees it: which target it draws to, how
//! large that target is, and the pipeline state that goes with it.
//!
//! The device, the queue and the GPU resources live with the caller. Every
//! function here takes plain values in and says what the caller has to do on
//! the device afterwards.

use vstd::prelude::*;
use crate::padding::{
    copy_row_alignment, padded_bytes_per_row, padded_row_len, strip_row_padding, strip_rows,
    unpadded_bytes_per_row, BYTES_PER_PIXEL,
};
use crate::pipeline::{Common, Pipeline, INITIAL_TIME};

verus! {

/// Size of the offscreen texture, in pixels.
#[derive(Clone, Copy, Debug, PartialEq, Eq, Structural)]
pub struct TextureSize {
    pub height: u32,
    pub width: u32,
}

/// Size of a window's drawable area, in physical pixels.
#[derive(Clone, Copy, Debug, PartialEq, Eq, Structural)]
pub struct PhysicalSize {
    pub width: u32,
    pub height: u32,
}

/// What the presentable surface is configured with.
#[derive(Clone, Copy, Debug, PartialEq, Eq, Structural)]
pub struct SurfaceConfiguration {
    /// Position of the chosen format in the surface's list of formats.
    pub format: usize,
    pub width: u32,
    pub height: u32,
}

/// A window's surface.
#[derive(Clone, Copy, Debug, PartialEq, Eq, Structural)]
pub struct Surface {
    pub surface_config: SurfaceConfiguration,
    pub surface_size: PhysicalSize,
}

/// The offscreen texture and the staging buffer it is read back through.
#[derive(Clone, Copy, Debug, PartialEq, Eq, Structural)]
pub struct Offscreen {
    pub texture_size: TextureSize,
    /// Bytes of the staging buffer: one padded row for each row of the
    /// texture.
    pub output_buffer_size: u64,
}

/// What a render context draws to.
#[derive(Clone, Copy, Debug, PartialEq, Eq, Structural)]
pub enum RenderTarget {
    Presentable(Surface),
    Offscreen(Offscreen),
}

/// Layout of the texture-to-buffer copy of one captured frame.
#[derive(Clone, Copy, Debug, PartialEq, Eq, Structural)]
pub struct CopyLayout {
    pub bytes_per_row: u32,
    pub rows_per_image: u32,
}

/// The one render pass of a frame: a clear, then one indexed draw.
#[derive(Clone, Copy, Debug, PartialEq, Eq)]
pub struct RenderPass {
    /// Colour that the target is cleared to, as `[r, g, b, a]` from 0 to 255.
    pub clear_color: [u8; 4],
    /// Number of indices drawn, from the first of the index buffer.
    pub index_count: u32,
    /// Number of instances drawn.
    pub instance_count: u32,
}

/// Why a frame could not be captured.
#[derive(Clone, Copy, Debug, PartialEq, Eq, Structural)]
pub enum CaptureError {
    /// The staging buffer could not be mapped for reading.
    MapFailed,
    /// The mapped buffer does not hold one padded row for each texture row.
    BufferSize,
}

/// The render context.
#[derive(Clone, Copy, Debug)]
pub struct App {
    pub target: RenderTarget,
    pub pipeline: Pipeline,
}

/// Position of the first sRGB format at or behind `start`, or the length of
/// the list where there is none.
pub open spec fn first_srgb(srgb: Seq<bool>, start: int) -> int
    decreases srgb.len() - start,
{
    if start < 0 || start >= srgb.len() {
        srgb.len() as int
    } else if srgb[start] {
        start
    } else {
        first_srgb(srgb, start + 1)
    }
}

/// Position of the format to configure a surface with: the first that is
/// sRGB, or the first of all where none is.
pub open spec fn preferred_format(srgb: Seq<bool>) -> int {
    if first_srgb(srgb, 0) < srgb.len() {
        first_srgb(srgb, 0)
    } else {
        0
    }
}

/// The preferred format is a position of the list; it is sRGB wherever one of
/// the list is, and then no earlier one is; it is the first where none is.
pub proof fn lemma_preferred_format(srgb: Seq<bool>)
    requires
        srgb.len() > 0,
    ensures
        0 <= preferred_format(srgb) < srgb.len(),
        srgb.contains(true) ==> srgb[preferred_format(srgb)],
        forall|i: int| 0 <= i < preferred_format(srgb) ==> !srgb[i],
        !srgb.contains(true) ==> preferred_format(srgb) == 0,
{
    lemma_first_srgb(srgb, 0);
    if srgb.contains(true) {
        let i = choose|i: int| 0 <= i < srgb.len() && srgb[i];
        assert(first_srgb(srgb, 0) <= i);
    }
}

proof fn lemma_first_srgb(srgb: Seq<bool>, start: int)
    requires
        0 <= start <= srgb.len(),
    ensures
        start <= first_srgb(srgb, start) <= srgb.len(),
        first_srgb(srgb, start) < srgb.len() ==> srgb[first_srgb(srgb, start)],
        forall|i: int| start <= i < first_srgb(srgb, start) ==> !srgb[i],
    decreases srgb.len() - start,
{
    if start < srgb.len() && !srgb[start] {
        lemma_first_srgb(srgb, start + 1);
    }
}

impl App {
    /// The target of a capture context for the given resolution.
    pub open spec fn new_without_window_spec(resolution: [u16; 2]) -> RenderTarget {
        RenderTarget::Offscreen(
            Offscreen {
                texture_size: TextureSize {
                    width: resolution[0] as u32,
                    height: resolution[1] as u32,
                },
                output_buffer_size: (padded_bytes_per_row(resolution[0] as nat)
                    * resolution[1]) as u64,
            },
        )
    }

    /// The layout that `copy_layout` gives.
    pub open spec fn copy_layout_spec(self) -> Option<CopyLayout> {
        match self.target {
            RenderTarget::Offscreen(offscreen) => if padded_bytes_per_row(
                offscreen.texture_size.width as nat,
            ) <= u32::MAX {
                Some(
                    CopyLayout {
                        bytes_per_row: padded_bytes_per_row(
                            offscreen.texture_size.width as nat,
                        ) as u32,
                        rows_per_image: offscreen.texture_size.height,
                    },
                )
            } else {
                None
            },
            RenderTarget::Presentable(_) => None,
        }
    }

    /// The context for capture into an offscreen texture of
    /// `resolution[0]` by `resolution[1]` pixels.
    pub fn new_without_window(speed: u8, resolution: [u16; 2]) -> (app: App)
        ensures
            app.target == Self::new_without_window_spec(resolution),
            padded_bytes_per_row(resolution[0] as nat) * resolution[1] <= u64::MAX,
            app.pipeline.num_indices == 6,
            app.pipeline.common == (Common {
                dimensions: [resolution[1] as u32, resolution[0] as u32],
                time: INITIAL_TIME,
                speed,
            }),
    {
        let texture_size = TextureSize {
            width: resolution[0] as u32,
            height: resolution[1] as u32,
        };
        let padded_bytes_per_row: u32 = Self::calculate_padding(texture_size.width);
        assert(padded_bytes_per_row * texture_size.height <= 0x4_0000 * 0xffff) by (nonlinear_arith)
            requires
                padded_bytes_per_row <= 0x4_0000,
                texture_size.height <= 0xffff,
        ;
        let output_buffer_size: u64 = padded_bytes_per_row as u64 * texture_size.height as u64;
        let pipeline = Pipeline::new([texture_size.height, texture_size.width], speed);
        App {
            target: RenderTarget::Offscreen(Offscreen { texture_size, output_buffer_size }),
            pipeline,
        }
    }

    /// The context for a window of the given size. `srgb` says of each format
    /// that the surface offers, in the surface's order, whether it is sRGB.
    pub fn new_with_window(size: PhysicalSize, speed: u8, srgb: &Vec<bool>) -> (app: App)
        requires
            srgb@.len() > 0,
        ensures
            app.target == RenderTarget::Presentable(
                Surface {
                    surface_config: SurfaceConfiguration {
                        format: preferred_format(srgb@) as usize,
                        width: size.width,
                        height: size.height,
                    },
                    surface_size: size,
                },
            ),
            0 <= preferred_format(srgb@) < srgb@.len(),
            app.pipeline.num_indices == 6,
            app.pipeline.common == (Common {
                dimensions: [size.height, size.width],
                time: INITIAL_TIME,
                speed,
            }),
    {
        let format = Self::select_format(srgb);
        let surface_config = SurfaceConfiguration {
            format,
            width: size.width,
            height: size.height,
        };
        let pipeline = Pipeline::new([size.height, size.width], speed);
        App {
            target: RenderTarget::Presentable(Surface { surface_config, surface_size: size }),
            pipeline,
        }
    }

    /// Position of the first sRGB format, or 0 where there is none.
    pub fn select_format(srgb: &Vec<bool>) -> (format: usize)
        requires
            srgb@.len() > 0,
        ensures
            format == preferred_format(srgb@),
            format < srgb@.len(),
    {
        let mut i: usize = 0;
        while i < srgb.len()
            invariant
                i <= srgb@.len(),
                first_srgb(srgb@, i as int) == first_srgb(srgb@, 0),
            decreases srgb@.len() - i,
        {
            if srgb[i] {
                return i;
            }
            i = i + 1;
        }
        0
    }

    /// Bytes of one row of `size` pixels in a copy buffer: the row, padded to
    /// the next multiple of the row alignment.
    pub fn calculate_padding(size: u32) -> (padded: u32)
        requires
            padded_bytes_per_row(size as nat) <= u32::MAX,
        ensures
            padded == padded_bytes_per_row(size as nat),
    {
        let pixel_size: u32 = BYTES_PER_PIXEL;
        let align: u32 = copy_row_alignment();
        let unpadded_bytes_per_row: u32 = pixel_size * size;
        let padding: u32 = (align - unpadded_bytes_per_row % align) % align;
        unpadded_bytes_per_row + padding
    }

    /// Takes over the window's new size. A size with a zero changes nothing.
    /// Otherwise surface size, configuration and uniform dimensions follow
    /// it, and the result tells the caller to configure the surface and to
    /// upload the uniform block again.
    pub fn resize(&mut self, new_size: PhysicalSize) -> (reconfigure: bool)
        requires
            old(self).target is Presentable,
        ensures
            reconfigure == (new_size.width > 0 && new_size.height > 0),
            !reconfigure ==> *final(self) == *old(self),
            reconfigure ==> final(self).target == RenderTarget::Presentable(
                Surface {
                    surface_config: SurfaceConfiguration {
                        format: old(self).target->Presentable_0.surface_config.format,
                        width: new_size.width,
                        height: new_size.height,
                    },
                    surface_size: new_size,
                },
            ),
            reconfigure ==> final(self).pipeline == (Pipeline {
                common: Common {
                    dimensions: [new_size.height, new_size.width],
                    ..old(self).pipeline.common
                },
                ..old(self).pipeline
            }),
    {
        if new_size.width > 0 && new_size.height > 0 {
            match self.target {
                RenderTarget::Presentable(surface) => {
                    self.target = RenderTarget::Presentable(
                        Surface {
                            surface_config: SurfaceConfiguration {
                                format: surface.surface_config.format,
                                width: new_size.width,
                                height: new_size.height,
                            },
                            surface_size: new_size,
                        },
                    );
                },
                RenderTarget::Offscreen(_) => {},
            }
            self.pipeline.common.update_dimensions([new_size.height, new_size.width]);
            true
        } else {
            false
        }
    }

    /// Advances the animation by one frame. The caller uploads the uniform
    /// block afterwards.
    pub fn update(&mut self)
        requires
            old(self).pipeline.common.can_advance(),
        ensures
            final(self).target == old(self).target,
            final(self).pipeline == (Pipeline {
                common: old(self).pipeline.common.advanced(),
                ..old(self).pipeline
            }),
    {
        self.pipeline.common.update_time();
    }

    /// The render pass of every frame, to a window as to a texture: the
    /// target is cleared to opaque black and the whole index buffer is drawn
    /// once.
    pub fn render_pass(&self) -> (pass: RenderPass)
        ensures
            pass == (RenderPass {
                clear_color: [0u8, 0u8, 0u8, 255u8],
                index_count: self.pipeline.num_indices,
                instance_count: 1,
            }),
    {
        RenderPass {
            clear_color: [0, 0, 0, 255],
            index_count: self.pipeline.num_indices,
            instance_count: 1,
        }
    }

    /// Layout of the copy from the offscreen texture into the staging buffer:
    /// padded rows, one for each row of the texture. `None` for a window's
    /// context and for a row too long for a copy.
    pub fn copy_layout(&self) -> (layout: Option<CopyLayout>)
        ensures
            layout == self.copy_layout_spec(),
    {
        match self.target {
            RenderTarget::Offscreen(offscreen) => {
                let padded: u64 = padded_row_len(offscreen.texture_size.width);
                if padded <= u32::MAX as u64 {
                    Some(
                        CopyLayout {
                            bytes_per_row: padded as u32,
                            rows_per_image: offscreen.texture_size.height,
                        },
                    )
                } else {
                    None
                }
            },
            RenderTarget::Presentable(_) => None,
        }
    }

    /// The frame that a mapped staging buffer holds.
    pub open spec fn frame_of(size: TextureSize, mapped: Seq<u8>) -> Seq<u8> {
        strip_rows(
            mapped,
            unpadded_bytes_per_row(size.width as nat),
            padded_bytes_per_row(size.width as nat),
            size.height as nat,
        )
    }

    /// Whether a mapped staging buffer has the size of one frame's copy.
    pub open spec fn holds_frame(size: TextureSize, mapped: Seq<u8>) -> bool {
        mapped.len() == padded_bytes_per_row(size.width as nat) * size.height
    }

    /// Takes one captured frame out of the mapped staging buffer and appends
    /// it, without its row padding, to `frames`. `mapped` is `None` where the
    /// buffer could not be mapped. On an error `frames` stays as it was.
    pub fn run(&self, mapped: Option<&[u8]>, frames: &mut Vec<Vec<u8>>) -> (result: Result<
        (),
        CaptureError,
    >)
        requires
            self.target is Offscreen,
        ensures
            match mapped {
                None => result == Err::<(), CaptureError>(CaptureError::MapFailed),
                Some(data) => if Self::holds_frame(
                    self.target->Offscreen_0.texture_size,
                    data@,
                ) {
                    result is Ok
                } else {
                    result == Err::<(), CaptureError>(CaptureError::BufferSize)
                },
            },
            result is Err ==> final(frames)@ == old(frames)@,
            result is Ok ==> final(frames)@.len() == old(frames)@.len() + 1,
            result is Ok ==> final(frames)@.subrange(0, old(frames)@.len() as int) == old(
                frames,
            )@,
            result is Ok ==> final(frames)@.last()@ == Self::frame_of(
                self.target->Offscreen_0.texture_size,
                mapped->0@,
            ),
            result is Ok ==> final(frames)@.last()@.len() == 4
                * self.target->Offscreen_0.texture_size.width
                * self.target->Offscreen_0.texture_size.height,
    {
        let texture_size = match self.target {
            RenderTarget::Offscreen(offscreen) => offscreen.texture_size,
            RenderTarget::Presentable(_) => TextureSize { height: 0, width: 0 },
        };
        let data = match mapped {
            Some(data) => data,
            None => {
                return Err(CaptureError::MapFailed);
            },
        };
        let unpadded_bytes_per_row: u64 = BYTES_PER_PIXEL as u64 * texture_size.width as u64;
        let padded_bytes_per_row: u64 = padded_row_len(texture_size.width);
        let len: usize = data.len();
        let expected = padded_bytes_per_row.checked_mul(texture_size.height as u64);
        let fits = match expected {
            Some(expected) => expected == len as u64,
            None => false,
        };
        if !fits {
            return Err(CaptureError::BufferSize);
        }
        if texture_size.height == 0 {
            proof {
                assert(4 * texture_size.width * 0 == 0);
            }
            let frame: Vec<u8> = Vec::new();
            let ghost before = frames@;
            frames.push(frame);
            assert(frames@.subrange(0, before.len() as int) =~= before);
            return Ok(());
        }
        assert(padded_bytes_per_row <= len) by (nonlinear_arith)
            requires
                padded_bytes_per_row * texture_size.height == len,
                texture_size.height >= 1,
                padded_bytes_per_row >= 0,
        ;
        let frame = strip_row_padding(
            data,
            unpadded_bytes_per_row as usize,
            padded_bytes_per_row as usize,
            texture_size.height as usize,
        );
        assert(frame@.len() == 4 * texture_size.width * texture_size.height) by (nonlinear_arith)
            requires
                frame@.len() == texture_size.height * unpadded_bytes_per_row,
                unpadded_bytes_per_row == 4 * texture_size.width,
        ;
        let ghost before = frames@;
        frames.push(frame);
        assert(frames@.subrange(0, before.len() as int) =~= before);
        Ok(())
    }
}

} // verus!
