//! The offline capture run: a fixed number of frames, each rendered after the
//! animation has advanced by one update, read back through the staging
//! buffer and kept without its row padding.
//!
//! The run is a state machine. The caller renders and maps on the device and
//! hands every mapped buffer in; the machine says what is owed next. One
//! frame is in flight at a time, and a frame that cannot be read ends the
//! run: no captured sequence is ever short.

use vstd::prelude::*;
use crate::app::{App, CaptureError, CopyLayout, RenderTarget};
use crate::pipeline::{Common, INITIAL_TIME};

verus! {

/// Frames of one capture run.
pub const FRAME_COUNT: u32 = 59;

/// What the caller of a capture run does next.
#[derive(Clone, Copy, Debug, PartialEq, Eq, Structural)]
pub enum CaptureStep {
    /// Upload the uniform block, render into the offscreen texture, copy it
    /// into the staging buffer, map that buffer and hand it in.
    Render,
    /// All frames are there: encode them.
    Encode,
    /// The run has failed and yields no frames.
    Abort(CaptureError),
}

/// A capture run as contracts see it.
pub struct CaptureState {
    pub app: App,
    pub frames: Seq<Seq<u8>>,
    pub frame_count: nat,
    pub failure: Option<CaptureError>,
}

impl CaptureState {
    /// Bytes of one frame: four for each pixel of the texture.
    pub open spec fn frame_len(self) -> nat
        recommends
            self.app.target is Offscreen,
    {
        (4 * self.app.target->Offscreen_0.texture_size.width
            * self.app.target->Offscreen_0.texture_size.height) as nat
    }

    /// Frames asked for so far: the next one is asked for as soon as the one
    /// before it is there.
    pub open spec fn requested(self) -> nat {
        if self.frames.len() < self.frame_count {
            self.frames.len() + 1
        } else {
            self.frame_count
        }
    }

    /// A run is well formed when it captures offscreen, holds no more frames
    /// than it is to capture, every frame has the size of the texture, and
    /// the animation has advanced once for every frame asked for.
    pub open spec fn wf(self) -> bool {
        &&& self.app.target is Offscreen
        &&& self.frame_count <= u32::MAX
        &&& self.frames.len() <= self.frame_count
        &&& self.failure is Some ==> self.frames.len() < self.frame_count
        &&& forall|i: int|
            0 <= i < self.frames.len() ==> (#[trigger] self.frames[i]).len() == self.frame_len()
        &&& self.app.pipeline.common.time == INITIAL_TIME + self.requested()
            * self.app.pipeline.common.speed
    }

    /// What is owed next.
    pub open spec fn step(self) -> CaptureStep {
        match self.failure {
            Some(error) => CaptureStep::Abort(error),
            None => if self.frames.len() < self.frame_count {
                CaptureStep::Render
            } else {
                CaptureStep::Encode
            },
        }
    }

    /// The run with one more frame, the animation advanced where another
    /// frame is owed after it.
    pub open spec fn with_frame(self, frame: Seq<u8>) -> CaptureState {
        CaptureState {
            app: if self.frames.len() + 1 < self.frame_count {
                App {
                    pipeline: crate::pipeline::Pipeline {
                        common: self.app.pipeline.common.advanced(),
                        ..self.app.pipeline
                    },
                    ..self.app
                }
            } else {
                self.app
            },
            frames: self.frames.push(frame),
            ..self
        }
    }

    /// The run after the staging buffer was mapped, or could not be
    /// (`None`). A run that owes no frame stays as it is.
    pub open spec fn after_mapping(self, mapped: Option<Seq<u8>>) -> CaptureState
        recommends
            self.app.target is Offscreen,
    {
        if self.step() != CaptureStep::Render {
            self
        } else {
            match mapped {
                None => CaptureState { failure: Some(CaptureError::MapFailed), ..self },
                Some(data) => if App::holds_frame(
                    self.app.target->Offscreen_0.texture_size,
                    data,
                ) {
                    self.with_frame(
                        App::frame_of(self.app.target->Offscreen_0.texture_size, data),
                    )
                } else {
                    CaptureState { failure: Some(CaptureError::BufferSize), ..self }
                },
            }
        }
    }
}

/// A run that is ready to be encoded holds exactly the frames it was to
/// capture, each with four bytes for every pixel of the texture, and its
/// animation has advanced once for each of them.
pub proof fn lemma_complete_run(run: CaptureState)
    requires
        run.wf(),
        run.step() == CaptureStep::Encode,
    ensures
        run.frames.len() == run.frame_count,
        forall|i: int|
            0 <= i < run.frames.len() ==> (#[trigger] run.frames[i]).len() == 4
                * run.app.target->Offscreen_0.texture_size.width
                * run.app.target->Offscreen_0.texture_size.height,
        run.app.pipeline.common.time == INITIAL_TIME + run.frame_count
            * run.app.pipeline.common.speed,
{
}

/// A failed run stays failed, and a run never loses a frame.
pub proof fn lemma_mapping_keeps_frames(run: CaptureState, mapped: Option<Seq<u8>>)
    requires
        run.wf(),
    ensures
        run.failure is Some ==> run.after_mapping(mapped) == run,
        run.after_mapping(mapped).frames.len() >= run.frames.len(),
        run.after_mapping(mapped).frames.subrange(0, run.frames.len() as int) == run.frames,
{
    assert(run.after_mapping(mapped).frames.subrange(0, run.frames.len() as int)
        =~= run.frames);
}

/// An offline capture run.
pub struct Capture {
    app: App,
    frames: Vec<Vec<u8>>,
    frame_count: u32,
    failure: Option<CaptureError>,
}

impl View for Capture {
    type V = CaptureState;

    closed spec fn view(&self) -> CaptureState {
        CaptureState {
            app: self.app,
            frames: Seq::new(self.frames@.len(), |i: int| self.frames@[i]@),
            frame_count: self.frame_count as nat,
            failure: self.failure,
        }
    }
}

impl Capture {
    /// A run of `frame_count` frames of `resolution[0]` by `resolution[1]`
    /// pixels. Where a frame is owed, the animation has advanced for it.
    pub fn new(speed: u8, resolution: [u16; 2], frame_count: u32) -> (run: Capture)
        ensures
            run@.wf(),
            run@.frames.len() == 0,
            run@.frame_count == frame_count,
            run@.failure is None,
            run@.app.target == App::new_without_window_spec(resolution),
            run@.app.pipeline.num_indices == 6,
            run@.app.pipeline.common == (Common {
                dimensions: [resolution[1] as u32, resolution[0] as u32],
                time: (INITIAL_TIME + run@.requested() * speed) as u64,
                speed,
            }),
    {
        let mut app = App::new_without_window(speed, resolution);
        if frame_count > 0 {
            app.update();
        }
        let run = Capture { app, frames: Vec::new(), frame_count, failure: None };
        proof {
            assert(run@.requested() * speed == if frame_count > 0 {
                speed as int
            } else {
                0
            }) by (nonlinear_arith)
                requires
                    run@.requested() == if frame_count > 0 {
                        1nat
                    } else {
                        0nat
                    },
            ;
        }
        run
    }

    /// Whether the run is well formed. A run made by `new` and changed by
    /// nothing but its own methods always is.
    pub fn is_well_formed(&self) -> (ok: bool)
        ensures
            ok == self@.wf(),
    {
        let size = match self.app.target {
            RenderTarget::Offscreen(offscreen) => offscreen.texture_size,
            RenderTarget::Presentable(_) => {
                return false;
            },
        };
        let count: usize = self.frame_count as usize;
        if self.frames.len() > count || (self.failure.is_some() && self.frames.len() >= count) {
            return false;
        }
        let requested: u64 = if self.frames.len() < count {
            self.frames.len() as u64 + 1
        } else {
            self.frame_count as u64
        };
        let speed: u64 = self.app.pipeline.common.speed as u64;
        assert(requested * speed <= 0x1_0000_0000 * 255) by (nonlinear_arith)
            requires
                requested <= 0x1_0000_0000,
                speed <= 255,
        ;
        if self.app.pipeline.common.time != INITIAL_TIME + requested * speed {
            return false;
        }
        assert(4 * size.width * size.height <= 4 * 0xffff_ffff * 0xffff_ffff) by (nonlinear_arith)
            requires
                size.width <= 0xffff_ffff,
                size.height <= 0xffff_ffff,
        ;
        assert(0 <= 4 * size.width * size.height) by (nonlinear_arith);
        let frame_len: u128 = 4 * (size.width as u128) * (size.height as u128);
        let mut i: usize = 0;
        while i < self.frames.len()
            invariant
                i <= self.frames@.len(),
                frame_len == self@.frame_len(),
                forall|j: int| 0 <= j < i ==> (#[trigger] self@.frames[j]).len() == frame_len,
            decreases self.frames@.len() - i,
        {
            if self.frames[i].len() as u128 != frame_len {
                assert(self@.frames[i as int].len() != self@.frame_len());
                return false;
            }
            i = i + 1;
        }
        true
    }

    /// What the caller does next.
    pub fn step(&self) -> (step: CaptureStep)
        ensures
            step == self@.step(),
    {
        match self.failure {
            Some(error) => CaptureStep::Abort(error),
            None => if self.frames.len() < self.frame_count as usize {
                CaptureStep::Render
            } else {
                CaptureStep::Encode
            },
        }
    }

    /// Takes the mapped staging buffer of the frame that is owed, or `None`
    /// where mapping failed, and says what is owed next. A frame is kept
    /// without its row padding; a buffer that is missing or of the wrong
    /// size fails the run; a run that owes no frame stays as it is.
    pub fn frame_mapped(&mut self, mapped: Option<&[u8]>) -> (step: CaptureStep)
        requires
            old(self)@.wf(),
        ensures
            final(self)@.wf(),
            final(self)@ == old(self)@.after_mapping(
                match mapped {
                    Some(data) => Some(data@),
                    None => None,
                },
            ),
            step == final(self)@.step(),
    {
        let ghost before = self@;
        let ghost input = match mapped {
            Some(data) => Some(data@),
            None => None,
        };
        if self.failure.is_some() || self.frames.len() >= self.frame_count as usize {
            return self.step();
        }
        match self.app.run(mapped, &mut self.frames) {
            Ok(()) => {
                let ghost frame = self.frames@.last()@;
                if self.frames.len() < self.frame_count as usize {
                    proof {
                        let speed = self.app.pipeline.common.speed;
                        assert(self.frames@.len() * speed <= 0xffff_ffff * 255)
                            by (nonlinear_arith)
                            requires
                                self.frames@.len() <= 0xffff_ffff,
                                speed <= 255,
                        ;
                        assert((self.frames@.len() + 1) * speed == self.frames@.len() * speed
                            + speed) by (nonlinear_arith);
                    }
                    self.app.update();
                }
                proof {
                    assert(self@.frames =~= before.frames.push(frame));
                    assert(self@ == before.with_frame(frame));
                    let speed = self.app.pipeline.common.speed;
                    assert((before.frames.len() + 1 + 1) * speed == (before.frames.len() + 1)
                        * speed + speed) by (nonlinear_arith);
                }
            },
            Err(error) => {
                self.failure = Some(error);
                proof {
                    assert(self@.frames =~= before.frames);
                }
            },
        }
        self.step()
    }

    /// The uniform block to upload before the frame that is owed.
    pub fn common(&self) -> (common: Common)
        ensures
            common == self@.app.pipeline.common,
    {
        self.app.pipeline.common
    }

    /// The render context of the run.
    pub fn app(&self) -> (app: App)
        ensures
            app == self@.app,
    {
        self.app
    }

    /// Layout of the copy into the staging buffer.
    pub fn copy_layout(&self) -> (layout: Option<CopyLayout>)
        ensures
            layout == self@.app.copy_layout_spec(),
    {
        self.app.copy_layout()
    }

    /// Number of frames captured so far.
    pub fn captured(&self) -> (n: usize)
        ensures
            n == self@.frames.len(),
    {
        self.frames.len()
    }

    /// The captured frames, in the order in which they were rendered, where
    /// the run is complete; `None` while frames are owed and after a failure.
    pub fn into_frames(self) -> (frames: Option<Vec<Vec<u8>>>)
        requires
            self@.wf(),
        ensures
            frames is Some <==> self@.step() == CaptureStep::Encode,
            frames matches Some(list) ==> {
                &&& list@.len() == self@.frame_count
                &&& list@.len() == self@.frames.len()
                &&& forall|i: int|
                    0 <= i < list@.len() ==> (#[trigger] list@[i])@ == self@.frames[i]
                &&& forall|i: int|
                    0 <= i < list@.len() ==> (#[trigger] list@[i])@.len() == self@.frame_len()
            },
    {
        match self.step() {
            CaptureStep::Encode => {
                proof {
                    assert forall|i: int| 0 <= i < self.frames@.len() implies (
                    #[trigger] self.frames@[i])@.len() == self@.frame_len() by {
                        assert(self@.frames[i] == self.frames@[i]@);
                    }
                }
                Some(self.frames)
            },
            _ => None,
        }
    }
}

} // verus!
