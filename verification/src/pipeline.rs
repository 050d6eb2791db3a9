//! Host-side state of the render pipeline: the uniform block that the shader
//! reads and the number of indices of the draw call.
//!
//! Time is counted in whole steps of 1/2000 of a second, so that advancing it
//! is exact: one update adds `speed` steps.

use vstd::prelude::*;
use crate::vertex::num_indices;

verus! {

/// Steps of animation time in one second.
pub const STEPS_PER_SECOND: u64 = 2000;

/// Animation time of a new uniform block, in steps: one second.
pub const INITIAL_TIME: u64 = 2000;

/// The values handed to the shader with every frame.
#[derive(Copy, Clone, Debug)]
pub struct Common {
    /// Size of the render target as `[height, width]`, in pixels.
    pub dimensions: [u32; 2],
    /// Elapsed animation time, in steps of `1 / STEPS_PER_SECOND` seconds.
    pub time: u64,
    /// Steps added by one update.
    pub speed: u8,
}

impl Common {
    /// Whether one more update keeps the time within its type.
    pub open spec fn can_advance(self) -> bool {
        self.time + self.speed <= u64::MAX
    }

    /// The block after one update of the time.
    pub open spec fn advanced(self) -> Common {
        Common { time: (self.time + self.speed) as u64, ..self }
    }

    /// The block after `updates` updates of the time.
    pub open spec fn advanced_by(self, updates: nat) -> Common
        decreases updates,
    {
        if updates == 0 {
            self
        } else {
            self.advanced_by((updates - 1) as nat).advanced()
        }
    }

    /// A block for a target of the given dimensions, at the initial time.
    pub fn new(dims: [u32; 2], speed: u8) -> (common: Common)
        ensures
            common == (Common { dimensions: dims, time: INITIAL_TIME, speed }),
    {
        Common { dimensions: dims, time: INITIAL_TIME, speed }
    }

    /// Whether `update_time` may be called.
    pub fn has_time_left(&self) -> (left: bool)
        ensures
            left == self.can_advance(),
    {
        self.time <= u64::MAX - self.speed as u64
    }

    /// Advances the time by `speed` steps and leaves the rest as it is.
    pub fn update_time(&mut self)
        requires
            old(self).can_advance(),
        ensures
            *final(self) == old(self).advanced(),
            final(self).time == old(self).time + old(self).speed,
            final(self).time >= old(self).time,
    {
        self.time = self.time + self.speed as u64;
    }

    /// Replaces the dimensions and leaves time and speed as they are.
    pub fn update_dimensions(&mut self, new_dimensions: [u32; 2])
        ensures
            *final(self) == (Common { dimensions: new_dimensions, ..*old(self) }),
    {
        self.dimensions = new_dimensions;
    }
}

/// Time is additive: `updates` updates add `updates * speed` steps, whatever
/// happens between them, and change neither speed nor dimensions.
pub proof fn lemma_time_after_updates(common: Common, updates: nat)
    requires
        common.time + updates * common.speed <= u64::MAX,
    ensures
        common.advanced_by(updates).time == common.time + updates * common.speed,
        common.advanced_by(updates).speed == common.speed,
        common.advanced_by(updates).dimensions == common.dimensions,
    decreases updates,
{
    if updates == 0 {
        assert(0 * common.speed == 0) by (nonlinear_arith);
    } else {
        let before = (updates - 1) as nat;
        assert(before * common.speed + common.speed == updates * common.speed && 0 <= before
            * common.speed) by (nonlinear_arith)
            requires
                before + 1 == updates,
        ;
        lemma_time_after_updates(common, before);
    }
}

/// Updates compose: `first` updates followed by `second` updates are
/// `first + second` updates.
pub proof fn lemma_updates_compose(common: Common, first: nat, second: nat)
    ensures
        common.advanced_by(first).advanced_by(second) == common.advanced_by(first + second),
    decreases second,
{
    if second > 0 {
        lemma_updates_compose(common, first, (second - 1) as nat);
        assert((first + second - 1) as nat == first + (second - 1) as nat);
    }
}

/// What the host keeps of the pipeline: the draw call's index count and the
/// uniform block.
#[derive(Copy, Clone, Debug)]
pub struct Pipeline {
    /// Number of indices of the one indexed draw.
    pub num_indices: u32,
    /// The uniform block as last written by the host.
    pub common: Common,
}

impl Pipeline {
    /// The pipeline state for a target of the given dimensions.
    pub fn new(texture_dimensions: [u32; 2], speed: u8) -> (pipeline: Pipeline)
        ensures
            pipeline.num_indices == 6,
            pipeline.common == (Common {
                dimensions: texture_dimensions,
                time: INITIAL_TIME,
                speed,
            }),
    {
        Pipeline { num_indices: num_indices(), common: Common::new(texture_dimensions, speed) }
    }
}

} // verus!
