//! Launch-time configuration: immutable parameters read once at startup.

use vstd::prelude::*;
use crate::anchor::AnchorSet;

verus! {

/// Pixel offsets between the surface and the screen edges it is anchored to.
#[derive(Clone, Copy, PartialEq, Eq, Structural, Debug)]
pub struct Margin {
    pub top: i32,
    pub right: i32,
    pub bottom: i32,
    pub left: i32,
}

/// Everything the renderer is told at startup. Created once; never mutated.
#[derive(Clone, Debug)]
pub struct PaperConfig {
    /// Bind only the output with this name; `None` takes the first output.
    pub output_name: Option<String>,
    /// Surface width; `None` falls back to the output's logical width.
    pub width: Option<u32>,
    /// Surface height; `None` falls back to the output's logical height.
    pub height: Option<u32>,
    /// Which screen edges the surface is anchored to.
    pub anchor: AnchorSet,
    /// Offsets from the anchored edges.
    pub margin: Margin,
    /// How many pointer positions the trail keeps; always at least one.
    pub pointer_trail_frames: usize,
    /// Optional frame-rate cap; `None` leaves pacing to the compositor alone.
    pub fps: Option<u64>,
    /// Where the fragment shader source is read from.
    pub shader_path: String,
}

impl PaperConfig {
    /// A configuration the session accepts: the trail holds at least one
    /// entry, and a frame-rate cap, where one is set, is nonzero (a cap of
    /// zero frames per second would leave no frame interval to pace by).
    pub open spec fn wf(&self) -> bool {
        &&& self.pointer_trail_frames >= 1
        &&& (self.fps matches Some(f) ==> f >= 1)
    }

    /// Runtime form of `wf`, for callers outside verified code.
    pub fn is_well_formed(&self) -> (r: bool)
        ensures
            r == self.wf(),
    {
        self.pointer_trail_frames >= 1 && match self.fps {
            Some(f) => f >= 1,
            None => true,
        }
    }
}

/// Parameters of the audio capture device, passed through to its open call.
#[derive(Clone, Debug)]
pub struct AudioConfig {
    /// Capture from the device with this name; `None` takes the system default.
    pub device_name: Option<String>,
    /// How many channels are captured and de-interleaved.
    pub channels: usize,
    /// Samples per second and channel.
    pub sample_rate: u32,
    /// Samples per channel in one captured buffer.
    pub buffer_size: u32,
}

impl AudioConfig {
    /// A capture setup the pipeline accepts: at least one channel, a nonzero
    /// buffer, and a nonzero sample rate.
    pub open spec fn wf(&self) -> bool {
        &&& self.channels >= 1
        &&& self.buffer_size >= 1
        &&& self.sample_rate >= 1
    }

    /// Runtime form of `wf`, for callers outside verified code.
    pub fn is_well_formed(&self) -> (r: bool)
        ensures
            r == self.wf(),
    {
        self.channels >= 1 && self.buffer_size >= 1 && self.sample_rate >= 1
    }
}

} // verus!
