//! The per-invocation bundle a processing callback works on: the working
//! and scratch frames, the picture extents, the frame position, and the
//! audio lent for this call. Built fresh for one callback and dropped when
//! it returns; nothing in it may outlive the call.

use vstd::prelude::*;
use crate::audio::AudioBuffer;
use crate::frame::{Frame, OwnedFrame};
use crate::geometry::Size;

verus! {

/// Raw bit set describing one processing invocation.
#[derive(Debug, Clone, Copy, PartialEq, Eq, Structural, Hash)]
pub struct ProcInfoFlag(pub i32);

impl ProcInfoFlag {
    /// Whether this set carries any bit of the other set.
    pub fn contains(self, other: Self) -> (r: bool)
        ensures
            r == (self.0 & other.0 != 0),
    {
        self.0 & other.0 != 0
    }
}

/// Everything one processing callback receives. The plugin edits
/// `yc_p_edit`, may use `yc_p_temp` as scratch, and decides which buffer
/// holds the result by swapping them before returning.
pub struct ProcInfo {
    /// This invocation's flags.
    pub flags: ProcInfoFlag,
    /// The working frame: what the host shows when the callback returns.
    pub yc_p_edit: OwnedFrame,
    /// The scratch frame, same extent as the working frame.
    pub yc_p_temp: OwnedFrame,
    /// The editable picture extent.
    pub size: Size,
    /// The largest extent the session allows.
    pub max_size: Size,
    /// The frame being processed.
    pub current_frame: usize,
    /// How many frames the session holds.
    pub total_frames: usize,
    /// The source picture extent.
    pub original_size: Size,
    /// The audio lent for this call.
    pub audio_buffer: AudioBuffer,
}

impl ProcInfo {
    /// A bundle is well formed when both frames match the editable extent
    /// and the audio buffer is consistent.
    pub open spec fn wf(&self) -> bool {
        &&& self.yc_p_edit.wf()
        &&& self.yc_p_temp.wf()
        &&& self.yc_p_edit.dims() == self.size
        &&& self.yc_p_temp.dims() == self.size
        &&& self.audio_buffer.wf()
    }

    /// Exchanges the working and scratch frames, handing the host the
    /// other buffer as the result.
    pub fn swap_buffers(&mut self)
        ensures
            final(self).yc_p_edit == old(self).yc_p_temp,
            final(self).yc_p_temp == old(self).yc_p_edit,
            final(self).flags == old(self).flags,
            final(self).size == old(self).size,
            final(self).max_size == old(self).max_size,
            final(self).current_frame == old(self).current_frame,
            final(self).total_frames == old(self).total_frames,
            final(self).original_size == old(self).original_size,
            final(self).audio_buffer == old(self).audio_buffer,
    {
        core::mem::swap(&mut self.yc_p_edit, &mut self.yc_p_temp);
    }
}

} // verus!
