//! The clip source: the machine's read-only view of sampled animation clips.
//!
//! Each clip is addressed by a stable handle and exposes its current
//! sampled pose. The machine only reads these poses; advancing clip
//! playback is the owning application's business. A handle that does not
//! resolve samples as the neutral pose.

use vstd::prelude::*;

use crate::pool::{Handle, Pool};
use crate::pose::{chan, Pose};

verus! {

/// A pool of clips, each holding its current sampled pose.
pub struct ClipSource {
    pub clips: Pool<Pose>,
}

impl ClipSource {
    /// Channel `i` of the current pose of clip `h`; zero when `h` does not
    /// resolve.
    pub open spec fn spec_clip_chan(self, h: Handle, i: int) -> int {
        if self.clips.valid(h) {
            chan(self.clips.payload_at(h.index as int).channels@, i)
        } else {
            0
        }
    }

    /// Stored channel count of the current pose of clip `h`; zero when
    /// `h` does not resolve.
    pub open spec fn spec_clip_len(self, h: Handle) -> int {
        if self.clips.valid(h) {
            self.clips.payload_at(h.index as int).channels@.len() as int
        } else {
            0
        }
    }

    /// A clip source with no clips.
    pub fn new() -> (c: ClipSource)
        ensures
            c.clips.slots@.len() == 0,
    {
        ClipSource { clips: Pool::new() }
    }

    /// Registers a clip with its initial sampled pose and returns its
    /// handle.
    pub fn add_clip(&mut self, pose: Pose) -> (h: Handle)
        requires
            old(self).clips.slots@.len() < u32::MAX as usize,
        ensures
            final(self).clips.spec_resolve(h) == Some(pose),
            forall|i: int| final(self).spec_clip_chan(h, i) == chan(pose.channels@, i),
            match old(self).clips.spec_first_free_from(0) {
                Some(k) => final(self).clips.slots@ == old(self).clips.slots@.update(
                    k,
                    (crate::pool::Slot {
                        generation: (old(self).clips.gen_at(k) + 1) as u32,
                        payload: Some(pose),
                    }),
                ),
                None => final(self).clips.slots@ == old(self).clips.slots@.push(
                    (crate::pool::Slot { generation: 1u32, payload: Some(pose) }),
                ),
            },
    {
        let h = self.clips.spawn(pose);
        h
    }

    /// Overwrites the current sampled pose of clip `h`; returns whether
    /// the handle resolved.
    pub fn set_clip_pose(&mut self, h: Handle, pose: Pose) -> (r: bool)
        ensures
            r == old(self).clips.valid(h),
            if old(self).clips.valid(h) {
                final(self).clips.slots@ == old(self).clips.slots@.update(
                    h.index as int,
                    (crate::pool::Slot { generation: h.generation, payload: Some(pose) }),
                )
            } else {
                final(self).clips.slots@ == old(self).clips.slots@
            },
    {
        let resolves = self.clips.try_borrow(h).is_some();
        if !resolves {
            return false;
        }
        let entry = self.clips.at_mut(h.index as usize);
        *entry = pose;
        true
    }

    /// Borrows the current sampled pose of clip `h`.
    pub fn sample(&self, h: Handle) -> (r: Option<&Pose>)
        ensures
            match r {
                Some(p) => self.clips.valid(h) && *p == self.clips.payload_at(h.index as int),
                None => !self.clips.valid(h),
            },
    {
        self.clips.try_borrow(h)
    }
}

} // verus!
