//! Pose buffers: per-channel fixed-point snapshots.
//!
//! A pose is a finite vector of raw channel values; conceptually it extends
//! with zero channels forever, so the neutral pose is the empty vector and
//! two poses blend channel by channel whatever their stored lengths.

use vstd::prelude::*;

use crate::fixed::{sat64, scale_spec, sat_add, scale};

verus! {

/// Channel `i` of a stored channel vector, zero beyond its length.
pub open spec fn chan(s: Seq<i64>, i: int) -> int {
    if 0 <= i < s.len() {
        s[i] as int
    } else {
        0
    }
}

/// A per-channel snapshot, as produced by sampling a clip or by blending
/// child poses.
#[derive(Debug)]
pub struct Pose {
    pub channels: Vec<i64>,
}

impl Pose {
    /// Channel `i` of this pose, zero beyond the stored channels.
    pub open spec fn spec_chan(self, i: int) -> int {
        chan(self.channels@, i)
    }

    /// The neutral pose: every channel is zero.
    pub fn neutral() -> (p: Pose)
        ensures
            p.channels@.len() == 0,
    {
        Pose { channels: Vec::new() }
    }

    /// A pose over the given raw channel values.
    pub fn from_channels(channels: Vec<i64>) -> (p: Pose)
        ensures
            p.channels@ == channels@,
    {
        Pose { channels }
    }

    /// Number of stored channels.
    pub fn channel_count(&self) -> (n: usize)
        ensures
            n == self.channels@.len(),
    {
        self.channels.len()
    }

    /// Reads channel `i`, zero beyond the stored channels.
    pub fn channel(&self, i: usize) -> (r: i64)
        ensures
            r as int == self.spec_chan(i as int),
    {
        if i < self.channels.len() {
            self.channels[i]
        } else {
            0
        }
    }

    /// Resets this pose to the neutral pose.
    pub fn reset(&mut self)
        ensures
            final(self).channels@.len() == 0,
    {
        self.channels.clear();
    }

    /// Overwrites this pose with a copy of `other`.
    pub fn copy_from(&mut self, other: &Pose)
        ensures
            final(self).channels@ == other.channels@,
    {
        let channels = other.channels.clone();
        proof {
            assert(channels@ =~= other.channels@);
        }
        self.channels = channels;
    }

    /// An owned copy of this pose.
    pub fn duplicate(&self) -> (p: Pose)
        ensures
            p.channels@ == self.channels@,
    {
        let channels = self.channels.clone();
        proof {
            assert(channels@ =~= self.channels@);
        }
        Pose { channels }
    }

    /// Accumulates `other` at weight `w`: channel by channel, the weighted
    /// value of `other` is added, with saturation, to this pose. Channels
    /// past both stored lengths stay zero.
    #[verifier::loop_isolation(false)]
    pub fn blend_with(&mut self, other: &Pose, w: i64)
        ensures
            final(self).channels@.len() == if old(self).channels@.len() >= other.channels@.len() {
                old(self).channels@.len()
            } else {
                other.channels@.len()
            },
            forall|i: int|
                final(self).spec_chan(i) == sat64(
                    old(self).spec_chan(i) + scale_spec(other.spec_chan(i), w as int),
                ),
    {
        let here = self.channels.len();
        let there = other.channels.len();
        let target = if here >= there {
            here
        } else {
            there
        };
        let mut blended: Vec<i64> = Vec::new();
        let mut j: usize = 0;
        while j < target
            invariant
                here == self.channels@.len(),
                there == other.channels@.len(),
                target == if here >= there {
                    here as int
                } else {
                    there as int
                },
                j == blended@.len(),
                j <= target,
                forall|i: int|
                    0 <= i < j ==> #[trigger] blended@[i] as int == sat64(
                        self.spec_chan(i) + scale_spec(other.spec_chan(i), w as int),
                    ),
            decreases target - j,
        {
            let base = if j < here {
                self.channels[j]
            } else {
                0
            };
            let contribution = if j < there {
                scale(other.channels[j], w)
            } else {
                proof {
                    crate::fixed::lemma_scale_of_zero(w as int);
                }
                0
            };
            blended.push(sat_add(base, contribution));
            j += 1;
        }
        self.channels = blended;
        proof {
            assert forall|i: int| #![auto]
                self.spec_chan(i) == sat64(
                    old(self).spec_chan(i) + scale_spec(other.spec_chan(i), w as int),
                ) by {
                if i < 0 || i >= target {
                    crate::fixed::lemma_scale_of_zero(w as int);
                }
            }
        }
    }
}

} // verus!
