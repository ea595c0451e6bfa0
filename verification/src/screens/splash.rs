//! The splash screen's picture fades in and out.

use vstd::prelude::*;

verus! {

/// A picture that fades in, stays, and fades out. Times are in nanoseconds.
#[derive(Clone, Copy, Debug, PartialEq, Eq, Structural)]
pub struct ImageNodeFadeInOut {
    /// From the first moment to the last.
    pub total_duration: u64,
    /// How long each of the two fades takes.
    pub fade_duration: u64,
    /// How much time has passed.
    pub t: u64,
}

/// The opacity at time `t`, in thousandths: the share of the fade that has
/// passed while fading in, the share that is left while fading out, full in
/// between, and never more than full. A fade of no duration is over at once.
pub open spec fn alpha_at(total: u64, fade: u64, t: u64) -> int {
    let raw = if t < fade {
        (t * 1000) / (fade as int)
    } else if t + fade > total {
        if fade == 0 || t >= total {
            0
        } else {
            ((total - t) * 1000) / (fade as int)
        }
    } else {
        1000
    };
    if raw > 1000 {
        1000
    } else {
        raw
    }
}

impl ImageNodeFadeInOut {
    /// The opacity now, in thousandths.
    pub fn alpha(&self) -> (r: u32)
        ensures
            r == alpha_at(self.total_duration, self.fade_duration, self.t),
            r <= 1000,
    {
        let t: u128 = self.t as u128;
        let fade: u128 = self.fade_duration as u128;
        let total: u128 = self.total_duration as u128;
        let raw: u128 = if t < fade {
            (t * 1000) / fade
        } else if t + fade > total {
            if fade == 0 || t >= total {
                0
            } else {
                ((total - t) * 1000) / fade
            }
        } else {
            1000
        };
        if raw > 1000 {
            1000
        } else {
            raw as u32
        }
    }

    /// Lets `delta` nanoseconds pass.
    pub fn tick(&mut self, delta: u64)
        ensures
            final(self).total_duration == old(self).total_duration,
            final(self).fade_duration == old(self).fade_duration,
            final(self).t == (if old(self).t + delta > u64::MAX {
                u64::MAX
            } else {
                (old(self).t + delta) as u64
            }),
    {
        self.t = if self.t > u64::MAX - delta {
            u64::MAX
        } else {
            self.t + delta
        };
    }
}

} // verus!
