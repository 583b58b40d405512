use vstd::prelude::*;

verus! {

/// A displayed value is resampled at most this often, in milliseconds.
pub const READOUT_PERIOD_MS: u64 = 100;

/// A value shown on screen that follows a changing quantity, but is replaced
/// at most once per readout period so that it stays legible.
#[derive(Clone, Copy, Debug)]
pub struct Throttled<T> {
    /// The value currently shown.
    pub value: T,
    /// When `value` was taken, in milliseconds of the caller's clock; `None`
    /// before the first sample.
    pub sampled_at_ms: Option<u64>,
}

impl<T> Throttled<T> {
    /// Whether a sample taken at `now_ms` replaces the shown value. A clock
    /// reading earlier than the last sample counts as no time elapsed.
    pub open spec fn due(self, now_ms: u64) -> bool {
        match self.sampled_at_ms {
            None => true,
            Some(at) => now_ms >= at + READOUT_PERIOD_MS,
        }
    }

    /// Starts with `initial` shown and no sample taken, so the first refresh
    /// replaces it.
    pub fn new(initial: T) -> (r: Throttled<T>)
        ensures
            r.value == initial,
            r.sampled_at_ms is None,
    {
        Throttled { value: initial, sampled_at_ms: None }
    }

    /// Offers the quantity's `current` value at time `now_ms`: it is shown if
    /// a readout period has passed since the last sample, else dropped.
    pub fn refresh(&mut self, now_ms: u64, current: T)
        ensures
            old(self).due(now_ms) ==> final(self).value == current && final(self).sampled_at_ms
                == Some(now_ms),
            !old(self).due(now_ms) ==> *final(self) == *old(self),
    {
        let take = match self.sampled_at_ms {
            None => true,
            Some(at) => now_ms >= at && now_ms - at >= READOUT_PERIOD_MS,
        };
        if take {
            self.value = current;
            self.sampled_at_ms = Some(now_ms);
        }
    }
}

} // verus!
