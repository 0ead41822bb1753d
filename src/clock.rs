use vstd::prelude::*;

verus! {

/// Relies on time::precise_time_ns: a reading, in nanoseconds, of a high-resolution
/// counter since an unspecified epoch. Nothing is known of the value.
#[verifier::external_body]
pub(crate) fn now_ns() -> (r: u64) {
    time::precise_time_ns()
}

/// Remembers when the last update happened and measures the time since.
#[derive(Clone, Copy, Debug)]
pub struct UpdateClock {
    last: u64,
}

impl UpdateClock {
    /// The reading of the last update.
    pub closed spec fn last(self) -> u64 {
        self.last
    }

    /// A clock whose last update was at `now`.
    pub fn starting_at(now: u64) -> (r: UpdateClock)
        ensures
            r.last() == now,
    {
        UpdateClock { last: now }
    }

    /// A clock whose last update is now.
    pub fn start() -> (r: UpdateClock) {
        UpdateClock { last: now_ns() }
    }

    /// The nanoseconds from the last update to `now`, which becomes the last update.
    /// A reading behind the last one counts as no time at all.
    pub fn elapsed_to(&mut self, now: u64) -> (r: u64)
        ensures
            r == (if now >= old(self).last() { now - old(self).last() } else { 0 }),
            final(self).last() == now,
    {
        let d = if now >= self.last { now - self.last } else { 0 };
        self.last = now;
        d
    }

    /// The nanoseconds since the last update, read from the system clock; now becomes the
    /// last update.
    pub fn tick(&mut self) -> (r: u64)
        ensures
            r == (if final(self).last() >= old(self).last() {
                final(self).last() - old(self).last()
            } else {
                0
            }),
    {
        let now = now_ns();
        self.elapsed_to(now)
    }
}

} // verus!
