//! The pausable clock: a monotonic elapsed-time source whose advancement
//! can be suspended and resumed without resetting its origin.
//!
//! The clock itself holds no notion of "now": every operation takes the
//! host clock's current reading in milliseconds, which the runtime keeps
//! monotone. While paused, the elapsed time is frozen at the value it had
//! when the pause began; resuming shifts the origin forward by exactly
//! the time spent paused, so the paused span never counts.

use vstd::prelude::*;

verus! {

/// A pausable elapsed-time source over host-clock readings in
/// milliseconds.
#[derive(Clone, Copy, Debug)]
pub struct PausableClock {
    /// The host-clock reading the elapsed time is measured from: the
    /// reading at the last restart, shifted forward by every paused span.
    pub origin: u64,
    /// While paused, the host-clock reading at which the pause began.
    pub paused_at: Option<u64>,
}

impl PausableClock {
    /// The origin never lies after the pause point.
    pub open spec fn well_formed(self) -> bool {
        match self.paused_at {
            Some(p) => self.origin <= p,
            None => true,
        }
    }

    /// Whether the clock is currently paused.
    pub open spec fn spec_is_paused(self) -> bool {
        self.paused_at is Some
    }

    /// The elapsed milliseconds at host-clock reading `now`: frozen at
    /// the pause point while paused, `now - origin` otherwise.
    pub open spec fn spec_elapsed(self, now: u64) -> int {
        match self.paused_at {
            Some(p) => p - self.origin,
            None => now - self.origin,
        }
    }

    /// Starts a fresh, unpaused clock whose elapsed time at `now` is zero.
    pub fn start(now: u64) -> (r: PausableClock)
        ensures
            r == (PausableClock { origin: now, paused_at: None }),
            r.well_formed(),
            !r.spec_is_paused(),
            r.spec_elapsed(now) == 0,
    {
        PausableClock { origin: now, paused_at: None }
    }

    /// Pauses the clock at `now`; pausing an already paused clock changes
    /// nothing. The elapsed time read at or after `now` is frozen at its
    /// current value.
    pub fn pause(&mut self, now: u64)
        requires
            old(self).well_formed(),
            now >= old(self).origin,
        ensures
            final(self).well_formed(),
            final(self).spec_is_paused(),
            old(self).spec_is_paused() ==> *final(self) == *old(self),
            !old(self).spec_is_paused() ==> *final(self) == (PausableClock {
                origin: old(self).origin,
                paused_at: Some(now),
            }),
            final(self).spec_elapsed(now) == old(self).spec_elapsed(now),
    {
        if self.paused_at.is_none() {
            self.paused_at = Some(now);
        }
    }

    /// Resumes the clock at `now`; resuming an unpaused clock changes
    /// nothing. The span spent paused is added to the origin, so the
    /// elapsed time continues from where the pause froze it.
    pub fn resume(&mut self, now: u64)
        requires
            old(self).well_formed(),
            old(self).spec_is_paused() ==> now >= old(self).paused_at.unwrap(),
        ensures
            final(self).well_formed(),
            !final(self).spec_is_paused(),
            !old(self).spec_is_paused() ==> *final(self) == *old(self),
            final(self).spec_elapsed(now) == old(self).spec_elapsed(now),
    {
        match self.paused_at {
            Some(p) => {
                self.origin = self.origin + (now - p);
                self.paused_at = None;
            },
            None => {},
        }
    }

    /// Reads the elapsed milliseconds at host-clock reading `now`.
    pub fn elapsed_millis(&self, now: u64) -> (r: u64)
        requires
            self.well_formed(),
            !self.spec_is_paused() ==> now >= self.origin,
        ensures
            r == self.spec_elapsed(now),
    {
        match self.paused_at {
            Some(p) => p - self.origin,
            None => now - self.origin,
        }
    }
}

/// Relies on `std::time::SystemTime::now`: the host clock's reading in
/// milliseconds since the Unix epoch (zero if the clock reads earlier
/// than the epoch). Readings can step backwards; the runtime clamps them
/// to keep its own notion of time monotone.
#[verifier::external_body]
pub(crate) fn host_now_millis() -> u64 {
    match std::time::SystemTime::now().duration_since(std::time::UNIX_EPOCH) {
        Ok(d) => d.as_millis() as u64,
        Err(_) => 0,
    }
}

/// Elapsed time does not advance between a pause and the matching resume:
/// pausing an unpaused clock at `tp` freezes the elapsed time at every
/// later reading, and resuming at any `tr` hands back a clock whose
/// elapsed time at `tr` still equals the elapsed time at the pause.
pub proof fn lemma_pause_resume_freezes(c: PausableClock, tp: u64, tr: u64, t: u64)
    requires
        c.well_formed(),
        !c.spec_is_paused(),
        c.origin <= tp <= tr,
        tp <= t,
    ensures
        ({
            let paused = PausableClock { origin: c.origin, paused_at: Some(tp) };
            let resumed = PausableClock {
                origin: (c.origin + (tr - tp)) as u64,
                paused_at: None,
            };
            &&& paused.spec_elapsed(t) == c.spec_elapsed(tp)
            &&& resumed.spec_elapsed(tr) == c.spec_elapsed(tp)
        }),
{
}

} // verus!
