//! Frame timing against the system clock.

use vstd::prelude::*;

verus! {

/// Relies on std::time::SystemTime::now, read as microseconds since the
/// epoch. The clock can move backwards, so nothing is promised about the
/// value; a clock before the epoch reads as zero.
#[verifier::external_body]
fn now_micros() -> u64 {
    match std::time::SystemTime::now().duration_since(std::time::UNIX_EPOCH) {
        Ok(d) => d.as_micros() as u64,
        Err(_) => 0,
    }
}

/// Tracks the wall-clock time of the last frame.
#[derive(Debug, Copy, Clone)]
pub struct FrameRate {
    pub t0: u64,
}

impl FrameRate {
    pub fn new() -> FrameRate {
        FrameRate { t0: now_micros() }
    }

    /// Register the start of a new frame and return the microseconds since
    /// the previous one; an error when the clock moved backwards.
    pub fn update(&mut self) -> (r: Result<u64, String>)
        ensures
            r matches Ok(d) ==> final(self).t0 == old(self).t0 + d,
            r is Err ==> *final(self) == *old(self),
    {
        let now = now_micros();
        if now < self.t0 {
            return Err(String::from_str("the system clock moved backwards"));
        }
        let delta = now - self.t0;
        self.t0 = now;
        Ok(delta)
    }
}

} // verus!
