//! Frame animations for simulated characters.
//!
//! Time is measured in microseconds. An animation advances whole frames for
//! every elapsed frame duration; the `YoYo` style reverses direction at each
//! end, and `LinearWithPause` holds the last frame for a fixed pause before
//! restarting from a chosen frame. The exact effect of [`SpriteAnimation::update`]
//! is pinned by the spec-level transition [`SpriteAnimation::stepped`].

use vstd::prelude::*;
use vstd::arithmetic::div_mod::lemma_fundamental_div_mod_converse;

verus! {

/// Accumulated times saturate here (about 31 years), so additions never
/// overflow.
pub const TIME_CAP: u64 = 1_000_000_000_000_000;

/// Largest time delta a single update step accepts (1000 seconds).
pub const MAX_DELTA: u64 = 1_000_000_000;

/// Largest frame count an animation style admits.
pub const MAX_FRAMES: u64 = 1_000_000;

/// Largest per-frame or pause duration an animation style admits (about 11
/// days).
pub const MAX_FRAME_TIME: u64 = 1_000_000_000_000;

/// Adding a bounded delta to an accumulated time, saturating at [`TIME_CAP`].
pub open spec fn sat_add_time(t: u64, delta: u64) -> u64 {
    if t >= TIME_CAP {
        t
    } else {
        (t + delta) as u64
    }
}

/// Incrementing a counter, saturating at the type's maximum.
pub open spec fn sat_inc(i: u64) -> u64 {
    if i == u64::MAX {
        i
    } else {
        (i + 1) as u64
    }
}

/// The style of an animation: how its frame index evolves with time.
#[derive(Clone, Copy, Debug, PartialEq, Eq, Structural)]
pub enum SpriteAnimationType {
    /// A single still frame.
    Static,
    /// Frames advance in a cycle: 0, 1, ..., frames - 1, 0, ...
    Linear { frames: u64, duration: u64 },
    /// Frames advance in a cycle but the rendered order reverses on each
    /// pass: 0, ..., frames - 1, frames - 1, ..., 0, ...
    YoYo { frames: u64, duration: u64 },
    /// Frames advance once, then the last frame holds for `pause_for`,
    /// then the cycle restarts from `resume_from_frame`.
    LinearWithPause { frames: u64, duration: u64, pause_for: u64, resume_from_frame: u64 },
}

impl SpriteAnimationType {
    /// Bounds every animation style obeys: at least one frame and a positive
    /// frame duration, all within the module's caps.
    pub open spec fn wf(self) -> bool {
        match self {
            SpriteAnimationType::Static => true,
            SpriteAnimationType::Linear { frames, duration } => 1 <= frames <= MAX_FRAMES && 1
                <= duration <= MAX_FRAME_TIME,
            SpriteAnimationType::YoYo { frames, duration } => 1 <= frames <= MAX_FRAMES && 1
                <= duration <= MAX_FRAME_TIME,
            SpriteAnimationType::LinearWithPause { frames, duration, pause_for, resume_from_frame } => 1
                <= frames <= MAX_FRAMES && 1 <= duration <= MAX_FRAME_TIME && pause_for
                <= MAX_FRAME_TIME && resume_from_frame < frames,
        }
    }

    /// The frame count of the style; a still image has none to cycle.
    pub open spec fn spec_max_frame(self) -> u64 {
        match self {
            SpriteAnimationType::Static => 0,
            SpriteAnimationType::Linear { frames, .. } => frames,
            SpriteAnimationType::YoYo { frames, .. } => frames,
            SpriteAnimationType::LinearWithPause { frames, .. } => frames,
        }
    }

    /// Time each frame is shown; irrelevant (and one) for a still image.
    pub open spec fn spec_frame_time(self) -> u64 {
        match self {
            SpriteAnimationType::Static => 1,
            SpriteAnimationType::Linear { duration, .. } => duration,
            SpriteAnimationType::YoYo { duration, .. } => duration,
            SpriteAnimationType::LinearWithPause { duration, .. } => duration,
        }
    }

    pub fn into_animation(self) -> (r: SpriteAnimation)
        requires
            self.wf(),
        ensures
            r == SpriteAnimation::initial(self),
    {
        SpriteAnimation::new(self)
    }

    pub fn max_frame(&self) -> (r: u64)
        ensures
            r == self.spec_max_frame(),
    {
        match self {
            SpriteAnimationType::Static => 0,
            SpriteAnimationType::Linear { frames, .. } => *frames,
            SpriteAnimationType::YoYo { frames, .. } => *frames,
            SpriteAnimationType::LinearWithPause { frames, .. } => *frames,
        }
    }
}

/// A running animation: the style plus the accumulated time, current frame,
/// rendered-order inversion (`YoYo`), pause countdown (`LinearWithPause`)
/// and the number of completed play-throughs.
#[derive(Clone, Copy, Debug)]
pub struct SpriteAnimation {
    pub animation_type: SpriteAnimationType,
    pub duration: u64,
    pub paused_for: Option<u64>,
    pub frame: u64,
    pub invert: bool,
    pub iteration: u64,
    pub max_frame: u64,
}

impl SpriteAnimation {
    /// Internal consistency: the style is well formed, `max_frame` caches the
    /// style's frame count, the frame index is inside the cycle, inversion
    /// and pausing only occur for the styles that use them, and accumulated
    /// time stays below the saturation cap plus one delta.
    pub open spec fn wf(self) -> bool {
        &&& self.animation_type.wf()
        &&& self.max_frame == self.animation_type.spec_max_frame()
        &&& if self.max_frame == 0 {
            self.frame == 0
        } else {
            self.frame < self.max_frame
        }
        &&& self.invert ==> self.animation_type is YoYo
        &&& self.animation_type is Static ==> self.iteration == 0
        &&& self.paused_for is Some ==> self.animation_type is LinearWithPause
        &&& self.duration <= TIME_CAP + MAX_DELTA
        &&& !(self.animation_type is Static) && self.paused_for is None ==> self.duration
            < self.animation_type.spec_frame_time()
        &&& match self.paused_for {
            Some(rem) => match self.animation_type {
                SpriteAnimationType::LinearWithPause { duration, pause_for, .. } => rem <= pause_for
                    && self.duration <= duration + (pause_for - rem),
                _ => false,
            },
            None => true,
        }
    }

    /// The state a fresh animation of the given style starts in.
    pub open spec fn initial(animation_type: SpriteAnimationType) -> SpriteAnimation {
        SpriteAnimation {
            animation_type,
            duration: 0,
            paused_for: None,
            frame: 0,
            invert: false,
            iteration: 0,
            max_frame: animation_type.spec_max_frame(),
        }
    }

    pub fn new(animation_type: SpriteAnimationType) -> (r: SpriteAnimation)
        requires
            animation_type.wf(),
        ensures
            r == Self::initial(animation_type),
            r.wf(),
    {
        let max_frame = animation_type.max_frame();
        SpriteAnimation {
            animation_type,
            duration: 0,
            paused_for: None,
            frame: 0,
            invert: false,
            iteration: 0,
            max_frame,
        }
    }

    /// Whole frames advanced after accumulating `d` microseconds against a
    /// frame time `fd`, and the remainder carried forward.
    pub open spec fn reg_frame(frame: u64, d: u64, fd: u64) -> u64
        recommends
            fd >= 1,
    {
        (frame + d / fd) as u64
    }

    pub open spec fn reg_dur(d: u64, fd: u64) -> u64
        recommends
            fd >= 1,
    {
        (d % fd) as u64
    }

    /// The exact state one update step leaves behind: the mathematical
    /// transition that [`Self::update`] implements.
    pub open spec fn stepped(self, delta: u64) -> SpriteAnimation {
        let d = sat_add_time(self.duration, delta);
        match self.animation_type {
            SpriteAnimationType::Static => SpriteAnimation {
                duration: d,
                frame: 0,
                iteration: 0,
                ..self
            },
            SpriteAnimationType::Linear { frames, duration: fd } => self.stepped_linear(
                d,
                fd,
                frames,
                false,
            ),
            SpriteAnimationType::YoYo { frames, duration: fd } => self.stepped_linear(
                d,
                fd,
                frames,
                true,
            ),
            SpriteAnimationType::LinearWithPause { frames, duration: fd, pause_for, resume_from_frame } => {
                match self.paused_for {
                    Some(rem) => {
                        if rem <= delta {
                            // the pause has run out: restart the cycle
                            SpriteAnimation {
                                duration: 0,
                                paused_for: None,
                                iteration: sat_inc(self.iteration),
                                frame: resume_from_frame,
                                ..self
                            }
                        } else {
                            SpriteAnimation {
                                duration: d,
                                paused_for: Some((rem - delta) as u64),
                                ..self
                            }
                        }
                    },
                    None => {
                        let f = Self::reg_frame(self.frame, d, fd);
                        if f >= frames {
                            // hold the last frame and start the pause
                            SpriteAnimation {
                                duration: Self::reg_dur(d, fd),
                                frame: (frames - 1) as u64,
                                paused_for: Some(pause_for),
                                ..self
                            }
                        } else {
                            SpriteAnimation {
                                duration: Self::reg_dur(d, fd),
                                frame: f,
                                ..self
                            }
                        }
                    },
                }
            },
        }
    }

    /// Shared transition of the `Linear` and `YoYo` styles.
    pub open spec fn stepped_linear(self, d: u64, fd: u64, frames: u64, yoyo: bool) -> SpriteAnimation
        recommends
            fd >= 1,
            frames >= 1,
    {
        let f = Self::reg_frame(self.frame, d, fd);
        if f >= frames {
            SpriteAnimation {
                duration: Self::reg_dur(d, fd),
                frame: (f % frames) as u64,
                iteration: sat_inc(self.iteration),
                invert: if yoyo {
                    !self.invert
                } else {
                    self.invert
                },
                ..self
            }
        } else {
            SpriteAnimation { duration: Self::reg_dur(d, fd), frame: f, ..self }
        }
    }

    /// Advance the animation by `delta` microseconds.
    pub fn update(&mut self, delta: u64)
        requires
            old(self).wf(),
            delta <= MAX_DELTA,
        ensures
            *final(self) == old(self).stepped(delta),
            final(self).wf(),
            final(self).iteration >= old(self).iteration,
    {
        self.duration = if self.duration >= TIME_CAP {
            self.duration
        } else {
            self.duration + delta
        };
        match self.animation_type {
            SpriteAnimationType::Static => {
                self.frame = 0;
                self.iteration = 0;
            },
            SpriteAnimationType::Linear { duration: frame_duration, .. } => {
                self.next_linear(frame_duration, false);
            },
            SpriteAnimationType::YoYo { duration: frame_duration, .. } => {
                self.next_linear(frame_duration, true);
            },
            SpriteAnimationType::LinearWithPause {
                duration: frame_duration,
                pause_for,
                resume_from_frame,
                ..
            } => {
                if let Some(rem) = self.paused_for {
                    if rem <= delta {
                        // the pause has run out: restart the cycle
                        self.paused_for = None;
                        self.duration = 0;
                        self.iteration = if self.iteration == u64::MAX {
                            self.iteration
                        } else {
                            self.iteration + 1
                        };
                        self.frame = resume_from_frame;
                    } else {
                        self.paused_for = Some(rem - delta);
                    }
                } else {
                    self.register_frames(frame_duration);
                    if self.frame >= self.max_frame {
                        // hold the last frame and start the pause
                        self.frame = self.max_frame - 1;
                        self.paused_for = Some(pause_for);
                    }
                }
            },
        }
    }

    /// Consume whole frame durations out of the accumulated time.
    fn register_frames(&mut self, frame_duration: u64)
        requires
            frame_duration >= 1,
            old(self).frame <= MAX_FRAMES,
            old(self).duration <= TIME_CAP + MAX_DELTA,
        ensures
            final(self).frame == Self::reg_frame(old(self).frame, old(self).duration, frame_duration),
            final(self).duration == Self::reg_dur(old(self).duration, frame_duration),
            *final(self) == (SpriteAnimation {
                frame: final(self).frame,
                duration: final(self).duration,
                ..*old(self)
            }),
    {
        let ghost frame0 = self.frame;
        let ghost dur0 = self.duration;
        while self.duration >= frame_duration
            invariant
                frame_duration >= 1,
                dur0 == self.duration + frame_duration * (self.frame - frame0),
                frame0 <= self.frame,
                self.frame - frame0 <= dur0,
                dur0 <= TIME_CAP + MAX_DELTA,
                frame0 <= MAX_FRAMES,
                *self == (SpriteAnimation { frame: self.frame, duration: self.duration, ..*old(self) }),
            decreases self.duration,
        {
            self.duration = self.duration - frame_duration;
            self.frame = self.frame + 1;
            proof {
                assert(frame_duration * (self.frame - frame0) == frame_duration * (self.frame - 1
                    - frame0) + frame_duration) by (nonlinear_arith);
                assert(self.frame - frame0 <= dur0) by (nonlinear_arith)
                    requires
                        frame_duration >= 1,
                        dur0 == self.duration + frame_duration * (self.frame - frame0),
                        self.duration >= 0,
                        self.frame >= frame0,
                ;
            }
        }
        proof {
            lemma_fundamental_div_mod_converse(
                dur0 as int,
                frame_duration as int,
                (self.frame - frame0) as int,
                self.duration as int,
            );
        }
    }

    /// Advance a cyclic animation, counting a completed pass and (for
    /// `YoYo`) reversing the rendered order at each end.
    fn next_linear(&mut self, frame_duration: u64, invert: bool)
        requires
            frame_duration >= 1,
            old(self).frame <= MAX_FRAMES,
            old(self).duration <= TIME_CAP + MAX_DELTA,
            old(self).max_frame >= 1,
        ensures
            ({
                let f = Self::reg_frame(old(self).frame, old(self).duration, frame_duration);
                let d = Self::reg_dur(old(self).duration, frame_duration);
                if f >= old(self).max_frame {
                    *final(self) == SpriteAnimation {
                        duration: d,
                        frame: (f % old(self).max_frame) as u64,
                        iteration: sat_inc(old(self).iteration),
                        invert: if invert {
                            !old(self).invert
                        } else {
                            old(self).invert
                        },
                        ..*old(self)
                    }
                } else {
                    *final(self) == SpriteAnimation { duration: d, frame: f, ..*old(self) }
                }
            }),
    {
        self.register_frames(frame_duration);
        if self.frame >= self.max_frame {
            self.iteration = if self.iteration == u64::MAX {
                self.iteration
            } else {
                self.iteration + 1
            };
            self.frame = self.frame % self.max_frame;
            if invert {
                self.invert = !self.invert;
            }
        }
    }

    /// Reset to the first frame without clearing the play-through count.
    pub fn reset(&mut self)
        ensures
            *final(self) == (SpriteAnimation {
                duration: 0,
                frame: 0,
                invert: false,
                ..*old(self)
            }),
    {
        self.duration = 0;
        self.frame = 0;
        self.invert = false;
    }

    /// The frame to render now, honouring the `YoYo` reversal.
    pub open spec fn spec_frame(self) -> u64 {
        if self.invert {
            (self.max_frame - self.frame - 1) as u64
        } else {
            self.frame
        }
    }

    pub fn frame(&self) -> (r: u64)
        requires
            self.wf(),
        ensures
            r == self.spec_frame(),
            self.max_frame == 0 ==> r == 0,
            self.max_frame >= 1 ==> r < self.max_frame,
    {
        if self.invert {
            self.max_frame - self.frame - 1
        } else {
            self.frame
        }
    }

    /// How many complete play-throughs have finished.
    pub fn iteration(&self) -> (r: u64)
        ensures
            r == self.iteration,
    {
        self.iteration
    }

    /// The number of completed play-throughs, as a spec-level observation.
    pub open spec fn spec_iteration(self) -> u64 {
        self.iteration
    }
}

} // verus!
