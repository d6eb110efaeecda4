//! The runtime's decision core: a pure state machine over plain values.
//!
//! Everything the rendering runtime decides — frame-lifecycle ordering,
//! pause and resume, cursor and mouse tracking, per-frame uniform values,
//! pending captures — lives here, with no GPU handle in sight. The GPU
//! shell around it performs the backend work an operation calls for and
//! feeds back plain values (host-clock readings, acquisition outcomes).

use crate::clock::PausableClock;
use crate::uniform::{PixelPos, UniformState};
use crate::viewport::Viewport;
use vstd::prelude::*;

verus! {

/// The ceiling on the elapsed time fed to the uniform block; beyond it
/// (about thirty-five thousand years) the clock value saturates.
pub const TIME_MILLIS_CAP: u64 = 0x3_ffff_ffff_ffff;

/// Why a runtime operation was refused. Lifecycle variants indicate a
/// caller bug (an operation out of order); the others report backend
/// failures and leave the runtime in a consistent state.
#[derive(Clone, Copy, Debug, PartialEq, Eq, Structural)]
pub enum RuntimeError {
    /// `frame_start` was called while a frame was already active.
    FrameInProgress,
    /// `render` or `frame_finish` was called with no active frame.
    NoActiveFrame,
    /// The backend could not provide a drawable surface target.
    SurfaceUnavailable,
    /// The capture read-back's buffer mapping did not complete.
    BufferMapFailed,
    /// A capture was requested on a region the surface cannot supply:
    /// outside the surface, or too wide for the backend's row stride.
    CaptureTooLarge,
    /// The backend rejected the composed shader, the pipeline, or another
    /// resource while rebuilding; the previous resources remain in use.
    PipelineRejected,
}

/// The frame lifecycle, pause flag, clock, uniform values and pending
/// capture of a runtime: its full decision state, GPU-free.
pub struct RuntimeState {
    /// Whether a frame is active (between frame-start and frame-finish).
    pub frame_active: bool,
    /// Whether the runtime is paused.
    pub is_paused: bool,
    /// The pausable elapsed-time source.
    pub clock: PausableClock,
    /// The latest host-clock reading seen; readings are clamped to keep
    /// time monotone even if the host clock steps backwards.
    pub last_now: u64,
    /// The per-frame uniform values.
    pub uniform: UniformState,
    /// The surface width in pixels.
    pub width: u32,
    /// The surface height in pixels.
    pub height: u32,
    /// Whether the presentation surface currently holds a configuration
    /// matching `width` and `height`. Configuration is deferred while a
    /// frame is active or a dimension is zero (the backend accepts
    /// neither), and caught up at the next frame start.
    pub surface_configured: bool,
    /// The viewport rendering is restricted to, if any.
    pub viewport: Option<Viewport>,
    /// The viewport of a requested, not yet drained, capture.
    pub pending_capture: Option<Viewport>,
}

impl RuntimeState {
    /// The machine's invariant: the clock is well formed, never ahead of
    /// the last host reading, agrees with the pause flag, and the uniform
    /// values stay within the byte encoding's bounds.
    pub open spec fn wf(self) -> bool {
        &&& self.clock.well_formed()
        &&& self.clock.origin <= self.last_now
        &&& (self.clock.paused_at matches Some(p) ==> p <= self.last_now)
        &&& self.is_paused == self.clock.spec_is_paused()
        &&& self.uniform.bounded()
    }

    /// A fresh, unpaused machine at host reading `now`: zero elapsed
    /// time, zero uniform values, no active frame, no pending capture.
    pub fn new(now: u64, viewport: Option<Viewport>) -> (r: RuntimeState)
        ensures
            r.wf(),
            !r.frame_active,
            !r.is_paused,
            r.clock.spec_elapsed(now) == 0,
            r.uniform == UniformState::spec_zero(),
            r.viewport == viewport,
            r.pending_capture is None,
            r.last_now == now,
            r.width == 0,
            r.height == 0,
            !r.surface_configured,
    {
        RuntimeState {
            frame_active: false,
            is_paused: false,
            clock: PausableClock::start(now),
            last_now: now,
            uniform: UniformState::new(),
            width: 0,
            height: 0,
            surface_configured: false,
            viewport,
            pending_capture: None,
        }
    }

    /// Takes a raw host-clock reading and returns a monotone one: the
    /// maximum of the reading and every reading seen before.
    pub fn note_now(&mut self, raw: u64) -> (now: u64)
        requires
            old(self).wf(),
        ensures
            final(self).wf(),
            now == final(self).last_now,
            now >= old(self).last_now,
            now == (if raw > old(self).last_now {
                raw
            } else {
                old(self).last_now
            }),
            *final(self) == (RuntimeState { last_now: now, ..*old(self) }),
    {
        if raw > self.last_now {
            self.last_now = raw;
        }
        self.last_now
    }

    /// Begins a frame: fails with `FrameInProgress`, changing nothing, if
    /// one is already active.
    pub fn begin_frame(&mut self) -> (r: Result<(), RuntimeError>)
        requires
            old(self).wf(),
        ensures
            final(self).wf(),
            old(self).frame_active ==> r == Err::<(), RuntimeError>(
                RuntimeError::FrameInProgress,
            ) && *final(self) == *old(self),
            !old(self).frame_active ==> r == Ok::<(), RuntimeError>(()) && *final(self) == (
            RuntimeState { frame_active: true, ..*old(self) }),
    {
        if self.frame_active {
            Err(RuntimeError::FrameInProgress)
        } else {
            self.frame_active = true;
            Ok(())
        }
    }

    /// Finishes the active frame, returning to idle and draining the
    /// pending capture request, if any; fails with `NoActiveFrame`,
    /// changing nothing, if no frame is active.
    pub fn finish_frame(&mut self) -> (r: Result<Option<Viewport>, RuntimeError>)
        requires
            old(self).wf(),
        ensures
            final(self).wf(),
            !old(self).frame_active ==> r == Err::<Option<Viewport>, RuntimeError>(
                RuntimeError::NoActiveFrame,
            ) && *final(self) == *old(self),
            old(self).frame_active ==> r == Ok::<Option<Viewport>, RuntimeError>(
                old(self).pending_capture,
            ) && *final(self) == (RuntimeState {
                frame_active: false,
                pending_capture: None,
                ..*old(self)
            }),
    {
        if !self.frame_active {
            Err(RuntimeError::NoActiveFrame)
        } else {
            self.frame_active = false;
            let pending = self.pending_capture;
            self.pending_capture = None;
            Ok(pending)
        }
    }

    /// Computes the uniform values of a render call at host reading
    /// `raw`: fails with `NoActiveFrame`, changing nothing, if no frame
    /// is active; otherwise sets the resolution to the viewport's size if
    /// one is set and the surface size otherwise, and the time to the
    /// paused-adjusted elapsed milliseconds (saturated at the cap).
    pub fn prepare_render(&mut self, raw: u64) -> (r: Result<(), RuntimeError>)
        requires
            old(self).wf(),
        ensures
            final(self).wf(),
            !old(self).frame_active ==> r == Err::<(), RuntimeError>(RuntimeError::NoActiveFrame)
                && *final(self) == *old(self),
            old(self).frame_active ==> r == Ok::<(), RuntimeError>(()) && {
                let now = if raw > old(self).last_now {
                    raw
                } else {
                    old(self).last_now
                };
                let elapsed = old(self).clock.spec_elapsed(now);
                &&& final(self).uniform.resolution_x == (match old(self).viewport {
                    Some(v) => v.width,
                    None => old(self).width,
                })
                &&& final(self).uniform.resolution_y == (match old(self).viewport {
                    Some(v) => v.height,
                    None => old(self).height,
                })
                &&& final(self).uniform.time_millis == (if elapsed > TIME_MILLIS_CAP {
                    TIME_MILLIS_CAP as int
                } else {
                    elapsed
                })
                &&& final(self).uniform.cursor == old(self).uniform.cursor
                &&& final(self).uniform.mouse_down == old(self).uniform.mouse_down
                &&& final(self).uniform.mouse_press == old(self).uniform.mouse_press
                &&& final(self).uniform.mouse_release == old(self).uniform.mouse_release
                &&& *final(self) == (RuntimeState {
                    last_now: now,
                    uniform: final(self).uniform,
                    ..*old(self)
                })
            },
    {
        if !self.frame_active {
            return Err(RuntimeError::NoActiveFrame);
        }
        let now = self.note_now(raw);
        match self.viewport {
            Some(v) => {
                self.uniform.resolution_x = v.width;
                self.uniform.resolution_y = v.height;
            },
            None => {
                self.uniform.resolution_x = self.width;
                self.uniform.resolution_y = self.height;
            },
        }
        let elapsed = self.clock.elapsed_millis(now);
        self.uniform.time_millis = if elapsed > TIME_MILLIS_CAP {
            TIME_MILLIS_CAP
        } else {
            elapsed
        };
        Ok(())
    }

    /// Pauses the runtime at host reading `raw`; pausing while already
    /// paused is a no-op. While paused the clock is frozen and cursor and
    /// mouse updates are discarded.
    pub fn pause(&mut self, raw: u64)
        requires
            old(self).wf(),
        ensures
            final(self).wf(),
            final(self).is_paused,
            old(self).is_paused ==> *final(self) == *old(self),
            final(self).uniform == old(self).uniform,
            final(self).frame_active == old(self).frame_active,
            final(self).clock.spec_elapsed(final(self).last_now) == old(self).clock.spec_elapsed(
                final(self).last_now,
            ),
    {
        if self.is_paused {
            return ;
        }
        let now = self.note_now(raw);
        self.is_paused = true;
        self.clock.pause(now);
    }

    /// Resumes the runtime at host reading `raw`; resuming while not
    /// paused is a no-op. The span spent paused does not count toward the
    /// elapsed time.
    pub fn resume(&mut self, raw: u64)
        requires
            old(self).wf(),
        ensures
            final(self).wf(),
            !final(self).is_paused,
            !old(self).is_paused ==> *final(self) == *old(self),
            final(self).uniform == old(self).uniform,
            final(self).frame_active == old(self).frame_active,
            final(self).clock.spec_elapsed(final(self).last_now) == old(self).clock.spec_elapsed(
                old(self).last_now,
            ),
    {
        if !self.is_paused {
            return ;
        }
        let now = self.note_now(raw);
        self.is_paused = false;
        self.clock.resume(now);
    }

    /// Restarts the runtime at host reading `raw`: the clock returns to
    /// zero, cursor and mouse fields are cleared, the runtime un-pauses,
    /// and the resolution is preserved.
    pub fn restart(&mut self, raw: u64)
        requires
            old(self).wf(),
        ensures
            final(self).wf(),
            !final(self).is_paused,
            final(self).clock.spec_elapsed(final(self).last_now) == 0,
            final(self).last_now >= old(self).last_now,
            final(self).uniform == (UniformState {
                resolution_x: old(self).uniform.resolution_x,
                resolution_y: old(self).uniform.resolution_y,
                ..UniformState::spec_zero()
            }),
            *final(self) == (RuntimeState {
                is_paused: false,
                clock: final(self).clock,
                last_now: final(self).last_now,
                uniform: final(self).uniform,
                ..*old(self)
            }),
    {
        let now = self.note_now(raw);
        self.is_paused = false;
        self.clock = PausableClock::start(now);
        let res_x = self.uniform.resolution_x;
        let res_y = self.uniform.resolution_y;
        self.uniform = UniformState::new();
        self.uniform.resolution_x = res_x;
        self.uniform.resolution_y = res_y;
    }

    /// Records the new surface size.
    pub fn resize(&mut self, width: u32, height: u32)
        requires
            old(self).wf(),
        ensures
            final(self).wf(),
            *final(self) == (RuntimeState { width, height, ..*old(self) }),
    {
        self.width = width;
        self.height = height;
    }

    /// Tracks the cursor: the position is flipped to a bottom-left origin
    /// against the current resolution uniform. Discarded while paused.
    pub fn update_cursor(&mut self, x: u32, y: u32)
        requires
            old(self).wf(),
        ensures
            final(self).wf(),
            old(self).is_paused ==> *final(self) == *old(self),
            !old(self).is_paused ==> final(self).uniform.cursor == (PixelPos {
                x: x as i64,
                y: (old(self).uniform.resolution_y as i64 - y as i64) as i64,
            }) && *final(self) == (RuntimeState { uniform: final(self).uniform, ..*old(self) })
                && final(self).uniform == (UniformState {
                cursor: final(self).uniform.cursor,
                ..old(self).uniform
            }),
    {
        if self.is_paused {
            return ;
        }
        self.uniform.cursor = PixelPos {
            x: x as i64,
            y: self.uniform.resolution_y as i64 - y as i64,
        };
    }

    /// Latches a mouse press: sets the mouse-down flag and records the
    /// cursor position. Discarded while paused.
    pub fn update_mouse_press(&mut self)
        requires
            old(self).wf(),
        ensures
            final(self).wf(),
            old(self).is_paused ==> *final(self) == *old(self),
            !old(self).is_paused ==> final(self).uniform == (UniformState {
                mouse_down: true,
                mouse_press: old(self).uniform.cursor,
                ..old(self).uniform
            }) && *final(self) == (RuntimeState {
                uniform: final(self).uniform,
                ..*old(self)
            }),
    {
        if self.is_paused {
            return ;
        }
        self.uniform.mouse_down = true;
        self.uniform.mouse_press = self.uniform.cursor;
    }

    /// Latches a mouse release: clears the mouse-down flag and records
    /// the cursor position. Discarded while paused.
    pub fn update_mouse_release(&mut self)
        requires
            old(self).wf(),
        ensures
            final(self).wf(),
            old(self).is_paused ==> *final(self) == *old(self),
            !old(self).is_paused ==> final(self).uniform == (UniformState {
                mouse_down: false,
                mouse_release: old(self).uniform.cursor,
                ..old(self).uniform
            }) && *final(self) == (RuntimeState {
                uniform: final(self).uniform,
                ..*old(self)
            }),
    {
        if self.is_paused {
            return ;
        }
        self.uniform.mouse_down = false;
        self.uniform.mouse_release = self.uniform.cursor;
    }

    /// Stores a capture request for the given viewport, to be drained by
    /// the next frame-finish; a second request before then replaces the
    /// first.
    pub fn request_capture(&mut self, viewport: Viewport)
        requires
            old(self).wf(),
        ensures
            final(self).wf(),
            *final(self) == (RuntimeState { pending_capture: Some(viewport), ..*old(self) }),
    {
        self.pending_capture = Some(viewport);
    }

    /// Sets or clears the render viewport.
    pub fn set_viewport(&mut self, viewport: Option<Viewport>)
        requires
            old(self).wf(),
        ensures
            final(self).wf(),
            *final(self) == (RuntimeState { viewport, ..*old(self) }),
    {
        self.viewport = viewport;
    }
}

} // verus!
