//! The application lifecycle: which platform signal leads to which step, and
//! in which phase.
use vstd::prelude::*;

use crate::input::{InputManager, WindowEvent};

verus! {

#[derive(Clone, Copy, Debug, PartialEq, Eq, Structural)]
pub enum Phase {
    /// Waiting for the platform's start signal.
    Uninitialized,
    /// A window exists and the graphics device is being negotiated.
    Negotiating,
    /// The hosted application is initialised; events are dispatched.
    Running,
    /// A close was requested; the exit hook has not run yet.
    Exiting,
    /// The exit hook ran and the resources were released.
    Terminated,
}

/// What the loop does with one window event.
#[derive(Clone, Copy, Debug, PartialEq, Eq, Structural)]
pub enum Step {
    /// Nothing: the application is not running, or the event is not one it
    /// reacts to.
    Ignore,
    /// Hand the event to the input aggregator.
    ForwardInput,
    /// Configure the surface for the new size.
    Resize { width: u32, height: u32 },
    /// Run one frame.
    Frame,
    /// Stop the event loop; the exit hook follows.
    Exit,
}

/// How one frame goes, decided before anything is acquired.
#[derive(Clone, Copy, Debug, PartialEq, Eq, Structural)]
pub struct FramePlan {
    /// Nanoseconds since the previous frame began; zero for the first.
    pub dt_nanos: u64,
    /// Whether to acquire a frame from the surface and render it; false while
    /// the surface is not configured.
    pub render: bool,
}

/// The step that a window event leads to in a phase.
pub open spec fn step_for(phase: Phase, event: WindowEvent) -> Step {
    if phase != Phase::Running {
        Step::Ignore
    } else {
        match event {
            WindowEvent::KeyboardInput { .. } => Step::ForwardInput,
            WindowEvent::CursorMoved { .. } => Step::ForwardInput,
            WindowEvent::MouseInput { .. } => Step::ForwardInput,
            WindowEvent::MouseWheel { .. } => Step::ForwardInput,
            WindowEvent::ModifiersChanged { .. } => Step::ForwardInput,
            WindowEvent::Resized { width, height } => Step::Resize { width, height },
            WindowEvent::RedrawRequested => Step::Frame,
            WindowEvent::CloseRequested => Step::Exit,
            WindowEvent::Other => Step::Ignore,
        }
    }
}

/// The time between the starts of two frames, or zero without an earlier
/// one (or should the clock step back).
pub open spec fn elapsed(last: Option<u64>, now: u64) -> u64 {
    match last {
        Some(t) => if now >= t {
            (now - t) as u64
        } else {
            0
        },
        None => 0,
    }
}

/// The lifecycle state machine. The platform layer reports its signals here
/// and carries out the steps returned.
pub struct App {
    phase: Phase,
    last_frame: Option<u64>,
}

pub struct AppView {
    pub phase: Phase,
    /// When the previous frame began, in nanoseconds on a monotonic clock.
    pub last_frame: Option<u64>,
}

impl View for App {
    type V = AppView;

    closed spec fn view(&self) -> AppView {
        AppView { phase: self.phase, last_frame: self.last_frame }
    }
}

impl App {
    pub fn new() -> (r: Self)
        ensures
            r@ == (AppView { phase: Phase::Uninitialized, last_frame: None }),
    {
        App { phase: Phase::Uninitialized, last_frame: None }
    }

    pub fn phase(&self) -> (r: Phase)
        ensures
            r == self@.phase,
    {
        self.phase
    }

    /// The platform's start signal. Returns whether to create the window and
    /// begin negotiating the device: only on the first start.
    pub fn resumed(&mut self) -> (r: bool)
        ensures
            r == (old(self)@.phase == Phase::Uninitialized),
            final(self)@ == (if r {
                AppView { phase: Phase::Negotiating, ..old(self)@ }
            } else {
                old(self)@
            }),
    {
        if self.phase == Phase::Uninitialized {
            self.phase = Phase::Negotiating;
            true
        } else {
            false
        }
    }

    /// Negotiation finished, inline or deferred alike. Returns whether to run
    /// the hosted application's `init`: only when it was being waited for.
    pub fn device_ready(&mut self) -> (r: bool)
        ensures
            r == (old(self)@.phase == Phase::Negotiating),
            final(self)@ == (if r {
                AppView { phase: Phase::Running, ..old(self)@ }
            } else {
                old(self)@
            }),
    {
        if self.phase == Phase::Negotiating {
            self.phase = Phase::Running;
            true
        } else {
            false
        }
    }

    /// Decides what a window event leads to; a close request moves a running
    /// application to `Exiting`.
    pub fn window_event(&mut self, event: &WindowEvent) -> (r: Step)
        ensures
            r == step_for(old(self)@.phase, *event),
            final(self)@ == (if r == Step::Exit {
                AppView { phase: Phase::Exiting, ..old(self)@ }
            } else {
                old(self)@
            }),
    {
        if self.phase != Phase::Running {
            return Step::Ignore;
        }
        if InputManager::<()>::is_input_event(event) {
            return Step::ForwardInput;
        }
        match *event {
            WindowEvent::Resized { width, height } => Step::Resize { width, height },
            WindowEvent::RedrawRequested => Step::Frame,
            WindowEvent::CloseRequested => {
                self.phase = Phase::Exiting;
                Step::Exit
            },
            _ => Step::Ignore,
        }
    }

    /// Begins a frame at time `now` (nanoseconds on a monotonic clock), given
    /// whether the surface is configured. The time between frame starts
    /// measures how often frames are scheduled, whatever rendering costs.
    pub fn begin_frame(&mut self, now: u64, surface_ready: bool) -> (r: FramePlan)
        ensures
            r == (FramePlan { dt_nanos: elapsed(old(self)@.last_frame, now), render: surface_ready }),
            final(self)@ == (AppView { last_frame: Some(now), ..old(self)@ }),
    {
        let dt_nanos: u64 = match self.last_frame {
            Some(t) => if now >= t {
                now - t
            } else {
                0
            },
            None => 0,
        };
        self.last_frame = Some(now);
        FramePlan { dt_nanos, render: surface_ready }
    }

    /// The event loop is ending. Returns whether to run the hosted exit hook
    /// and release the graphics resources: once, and not before the
    /// application ran.
    pub fn exiting(&mut self) -> (r: bool)
        ensures
            r == (old(self)@.phase == Phase::Running || old(self)@.phase == Phase::Exiting),
            final(self)@ == (if r {
                AppView { phase: Phase::Terminated, ..old(self)@ }
            } else {
                old(self)@
            }),
    {
        if self.phase == Phase::Running || self.phase == Phase::Exiting {
            self.phase = Phase::Terminated;
            true
        } else {
            false
        }
    }
}

/// The application that the runtime binary hosts. It keeps no state of its
/// own: each frame only clears the screen.
pub struct Runtime {}

impl Runtime {
    pub fn new() -> (r: Self)
        ensures
            r == (Runtime {}),
    {
        Runtime {}
    }
}

} // verus!
