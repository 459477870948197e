//! The context: one lock for each subsystem of the native library, and
//! what is known of which subsystems are turned on.

use vstd::prelude::*;
use crate::audio::AudioDevice;
use crate::display::Window;
use crate::error::Error;
use crate::graphics::Drawing;
use crate::physac::Physics;

verus! {

/// The subsystems that can be held by one user at a time.
#[derive(Debug, Clone, Copy, PartialEq, Eq, Structural)]
pub enum Subsystem {
    Window,
    Drawing,
    Audio,
    Physics,
}

impl Subsystem {
    /// The name under which the subsystem appears in errors.
    pub open spec fn spec_name(self) -> Seq<char> {
        match self {
            Subsystem::Window => "window"@,
            Subsystem::Drawing => "drawing"@,
            Subsystem::Audio => "audio"@,
            Subsystem::Physics => "physics"@,
        }
    }

    pub fn name(self) -> (r: &'static str)
        ensures
            r@ == self.spec_name(),
    {
        match self {
            Subsystem::Window => "window",
            Subsystem::Drawing => "drawing",
            Subsystem::Audio => "audio",
            Subsystem::Physics => "physics",
        }
    }
}

/// What a context knows: which locks are held, and which of the
/// subsystems that can be off are turned on.
pub struct ContextView {
    pub window_held: bool,
    pub drawing_held: bool,
    pub audio_held: bool,
    pub physics_held: bool,
    pub window_on: bool,
    pub audio_on: bool,
    pub physics_on: bool,
}

impl ContextView {
    /// Whether the lock of `subsystem` is held.
    pub open spec fn held(self, subsystem: Subsystem) -> bool {
        match subsystem {
            Subsystem::Window => self.window_held,
            Subsystem::Drawing => self.drawing_held,
            Subsystem::Audio => self.audio_held,
            Subsystem::Physics => self.physics_held,
        }
    }

    /// This state with `subsystem` turned on or off. The drawing
    /// subsystem is neither.
    pub open spec fn with_on(self, subsystem: Subsystem, on: bool) -> ContextView {
        match subsystem {
            Subsystem::Window => ContextView { window_on: on, ..self },
            Subsystem::Drawing => self,
            Subsystem::Audio => ContextView { audio_on: on, ..self },
            Subsystem::Physics => ContextView { physics_on: on, ..self },
        }
    }

    /// Whether the lock of `subsystem` can be taken: it is free, and the
    /// window, which nothing here turns on, is ready.
    pub open spec fn can_acquire(self, subsystem: Subsystem) -> bool {
        !self.held(subsystem) && (subsystem == Subsystem::Window ==> self.window_on)
    }

    /// The state once the lock of `subsystem` has been taken. The audio
    /// device and physics are on from then.
    pub open spec fn acquired(self, subsystem: Subsystem) -> ContextView {
        match subsystem {
            Subsystem::Window => ContextView { window_held: true, ..self },
            Subsystem::Drawing => ContextView { drawing_held: true, ..self },
            Subsystem::Audio => ContextView { audio_held: true, audio_on: true, ..self },
            Subsystem::Physics => ContextView { physics_held: true, physics_on: true, ..self },
        }
    }

    /// The state once the guard of `subsystem` has ended. The audio
    /// device and physics are off from then.
    pub open spec fn released(self, subsystem: Subsystem) -> ContextView {
        match subsystem {
            Subsystem::Window => ContextView { window_held: false, ..self },
            Subsystem::Drawing => ContextView { drawing_held: false, ..self },
            Subsystem::Audio => ContextView { audio_held: false, audio_on: false, ..self },
            Subsystem::Physics => ContextView { physics_held: false, physics_on: false, ..self },
        }
    }
}

/// The locks of the subsystems. There is one context for each process.
pub struct Context {
    window: bool,
    drawing: bool,
    audio: bool,
    physics: bool,
    window_on: bool,
    audio_on: bool,
    physics_on: bool,
}

impl View for Context {
    type V = ContextView;

    closed spec fn view(&self) -> ContextView {
        ContextView {
            window_held: self.window,
            drawing_held: self.drawing,
            audio_held: self.audio,
            physics_held: self.physics,
            window_on: self.window_on,
            audio_on: self.audio_on,
            physics_on: self.physics_on,
        }
    }
}

impl Context {
    /// A context with every lock free, for a process whose window is
    /// ready or not as `window_on` says, and whose audio device and
    /// physics are off.
    pub open spec fn fresh(window_on: bool) -> ContextView {
        ContextView {
            window_held: false,
            drawing_held: false,
            audio_held: false,
            physics_held: false,
            window_on,
            audio_on: false,
            physics_on: false,
        }
    }

    /// The locks, all free, before the window has been opened.
    pub fn new() -> (r: Self)
        ensures
            r@ == Self::fresh(false),
    {
        Context {
            window: false,
            drawing: false,
            audio: false,
            physics: false,
            window_on: false,
            audio_on: false,
            physics_on: false,
        }
    }

    /// The locks, all free, once the window has been opened.
    pub(crate) fn started() -> (r: Self)
        ensures
            r@ == Self::fresh(true),
    {
        Context {
            window: false,
            drawing: false,
            audio: false,
            physics: false,
            window_on: true,
            audio_on: false,
            physics_on: false,
        }
    }

    /// Whether the lock of `subsystem` is held.
    pub fn is_held(&self, subsystem: Subsystem) -> (r: bool)
        ensures
            r == self@.held(subsystem),
    {
        match subsystem {
            Subsystem::Window => self.window,
            Subsystem::Drawing => self.drawing,
            Subsystem::Audio => self.audio,
            Subsystem::Physics => self.physics,
        }
    }

    /// Takes note of what the native library reports of `subsystem`:
    /// whether it is turned on. The locks stay as they are.
    pub fn note(&mut self, subsystem: Subsystem, on: bool)
        ensures
            final(self)@ == old(self)@.with_on(subsystem, on),
    {
        match subsystem {
            Subsystem::Window => {
                self.window_on = on;
            },
            Subsystem::Drawing => {},
            Subsystem::Audio => {
                self.audio_on = on;
            },
            Subsystem::Physics => {
                self.physics_on = on;
            },
        }
    }

    /// Takes the window's lock. The window has to be ready, which is
    /// tested first, and its lock free.
    pub fn window(&mut self) -> (r: Result<Window, Error>)
        ensures
            !old(self)@.window_on ==> r is Err && r->Err_0.is_not_initialized("window"@)
                && final(self)@ == old(self)@,
            old(self)@.window_on && old(self)@.window_held ==> r is Err
                && r->Err_0.is_already_locked("window"@) && final(self)@ == old(self)@,
            old(self)@.can_acquire(Subsystem::Window) ==> r is Ok && r->Ok_0.spec_is_ready()
                && final(self)@ == old(self)@.acquired(Subsystem::Window),
    {
        if !self.window_on {
            Err(Error::SubsystemNotInitialized("window"))
        } else if self.window {
            Err(Error::ThreadAlreadyLocked("window"))
        } else {
            self.window = true;
            Ok(Window::new())
        }
    }

    /// Takes the audio device's lock, and turns the device on if it is
    /// off: the guard then holds the call that does so.
    pub fn audio(&mut self) -> (r: Result<AudioDevice, Error>)
        ensures
            old(self)@.audio_held ==> r is Err && r->Err_0.is_already_locked("audio"@)
                && final(self)@ == old(self)@,
            old(self)@.can_acquire(Subsystem::Audio) ==> r is Ok && r->Ok_0.turned_on() == !old(
                self,
            )@.audio_on && final(self)@ == old(self)@.acquired(Subsystem::Audio),
    {
        if self.audio {
            Err(Error::ThreadAlreadyLocked("audio"))
        } else {
            let guard = AudioDevice::get(self.audio_on);
            self.audio = true;
            self.audio_on = true;
            Ok(guard)
        }
    }

    /// Takes the lock of the physics world, and turns physics on if it
    /// is off: the guard then holds the call that does so.
    pub fn physics(&mut self) -> (r: Result<Physics, Error>)
        ensures
            old(self)@.physics_held ==> r is Err && r->Err_0.is_already_locked("physics"@)
                && final(self)@ == old(self)@,
            old(self)@.can_acquire(Subsystem::Physics) ==> r is Ok && r->Ok_0.turned_on() == !old(
                self,
            )@.physics_on && final(self)@ == old(self)@.acquired(Subsystem::Physics),
    {
        if self.physics {
            Err(Error::ThreadAlreadyLocked("physics"))
        } else {
            let guard = Physics::get(self.physics_on);
            self.physics = true;
            self.physics_on = true;
            Ok(guard)
        }
    }

    /// Opens a frame: takes the drawing lock and returns the session, in
    /// which no mode is open. This is the only way into a frame.
    pub fn begin_drawing(&mut self) -> (r: Result<Drawing, Error>)
        ensures
            old(self)@.drawing_held ==> r is Err && r->Err_0.is_already_locked("drawing"@)
                && final(self)@ == old(self)@,
            old(self)@.can_acquire(Subsystem::Drawing) ==> r is Ok && r->Ok_0@ == Seq::<
                crate::graphics::Mode,
            >::empty() && final(self)@ == old(self)@.acquired(Subsystem::Drawing),
    {
        if self.drawing {
            Err(Error::ThreadAlreadyLocked("drawing"))
        } else {
            self.drawing = true;
            Ok(Drawing::new())
        }
    }

    /// Frees the window's lock and records whether the window is still
    /// ready.
    pub(crate) fn release_window(&mut self, ready: bool)
        ensures
            final(self)@ == (ContextView { window_on: ready, ..old(self)@.released(Subsystem::Window) }),
    {
        self.window = false;
        self.window_on = ready;
    }

    /// Frees the audio device's lock; the device is off from then on.
    pub(crate) fn release_audio(&mut self) -> (was_on: bool)
        ensures
            was_on == old(self)@.audio_on,
            final(self)@ == old(self)@.released(Subsystem::Audio),
    {
        let was_on = self.audio_on;
        self.audio = false;
        self.audio_on = false;
        was_on
    }

    /// Frees the lock of the physics world; physics is off from then on.
    pub(crate) fn release_physics(&mut self) -> (was_on: bool)
        ensures
            was_on == old(self)@.physics_on,
            final(self)@ == old(self)@.released(Subsystem::Physics),
    {
        let was_on = self.physics_on;
        self.physics = false;
        self.physics_on = false;
        was_on
    }

    /// Frees the drawing lock.
    pub(crate) fn release_drawing(&mut self)
        ensures
            final(self)@ == old(self)@.released(Subsystem::Drawing),
    {
        self.drawing = false;
    }
}

/// A lock that has just been taken can be handed back at once, and is
/// then free: it can be taken again.
pub proof fn lemma_acquire_then_release(state: ContextView, subsystem: Subsystem)
    requires
        state.can_acquire(subsystem),
    ensures
        state.acquired(subsystem).held(subsystem),
        !state.acquired(subsystem).released(subsystem).held(subsystem),
        state.acquired(subsystem).released(subsystem).can_acquire(subsystem),
{
}

/// While a lock is held it cannot be taken a second time.
pub proof fn lemma_held_refused(state: ContextView, subsystem: Subsystem)
    requires
        state.can_acquire(subsystem),
    ensures
        !state.acquired(subsystem).can_acquire(subsystem),
{
}

/// Taking or handing back one lock leaves the other locks as they are.
pub proof fn lemma_locks_independent(state: ContextView, subsystem: Subsystem, other: Subsystem)
    requires
        subsystem != other,
    ensures
        state.acquired(subsystem).held(other) == state.held(other),
        state.released(subsystem).held(other) == state.held(other),
{
}

} // verus!
