//! The audio device.

use vstd::prelude::*;
use crate::context::{Context, Subsystem};
use crate::handle::{Release, ResourceKind};
use crate::native::NativeCall;

verus! {

/// The guard of the audio device: while it exists, the device's lock is
/// held.
pub struct AudioDevice {
    started: bool,
}

impl AudioDevice {
    /// Whether taking the lock turned the device on.
    pub closed spec fn turned_on(&self) -> bool {
        self.started
    }

    /// The guard for a device that was ready, or not, when its lock was
    /// taken.
    pub(crate) fn get(ready: bool) -> (r: Self)
        ensures
            r.turned_on() == !ready,
    {
        AudioDevice { started: !ready }
    }

    /// The native call to make once the guard exists: the one that
    /// turns the device on, if it was off.
    pub fn begin_call(&self) -> (r: Option<NativeCall>)
        ensures
            r == if self.turned_on() {
                Some(NativeCall::InitAudioDevice)
            } else {
                None::<NativeCall>
            },
    {
        if self.started {
            Some(NativeCall::InitAudioDevice)
        } else {
            None
        }
    }

    /// Ends the guard: frees the lock and, if the device is on, returns
    /// the call that turns it off.
    pub fn end(self, context: &mut Context) -> (r: Option<NativeCall>)
        ensures
            r == if old(context)@.audio_on {
                Some(NativeCall::CloseAudioDevice)
            } else {
                None::<NativeCall>
            },
            final(context)@ == old(context)@.released(Subsystem::Audio),
    {
        if context.release_audio() {
            Some(NativeCall::CloseAudioDevice)
        } else {
            None
        }
    }
}

/// A second voice of a sound: it plays the samples of the sound that it
/// was made from, and is released on its own, always.
pub struct SoundAlias<T> {
    alias: T,
}

impl<T> SoundAlias<T> {
    /// The native value of the alias.
    pub closed spec fn value(&self) -> T {
        self.alias
    }

    /// Wraps the alias that the native library made of a sound.
    pub fn new(alias: T) -> (r: Self)
        ensures
            r.value() == alias,
    {
        SoundAlias { alias }
    }

    /// Ends the alias: returns the release call to make.
    pub fn release(self) -> (r: Release<T>)
        ensures
            r == (Release { kind: ResourceKind::SoundAlias, value: self.value() }),
    {
        Release { kind: ResourceKind::SoundAlias, value: self.alias }
    }
}

/// What detaches a processor of audio samples: from the stream that it
/// was attached to, or from the mixer where it was attached to none.
#[derive(Debug)]
pub struct Detach<S, C> {
    pub stream: Option<S>,
    pub callback: C,
}

/// A processor of audio samples that is attached, to a stream or to the
/// mixer, for as long as this value lives.
pub struct Processor<S, C> {
    stream: Option<S>,
    callback: C,
}

impl<S, C> Processor<S, C> {
    /// The stream that the processor is attached to, if it is attached
    /// to one.
    pub closed spec fn stream(&self) -> Option<S> {
        self.stream
    }

    /// The native function that processes the samples.
    pub closed spec fn callback(&self) -> C {
        self.callback
    }

    /// A processor that has been attached to `stream`.
    pub fn on_stream(stream: S, callback: C) -> (r: Self)
        ensures
            r.stream() == Some(stream),
            r.callback() == callback,
    {
        Processor { stream: Some(stream), callback }
    }

    /// A processor that has been attached to the mixer.
    pub fn on_mixer(callback: C) -> (r: Self)
        ensures
            r.stream() is None,
            r.callback() == callback,
    {
        Processor { stream: None, callback }
    }

    /// Ends the processor: returns what detaches it, from where it was
    /// attached.
    pub fn release(self) -> (r: Detach<S, C>)
        ensures
            r == (Detach { stream: self.stream(), callback: self.callback() }),
    {
        Detach { stream: self.stream, callback: self.callback }
    }
}

} // verus!
