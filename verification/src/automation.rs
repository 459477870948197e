//! Recorded input events and their playback.

use vstd::prelude::*;
use crate::native::NativeCall;

verus! {

/// A list of recorded events, as far as playback reads it: how many it
/// holds and how many it has room for.
pub struct Automation {
    capacity: u32,
    count: u32,
}

/// A playback of a list: the number of the event that is played next.
pub struct AutomationPlayback<'a> {
    automation: &'a Automation,
    current_frame: u32,
}

impl Automation {
    /// How many events the list holds.
    pub closed spec fn spec_count(&self) -> u32 {
        self.count
    }

    /// How many events the list has room for.
    pub closed spec fn spec_capacity(&self) -> u32 {
        self.capacity
    }

    /// The list as the native library reports it.
    pub fn new(capacity: u32, count: u32) -> (r: Self)
        ensures
            r.spec_capacity() == capacity,
            r.spec_count() == count,
    {
        Automation { capacity, count }
    }

    pub fn count(&self) -> (r: u32)
        ensures
            r == self.spec_count(),
    {
        self.count
    }

    pub fn capacity(&self) -> (r: u32)
        ensures
            r == self.spec_capacity(),
    {
        self.capacity
    }

    /// Starts a playback at the first event. While it lasts, the list
    /// cannot be used otherwise.
    pub fn play(&mut self) -> (r: AutomationPlayback<'_>)
        ensures
            r.position() == 0,
            r.length() == old(self).spec_count(),
            *final(self) == *old(self),
    {
        AutomationPlayback { automation: &*self, current_frame: 0 }
    }
}

impl<'a> AutomationPlayback<'a> {
    /// The number of the event that is played next.
    pub closed spec fn position(&self) -> u32 {
        self.current_frame
    }

    /// How many events the list holds.
    pub closed spec fn length(&self) -> u32 {
        self.automation.count
    }

    /// Plays the next event, if one is left: returns the native call
    /// that plays it and moves on by one.
    pub fn update(&mut self) -> (r: Option<NativeCall>)
        ensures
            final(self).length() == old(self).length(),
            old(self).position() >= old(self).length() ==> r is None && final(self).position()
                == old(self).position(),
            old(self).position() < old(self).length() ==> r == Some(
                NativeCall::PlayAutomationEvent(old(self).position()),
            ) && final(self).position() == old(self).position() + 1,
    {
        if self.is_finished() {
            return None;
        }
        let frame = self.current_frame;
        self.current_frame = frame + 1;
        Some(NativeCall::PlayAutomationEvent(frame))
    }

    pub fn is_playing(&self) -> (r: bool)
        ensures
            r == (self.position() < self.length()),
    {
        !self.is_finished()
    }

    pub fn is_finished(&self) -> (r: bool)
        ensures
            r == (self.position() >= self.length()),
    {
        self.current_frame >= self.automation.count
    }

    /// Goes back to the first event.
    pub fn reset(&mut self)
        ensures
            final(self).position() == 0,
            final(self).length() == old(self).length(),
    {
        self.current_frame = 0;
    }
}

} // verus!
