//! The window and the monitors.

use vstd::prelude::*;
use crate::context::{Context, ContextView, Subsystem};
use crate::native::NativeCall;

verus! {

/// What the native library reports of a monitor.
#[derive(Debug, Clone, Copy, PartialEq, Eq, Structural)]
pub struct MonitorInfo {
    pub width: u32,
    pub height: u32,
    pub render_width: u32,
    pub render_height: u32,
    pub physical_width: u32,
    pub physical_height: u32,
    pub x: i32,
    pub y: i32,
    pub refresh_rate: u32,
}

/// A monitor: its number, and what was reported of it.
#[derive(Debug, Clone, Copy, PartialEq, Eq, Structural)]
pub struct Monitor {
    pub index: u32,
    pub info: MonitorInfo,
}

impl Monitor {
    /// The monitors, numbered from 0 in the order of what was reported
    /// of them.
    pub fn all(infos: &Vec<MonitorInfo>) -> (r: Vec<Monitor>)
        requires
            infos@.len() <= u32::MAX,
        ensures
            r@.len() == infos@.len(),
            forall|i: int| 0 <= i < r@.len() ==> (#[trigger] r@[i]) == (Monitor { index: i as u32, info: infos@[i] }),
    {
        let mut monitors: Vec<Monitor> = Vec::new();
        let mut i: usize = 0;
        while i < infos.len()
            invariant
                0 <= i <= infos@.len(),
                infos@.len() <= u32::MAX,
                monitors@.len() == i,
                forall|k: int| 0 <= k < i ==> (#[trigger] monitors@[k]) == (Monitor {
                    index: k as u32,
                    info: infos@[k],
                }),
            decreases infos@.len() - i,
        {
            monitors.push(Monitor { index: i as u32, info: infos[i] });
            i += 1;
        }
        monitors
    }

    pub fn width(&self) -> (r: u32)
        ensures
            r == self.info.width,
    {
        self.info.width
    }

    pub fn height(&self) -> (r: u32)
        ensures
            r == self.info.height,
    {
        self.info.height
    }

    /// Width and height, in pixels.
    pub fn size(&self) -> (r: (u32, u32))
        ensures
            r == (self.info.width, self.info.height),
    {
        (self.width(), self.height())
    }

    /// Width and height of what is rendered.
    pub fn render_size(&self) -> (r: (u32, u32))
        ensures
            r == (self.info.render_width, self.info.render_height),
    {
        (self.info.render_width, self.info.render_height)
    }

    /// Width and height, in millimetres.
    pub fn physical_size(&self) -> (r: (u32, u32))
        ensures
            r == (self.info.physical_width, self.info.physical_height),
    {
        (self.info.physical_width, self.info.physical_height)
    }

    /// Where the monitor's upper left corner lies.
    pub fn position(&self) -> (r: (i32, i32))
        ensures
            r == (self.info.x, self.info.y),
    {
        (self.info.x, self.info.y)
    }

    pub fn x(&self) -> (r: i32)
        ensures
            r == self.info.x,
    {
        self.position().0
    }

    pub fn y(&self) -> (r: i32)
        ensures
            r == self.info.y,
    {
        self.position().1
    }
}

/// What the native library reports of the window.
#[derive(Debug, Clone, Copy, PartialEq, Eq, Structural)]
pub struct WindowInfo {
    pub width: u32,
    pub height: u32,
    pub render_width: u32,
    pub render_height: u32,
    pub monitor: Monitor,
}

/// The guard of the window: while it exists, the window's lock is held.
pub struct Window {
    ready: bool,
    info: WindowInfo,
}

impl Window {
    /// Whether the window is still open.
    pub closed spec fn spec_is_ready(&self) -> bool {
        self.ready
    }

    /// What was last reported of the window.
    pub closed spec fn spec_info(&self) -> WindowInfo {
        self.info
    }

    /// The guard of an open window, of which nothing has been reported
    /// yet.
    pub(crate) fn new() -> (r: Self)
        ensures
            r.spec_is_ready(),
    {
        let nothing = MonitorInfo {
            width: 0,
            height: 0,
            render_width: 0,
            render_height: 0,
            physical_width: 0,
            physical_height: 0,
            x: 0,
            y: 0,
            refresh_rate: 0,
        };
        Window {
            ready: true,
            info: WindowInfo {
                width: 0,
                height: 0,
                render_width: 0,
                render_height: 0,
                monitor: Monitor { index: 0, info: nothing },
            },
        }
    }

    /// Takes note of what the native library reports of the window.
    pub fn update(&mut self, info: WindowInfo)
        ensures
            final(self).spec_info() == info,
            final(self).spec_is_ready() == old(self).spec_is_ready(),
    {
        self.info = info;
    }

    pub fn is_ready(&self) -> (r: bool)
        ensures
            r == self.spec_is_ready(),
    {
        self.ready
    }

    /// Closes the window if it is open: returns the native call that
    /// does so. A closed window is not closed again.
    pub fn close(&mut self) -> (r: Option<NativeCall>)
        ensures
            !final(self).spec_is_ready(),
            final(self).spec_info() == old(self).spec_info(),
            r == if old(self).spec_is_ready() {
                Some(NativeCall::CloseWindow)
            } else {
                None::<NativeCall>
            },
    {
        if self.ready {
            self.ready = false;
            Some(NativeCall::CloseWindow)
        } else {
            None
        }
    }

    pub fn width(&self) -> (r: u32)
        ensures
            r == self.spec_info().width,
    {
        self.info.width
    }

    pub fn height(&self) -> (r: u32)
        ensures
            r == self.spec_info().height,
    {
        self.info.height
    }

    /// Width and height of the window.
    pub fn size(&self) -> (r: (u32, u32))
        ensures
            r == (self.spec_info().width, self.spec_info().height),
    {
        (self.width(), self.height())
    }

    /// Width and height of what is rendered.
    pub fn render_size(&self) -> (r: (u32, u32))
        ensures
            r == (self.spec_info().render_width, self.spec_info().render_height),
    {
        (self.info.render_width, self.info.render_height)
    }

    /// The monitor that shows the window.
    pub fn monitor(&self) -> (r: Monitor)
        ensures
            r == self.spec_info().monitor,
    {
        self.info.monitor
    }

    /// The native call that sets the smallest size of the window.
    pub fn set_min_size(&mut self, width: u32, height: u32) -> (r: NativeCall)
        ensures
            r == (NativeCall::SetWindowMinSize { width, height }),
            *final(self) == *old(self),
    {
        NativeCall::SetWindowMinSize { width, height }
    }

    /// Sets the smallest width; the smallest height becomes 0.
    pub fn set_min_width(&mut self, width: u32) -> (r: NativeCall)
        ensures
            r == (NativeCall::SetWindowMinSize { width, height: 0 }),
            *final(self) == *old(self),
    {
        self.set_min_size(width, 0)
    }

    /// Sets the smallest height; the smallest width becomes 0.
    pub fn set_min_height(&mut self, height: u32) -> (r: NativeCall)
        ensures
            r == (NativeCall::SetWindowMinSize { width: 0, height }),
            *final(self) == *old(self),
    {
        self.set_min_size(0, height)
    }

    /// The native call that sets the largest size of the window.
    pub fn set_max_size(&mut self, width: u32, height: u32) -> (r: NativeCall)
        ensures
            r == (NativeCall::SetWindowMaxSize { width, height }),
            *final(self) == *old(self),
    {
        NativeCall::SetWindowMaxSize { width, height }
    }

    /// Sets the largest width; the largest height becomes 0.
    pub fn set_max_width(&mut self, width: u32) -> (r: NativeCall)
        ensures
            r == (NativeCall::SetWindowMaxSize { width, height: 0 }),
            *final(self) == *old(self),
    {
        self.set_max_size(width, 0)
    }

    /// Sets the largest height; the largest width becomes 0.
    pub fn set_max_height(&mut self, height: u32) -> (r: NativeCall)
        ensures
            r == (NativeCall::SetWindowMaxSize { width: 0, height }),
            *final(self) == *old(self),
    {
        self.set_max_size(0, height)
    }

    /// Ends the guard: frees the lock and hands back whether the window
    /// is still open.
    pub fn end(self, context: &mut Context)
        ensures
            final(context)@ == (ContextView {
                window_on: self.spec_is_ready(),
                ..old(context)@.released(Subsystem::Window)
            }),
    {
        context.release_window(self.ready);
    }
}

} // verus!
