//! The drawing session and the exclusive modes that open inside it.
//!
//! A session keeps the modes that are open as a stack, innermost last.
//! Each mode needs a lock of the session; a mode opens only while its
//! lock is free, and only the innermost mode can end.

use vstd::prelude::*;
use crate::context::{Context, Subsystem};
use crate::error::Error;
use crate::native::NativeCall;
use crate::sys::BlendMode;

verus! {

/// How an image is resampled when its size changes.
#[derive(Debug, Clone, Copy, PartialEq, Eq, Structural)]
pub enum Scaling {
    Bicubic,
    NearestNeighbor,
}

impl Default for Scaling {
    fn default() -> (r: Self)
        ensures
            r == Scaling::Bicubic,
    {
        Scaling::Bicubic
    }
}

/// What looking up a uniform in a shader came to: its location, or a
/// failed load where the native library answers -1.
pub fn shader_location(found: i32) -> (r: Result<i32, Error>)
    ensures
        found != -1 ==> r == Ok::<i32, Error>(found),
        found == -1 ==> r is Err && r->Err_0.is_unable_to_load("shader location"@),
{
    if found == -1 {
        Err(Error::UnableToLoad("shader location"))
    } else {
        Ok(found)
    }
}

/// What looking up an attribute in a shader came to: its location, or a
/// failed load where the native library answers -1.
pub fn shader_attribute(found: i32) -> (r: Result<i32, Error>)
    ensures
        found != -1 ==> r == Ok::<i32, Error>(found),
        found == -1 ==> r is Err && r->Err_0.is_unable_to_load("shader attribute"@),
{
    if found == -1 {
        Err(Error::UnableToLoad("shader attribute"))
    } else {
        Ok(found)
    }
}

/// The locks of a drawing session.
#[derive(Debug, Clone, Copy, PartialEq, Eq, Structural)]
pub enum ModeLock {
    /// Shared by the camera modes and the render-texture mode.
    Drawing,
    Shaded,
    Blended,
    Viewport,
}

/// The modes that can open inside a drawing session.
#[derive(Debug, Clone, Copy, PartialEq, Eq, Structural)]
pub enum Mode {
    Mode2D,
    Mode3D,
    Texture,
    Vr,
    Shader,
    Blend,
    Viewport,
}

impl Mode {
    /// The lock that the mode holds while it is open.
    pub open spec fn spec_lock(self) -> ModeLock {
        match self {
            Mode::Mode2D | Mode::Mode3D | Mode::Texture | Mode::Vr => ModeLock::Drawing,
            Mode::Shader => ModeLock::Shaded,
            Mode::Blend => ModeLock::Blended,
            Mode::Viewport => ModeLock::Viewport,
        }
    }

    /// The native call that ends the mode.
    pub open spec fn spec_end_call(self) -> NativeCall {
        match self {
            Mode::Mode2D => NativeCall::EndMode2D,
            Mode::Mode3D => NativeCall::EndMode3D,
            Mode::Texture => NativeCall::EndTextureMode,
            Mode::Vr => NativeCall::EndVrStereoMode,
            Mode::Shader => NativeCall::EndShaderMode,
            Mode::Blend => NativeCall::EndBlendMode,
            Mode::Viewport => NativeCall::EndScissorMode,
        }
    }

    pub fn lock(self) -> (r: ModeLock)
        ensures
            r == self.spec_lock(),
    {
        match self {
            Mode::Mode2D | Mode::Mode3D | Mode::Texture | Mode::Vr => ModeLock::Drawing,
            Mode::Shader => ModeLock::Shaded,
            Mode::Blend => ModeLock::Blended,
            Mode::Viewport => ModeLock::Viewport,
        }
    }

    pub fn end_call(self) -> (r: NativeCall)
        ensures
            r == self.spec_end_call(),
    {
        match self {
            Mode::Mode2D => NativeCall::EndMode2D,
            Mode::Mode3D => NativeCall::EndMode3D,
            Mode::Texture => NativeCall::EndTextureMode,
            Mode::Vr => NativeCall::EndVrStereoMode,
            Mode::Shader => NativeCall::EndShaderMode,
            Mode::Blend => NativeCall::EndBlendMode,
            Mode::Viewport => NativeCall::EndScissorMode,
        }
    }
}

/// Whether some open mode of `stack` holds `lock`.
pub open spec fn held(stack: Seq<Mode>, lock: ModeLock) -> bool {
    exists|i: int| 0 <= i < stack.len() && (#[trigger] stack[i]).spec_lock() == lock
}

/// No two open modes of `stack` hold the same lock.
pub open spec fn exclusive(stack: Seq<Mode>) -> bool {
    forall|i: int, j: int|
        0 <= i < j < stack.len() ==> (#[trigger] stack[i]).spec_lock() != (#[trigger] stack[j]).spec_lock()
}

/// The stack after an attempt to open `mode`: the mode on top if its
/// lock was free, and no change, reported as `None`, if it was held.
pub open spec fn opened(stack: Seq<Mode>, mode: Mode) -> Option<Seq<Mode>> {
    if held(stack, mode.spec_lock()) {
        None
    } else {
        Some(stack.push(mode))
    }
}

/// The stack after its innermost mode has ended.
pub open spec fn closed(stack: Seq<Mode>) -> Seq<Mode>
    recommends
        stack.len() > 0,
{
    stack.drop_last()
}

/// The stack once every mode above the lowest `depth` has ended: the
/// lowest `depth` modes, or the whole stack where it is no deeper.
pub open spec fn unwound(stack: Seq<Mode>, depth: int) -> Seq<Mode> {
    if 0 <= depth < stack.len() {
        stack.take(depth)
    } else {
        stack
    }
}

/// The closing calls of the modes above the lowest `depth`, innermost
/// first: none where the stack is no deeper.
pub open spec fn closings(stack: Seq<Mode>, depth: int) -> Seq<NativeCall> {
    if 0 <= depth < stack.len() {
        Seq::new((stack.len() - depth) as nat, |k: int| stack[stack.len() - 1 - k].spec_end_call())
    } else {
        Seq::empty()
    }
}

/// A drawing session: the frame is open, and so are the modes of the
/// stack.
pub struct Drawing {
    open: Vec<Mode>,
}

impl Drawing {
    /// The open modes, innermost last.
    pub closed spec fn view(&self) -> Seq<Mode> {
        self.open@
    }

    /// The innermost open mode, if any is open.
    pub open spec fn spec_innermost(&self) -> Option<Mode> {
        if self@.len() > 0 {
            Some(self@.last())
        } else {
            None
        }
    }

    /// A session in which no mode is open.
    pub(crate) fn new() -> (r: Self)
        ensures
            r@ == Seq::<Mode>::empty(),
    {
        Drawing { open: Vec::new() }
    }

    /// The native call that opens the frame.
    pub fn begin_call(&self) -> (r: NativeCall)
        ensures
            r == NativeCall::BeginDrawing,
    {
        NativeCall::BeginDrawing
    }

    /// Closes the frame, in which no mode may be open any more: frees
    /// the drawing lock and returns the native call that ends the frame.
    pub fn end(self, context: &mut Context) -> (r: NativeCall)
        requires
            self@.len() == 0,
        ensures
            r == NativeCall::EndDrawing,
            final(context)@ == old(context)@.released(Subsystem::Drawing),
    {
        context.release_drawing();
        NativeCall::EndDrawing
    }

    /// Ends every mode above the lowest `depth`, innermost first, and
    /// returns their closing calls in that order. Where no more than
    /// `depth` modes are open, nothing ends.
    pub fn unwind_to(&mut self, depth: usize) -> (r: Vec<NativeCall>)
        ensures
            final(self)@ == unwound(old(self)@, depth as int),
            r@ == closings(old(self)@, depth as int),
    {
        let mut calls: Vec<NativeCall> = Vec::new();
        while self.open.len() > depth
            invariant
                self.open@.len() <= old(self)@.len(),
                self.open@.len() < old(self)@.len() ==> depth <= self.open@.len(),
                self.open@ == old(self)@.take(self.open@.len() as int),
                calls@.len() == old(self)@.len() - self.open@.len(),
                forall|k: int|
                    0 <= k < calls@.len() ==> calls@[k] == old(self)@[old(self)@.len() - 1
                        - k].spec_end_call(),
            decreases self.open@.len(),
        {
            let call = self.close_mode();
            assert(self.open@ =~= old(self)@.take(self.open@.len() as int));
            calls.push(call);
        }
        assert(self.open@ =~= unwound(old(self)@, depth as int));
        assert(calls@ =~= closings(old(self)@, depth as int));
        calls
    }

    /// Closes the frame whatever is open in it: ends the open modes,
    /// innermost first, then the frame, and frees the drawing lock.
    /// Returns the native calls that do so, in their order, so that the
    /// call that ends the frame comes after every closing call of a
    /// mode.
    pub fn finish(self, context: &mut Context) -> (r: Vec<NativeCall>)
        ensures
            r@ == closings(self@, 0).push(NativeCall::EndDrawing),
            final(context)@ == old(context)@.released(Subsystem::Drawing),
    {
        let mut session = self;
        let mut calls = session.unwind_to(0);
        let call = session.end(context);
        calls.push(call);
        calls
    }

    /// Whether an open mode holds `lock`.
    pub fn is_held(&self, lock: ModeLock) -> (r: bool)
        ensures
            r == held(self@, lock),
    {
        let mut i: usize = 0;
        while i < self.open.len()
            invariant
                0 <= i <= self.open@.len(),
                forall|k: int| 0 <= k < i ==> (#[trigger] self.open@[k]).spec_lock() != lock,
            decreases self.open@.len() - i,
        {
            if self.open[i].lock() == lock {
                return true;
            }
            i += 1;
        }
        false
    }

    /// How many modes are open.
    pub fn depth(&self) -> (r: usize)
        ensures
            r == self@.len(),
    {
        self.open.len()
    }

    pub fn innermost(&self) -> (r: Option<Mode>)
        ensures
            r == self.spec_innermost(),
    {
        let n = self.open.len();
        if n > 0 {
            Some(self.open[n - 1])
        } else {
            None
        }
    }

    /// Opens `mode` if its lock is free. A refused attempt changes
    /// nothing.
    fn open_mode(&mut self, mode: Mode) -> (r: Result<(), Error>)
        ensures
            opened(old(self)@, mode) matches Some(s) ==> r is Ok && final(self)@ == s,
            opened(old(self)@, mode) is None ==> r is Err && r->Err_0.is_already_locked("drawing"@)
                && final(self)@ == old(self)@,
    {
        if self.is_held(mode.lock()) {
            Err(Error::ThreadAlreadyLocked("drawing"))
        } else {
            self.open.push(mode);
            Ok(())
        }
    }

    /// Ends the innermost mode and returns the native call that does so.
    fn close_mode(&mut self) -> (r: NativeCall)
        requires
            old(self)@.len() > 0,
        ensures
            final(self)@ == closed(old(self)@),
            r == old(self)@.last().spec_end_call(),
    {
        let mode = self.open.pop().unwrap();
        mode.end_call()
    }
}

/// The guard of the 2D camera mode: it stands for the open mode until it ends.
pub struct Drawing2D {
    token: (),
}

impl Drawing2D {
    /// The native call that opens the mode. It is to be made once, as
    /// soon as the guard exists.
    pub closed spec fn spec_begin_call(&self) -> NativeCall {
        NativeCall::BeginMode2D
    }

    pub fn begin_call(&self) -> (r: NativeCall)
        ensures
            r == self.spec_begin_call(),
    {
        NativeCall::BeginMode2D
    }

    /// Ends the mode, which has to be the innermost open one of the
    /// session, and returns the native call that ends it.
    pub fn end(self, drawing: &mut Drawing) -> (r: NativeCall)
        requires
            old(drawing).spec_innermost() == Some(Mode::Mode2D),
        ensures
            r == NativeCall::EndMode2D,
            final(drawing)@ == closed(old(drawing)@),
    {
        drawing.close_mode()
    }
}

/// The guard of the 3D camera mode: it stands for the open mode until it ends.
pub struct Drawing3D {
    token: (),
}

impl Drawing3D {
    /// The native call that opens the mode. It is to be made once, as
    /// soon as the guard exists.
    pub closed spec fn spec_begin_call(&self) -> NativeCall {
        NativeCall::BeginMode3D
    }

    pub fn begin_call(&self) -> (r: NativeCall)
        ensures
            r == self.spec_begin_call(),
    {
        NativeCall::BeginMode3D
    }

    /// Ends the mode, which has to be the innermost open one of the
    /// session, and returns the native call that ends it.
    pub fn end(self, drawing: &mut Drawing) -> (r: NativeCall)
        requires
            old(drawing).spec_innermost() == Some(Mode::Mode3D),
        ensures
            r == NativeCall::EndMode3D,
            final(drawing)@ == closed(old(drawing)@),
    {
        drawing.close_mode()
    }
}

/// The guard of drawing into a render texture: it stands for the open mode until it ends.
pub struct DrawingTexture {
    token: (),
}

impl DrawingTexture {
    /// The native call that opens the mode. It is to be made once, as
    /// soon as the guard exists.
    pub closed spec fn spec_begin_call(&self) -> NativeCall {
        NativeCall::BeginTextureMode
    }

    pub fn begin_call(&self) -> (r: NativeCall)
        ensures
            r == self.spec_begin_call(),
    {
        NativeCall::BeginTextureMode
    }

    /// Ends the mode, which has to be the innermost open one of the
    /// session, and returns the native call that ends it.
    pub fn end(self, drawing: &mut Drawing) -> (r: NativeCall)
        requires
            old(drawing).spec_innermost() == Some(Mode::Texture),
        ensures
            r == NativeCall::EndTextureMode,
            final(drawing)@ == closed(old(drawing)@),
    {
        drawing.close_mode()
    }
}

/// The guard of the VR stereo mode: it stands for the open mode until it ends.
pub struct DrawingVr {
    token: (),
}

impl DrawingVr {
    /// The native call that opens the mode. It is to be made once, as
    /// soon as the guard exists.
    pub closed spec fn spec_begin_call(&self) -> NativeCall {
        NativeCall::BeginVrStereoMode
    }

    pub fn begin_call(&self) -> (r: NativeCall)
        ensures
            r == self.spec_begin_call(),
    {
        NativeCall::BeginVrStereoMode
    }

    /// Ends the mode, which has to be the innermost open one of the
    /// session, and returns the native call that ends it.
    pub fn end(self, drawing: &mut Drawing) -> (r: NativeCall)
        requires
            old(drawing).spec_innermost() == Some(Mode::Vr),
        ensures
            r == NativeCall::EndVrStereoMode,
            final(drawing)@ == closed(old(drawing)@),
    {
        drawing.close_mode()
    }
}

/// The guard of the custom shader mode: it stands for the open mode until it ends.
pub struct DrawingShaded {
    token: (),
}

impl DrawingShaded {
    /// The native call that opens the mode. It is to be made once, as
    /// soon as the guard exists.
    pub closed spec fn spec_begin_call(&self) -> NativeCall {
        NativeCall::BeginShaderMode
    }

    pub fn begin_call(&self) -> (r: NativeCall)
        ensures
            r == self.spec_begin_call(),
    {
        NativeCall::BeginShaderMode
    }

    /// Ends the mode, which has to be the innermost open one of the
    /// session, and returns the native call that ends it.
    pub fn end(self, drawing: &mut Drawing) -> (r: NativeCall)
        requires
            old(drawing).spec_innermost() == Some(Mode::Shader),
        ensures
            r == NativeCall::EndShaderMode,
            final(drawing)@ == closed(old(drawing)@),
    {
        drawing.close_mode()
    }
}

/// The guard of a blend mode: it stands for the open mode until it ends.
pub struct DrawingBlended {
    mode: BlendMode,
}

impl DrawingBlended {
    /// The native call that opens the mode. It is to be made once, as
    /// soon as the guard exists.
    pub closed spec fn spec_begin_call(&self) -> NativeCall {
        NativeCall::BeginBlendMode(self.mode)
    }

    pub fn begin_call(&self) -> (r: NativeCall)
        ensures
            r == self.spec_begin_call(),
    {
        NativeCall::BeginBlendMode(self.mode)
    }

    /// Ends the mode, which has to be the innermost open one of the
    /// session, and returns the native call that ends it.
    pub fn end(self, drawing: &mut Drawing) -> (r: NativeCall)
        requires
            old(drawing).spec_innermost() == Some(Mode::Blend),
        ensures
            r == NativeCall::EndBlendMode,
            final(drawing)@ == closed(old(drawing)@),
    {
        drawing.close_mode()
    }
}

/// The guard of the viewport (scissor) mode: it stands for the open mode until it ends.
pub struct DrawingViewport {
    x: i32,
    y: i32,
    width: i32,
    height: i32,
}

impl DrawingViewport {
    /// The native call that opens the mode. It is to be made once, as
    /// soon as the guard exists.
    pub closed spec fn spec_begin_call(&self) -> NativeCall {
        (NativeCall::BeginScissorMode { x: self.x, y: self.y, width: self.width, height: self.height })
    }

    pub fn begin_call(&self) -> (r: NativeCall)
        ensures
            r == self.spec_begin_call(),
    {
        (NativeCall::BeginScissorMode { x: self.x, y: self.y, width: self.width, height: self.height })
    }

    /// Ends the mode, which has to be the innermost open one of the
    /// session, and returns the native call that ends it.
    pub fn end(self, drawing: &mut Drawing) -> (r: NativeCall)
        requires
            old(drawing).spec_innermost() == Some(Mode::Viewport),
        ensures
            r == NativeCall::EndScissorMode,
            final(drawing)@ == closed(old(drawing)@),
    {
        drawing.close_mode()
    }
}

impl Drawing {
    /// Opens the 2D camera mode if its lock is free. Where the lock is held the
    /// attempt fails, nothing changes and no guard exists, so that no
    /// native call is made.
    pub fn begin_mode2d(&mut self) -> (r: Result<Drawing2D, Error>)
        ensures
            opened(old(self)@, Mode::Mode2D) matches Some(s) ==> r is Ok && final(self)@ == s
                && r->Ok_0.spec_begin_call() == NativeCall::BeginMode2D,
            opened(old(self)@, Mode::Mode2D) is None ==> r is Err
                && r->Err_0.is_already_locked("drawing"@) && final(self)@ == old(self)@,
    {
        match self.open_mode(Mode::Mode2D) {
            Ok(()) => Ok(Drawing2D { token: () }),
            Err(e) => Err(e),
        }
    }

    /// Opens the 2D camera mode, hands the guard to `f`, and ends the mode when
    /// `f` returns, so that the mode cannot outlast the callback. `f`
    /// makes the guard's opening call before it draws; the result is
    /// the closing call, to be made at once. `f` has run on the guard of
    /// the mode that opened. Where the lock is held `f` is not called.
    pub fn draw2d<F>(&mut self, f: F) -> (r: Result<NativeCall, Error>) where
        F: FnOnce(&mut Drawing2D),
        requires
            forall|g: &mut Drawing2D| #[trigger] f.requires((g,)),
        ensures
            final(self)@ == old(self)@,
            held(old(self)@, ModeLock::Drawing) ==> r is Err
                && r->Err_0.is_already_locked("drawing"@),
            !held(old(self)@, ModeLock::Drawing) ==> r == Ok::<NativeCall, Error>(NativeCall::EndMode2D),
            !held(old(self)@, ModeLock::Drawing) ==> exists|g: &mut Drawing2D|
                g.spec_begin_call() == NativeCall::BeginMode2D && #[trigger] f.ensures((g,), ()),
    {
        match self.begin_mode2d() {
            Ok(guard) => {
                let mut guard = guard;
                f(&mut guard);
                let call = guard.end(self);
                assert(self@ =~= old(self)@);
                Ok(call)
            },
            Err(e) => Err(e),
        }
    }

    /// Opens the 3D camera mode if its lock is free. Where the lock is held the
    /// attempt fails, nothing changes and no guard exists, so that no
    /// native call is made.
    pub fn begin_mode3d(&mut self) -> (r: Result<Drawing3D, Error>)
        ensures
            opened(old(self)@, Mode::Mode3D) matches Some(s) ==> r is Ok && final(self)@ == s
                && r->Ok_0.spec_begin_call() == NativeCall::BeginMode3D,
            opened(old(self)@, Mode::Mode3D) is None ==> r is Err
                && r->Err_0.is_already_locked("drawing"@) && final(self)@ == old(self)@,
    {
        match self.open_mode(Mode::Mode3D) {
            Ok(()) => Ok(Drawing3D { token: () }),
            Err(e) => Err(e),
        }
    }

    /// Opens the 3D camera mode, hands the guard to `f`, and ends the mode when
    /// `f` returns, so that the mode cannot outlast the callback. `f`
    /// makes the guard's opening call before it draws; the result is
    /// the closing call, to be made at once. `f` has run on the guard of
    /// the mode that opened. Where the lock is held `f` is not called.
    pub fn draw3d<F>(&mut self, f: F) -> (r: Result<NativeCall, Error>) where
        F: FnOnce(&mut Drawing3D),
        requires
            forall|g: &mut Drawing3D| #[trigger] f.requires((g,)),
        ensures
            final(self)@ == old(self)@,
            held(old(self)@, ModeLock::Drawing) ==> r is Err
                && r->Err_0.is_already_locked("drawing"@),
            !held(old(self)@, ModeLock::Drawing) ==> r == Ok::<NativeCall, Error>(NativeCall::EndMode3D),
            !held(old(self)@, ModeLock::Drawing) ==> exists|g: &mut Drawing3D|
                g.spec_begin_call() == NativeCall::BeginMode3D && #[trigger] f.ensures((g,), ()),
    {
        match self.begin_mode3d() {
            Ok(guard) => {
                let mut guard = guard;
                f(&mut guard);
                let call = guard.end(self);
                assert(self@ =~= old(self)@);
                Ok(call)
            },
            Err(e) => Err(e),
        }
    }

    /// Opens drawing into a render texture if its lock is free. Where the lock is held the
    /// attempt fails, nothing changes and no guard exists, so that no
    /// native call is made.
    pub fn begin_texture_mode(&mut self) -> (r: Result<DrawingTexture, Error>)
        ensures
            opened(old(self)@, Mode::Texture) matches Some(s) ==> r is Ok && final(self)@ == s
                && r->Ok_0.spec_begin_call() == NativeCall::BeginTextureMode,
            opened(old(self)@, Mode::Texture) is None ==> r is Err
                && r->Err_0.is_already_locked("drawing"@) && final(self)@ == old(self)@,
    {
        match self.open_mode(Mode::Texture) {
            Ok(()) => Ok(DrawingTexture { token: () }),
            Err(e) => Err(e),
        }
    }

    /// Opens drawing into a render texture, hands the guard to `f`, and ends the mode when
    /// `f` returns, so that the mode cannot outlast the callback. `f`
    /// makes the guard's opening call before it draws; the result is
    /// the closing call, to be made at once. `f` has run on the guard of
    /// the mode that opened. Where the lock is held `f` is not called.
    pub fn draw_to_texture<F>(&mut self, f: F) -> (r: Result<NativeCall, Error>) where
        F: FnOnce(&mut DrawingTexture),
        requires
            forall|g: &mut DrawingTexture| #[trigger] f.requires((g,)),
        ensures
            final(self)@ == old(self)@,
            held(old(self)@, ModeLock::Drawing) ==> r is Err
                && r->Err_0.is_already_locked("drawing"@),
            !held(old(self)@, ModeLock::Drawing) ==> r == Ok::<NativeCall, Error>(NativeCall::EndTextureMode),
            !held(old(self)@, ModeLock::Drawing) ==> exists|g: &mut DrawingTexture|
                g.spec_begin_call() == NativeCall::BeginTextureMode && #[trigger] f.ensures((g,), ()),
    {
        match self.begin_texture_mode() {
            Ok(guard) => {
                let mut guard = guard;
                f(&mut guard);
                let call = guard.end(self);
                assert(self@ =~= old(self)@);
                Ok(call)
            },
            Err(e) => Err(e),
        }
    }

    /// Opens the VR stereo mode if its lock is free. Where the lock is held the
    /// attempt fails, nothing changes and no guard exists, so that no
    /// native call is made.
    pub fn begin_vr_stereo_mode(&mut self) -> (r: Result<DrawingVr, Error>)
        ensures
            opened(old(self)@, Mode::Vr) matches Some(s) ==> r is Ok && final(self)@ == s
                && r->Ok_0.spec_begin_call() == NativeCall::BeginVrStereoMode,
            opened(old(self)@, Mode::Vr) is None ==> r is Err
                && r->Err_0.is_already_locked("drawing"@) && final(self)@ == old(self)@,
    {
        match self.open_mode(Mode::Vr) {
            Ok(()) => Ok(DrawingVr { token: () }),
            Err(e) => Err(e),
        }
    }

    /// Opens the VR stereo mode, hands the guard to `f`, and ends the mode when
    /// `f` returns, so that the mode cannot outlast the callback. `f`
    /// makes the guard's opening call before it draws; the result is
    /// the closing call, to be made at once. `f` has run on the guard of
    /// the mode that opened. Where the lock is held `f` is not called.
    pub fn draw_vr<F>(&mut self, f: F) -> (r: Result<NativeCall, Error>) where
        F: FnOnce(&mut DrawingVr),
        requires
            forall|g: &mut DrawingVr| #[trigger] f.requires((g,)),
        ensures
            final(self)@ == old(self)@,
            held(old(self)@, ModeLock::Drawing) ==> r is Err
                && r->Err_0.is_already_locked("drawing"@),
            !held(old(self)@, ModeLock::Drawing) ==> r == Ok::<NativeCall, Error>(NativeCall::EndVrStereoMode),
            !held(old(self)@, ModeLock::Drawing) ==> exists|g: &mut DrawingVr|
                g.spec_begin_call() == NativeCall::BeginVrStereoMode && #[trigger] f.ensures((g,), ()),
    {
        match self.begin_vr_stereo_mode() {
            Ok(guard) => {
                let mut guard = guard;
                f(&mut guard);
                let call = guard.end(self);
                assert(self@ =~= old(self)@);
                Ok(call)
            },
            Err(e) => Err(e),
        }
    }

    /// Opens the custom shader mode if its lock is free. Where the lock is held the
    /// attempt fails, nothing changes and no guard exists, so that no
    /// native call is made.
    pub fn begin_shader_mode(&mut self) -> (r: Result<DrawingShaded, Error>)
        ensures
            opened(old(self)@, Mode::Shader) matches Some(s) ==> r is Ok && final(self)@ == s
                && r->Ok_0.spec_begin_call() == NativeCall::BeginShaderMode,
            opened(old(self)@, Mode::Shader) is None ==> r is Err
                && r->Err_0.is_already_locked("drawing"@) && final(self)@ == old(self)@,
    {
        match self.open_mode(Mode::Shader) {
            Ok(()) => Ok(DrawingShaded { token: () }),
            Err(e) => Err(e),
        }
    }

    /// Opens the custom shader mode, hands the guard to `f`, and ends the mode when
    /// `f` returns, so that the mode cannot outlast the callback. `f`
    /// makes the guard's opening call before it draws; the result is
    /// the closing call, to be made at once. `f` has run on the guard of
    /// the mode that opened. Where the lock is held `f` is not called.
    pub fn draw_shader<F>(&mut self, f: F) -> (r: Result<NativeCall, Error>) where
        F: FnOnce(&mut DrawingShaded),
        requires
            forall|g: &mut DrawingShaded| #[trigger] f.requires((g,)),
        ensures
            final(self)@ == old(self)@,
            held(old(self)@, ModeLock::Shaded) ==> r is Err
                && r->Err_0.is_already_locked("drawing"@),
            !held(old(self)@, ModeLock::Shaded) ==> r == Ok::<NativeCall, Error>(NativeCall::EndShaderMode),
            !held(old(self)@, ModeLock::Shaded) ==> exists|g: &mut DrawingShaded|
                g.spec_begin_call() == NativeCall::BeginShaderMode && #[trigger] f.ensures((g,), ()),
    {
        match self.begin_shader_mode() {
            Ok(guard) => {
                let mut guard = guard;
                f(&mut guard);
                let call = guard.end(self);
                assert(self@ =~= old(self)@);
                Ok(call)
            },
            Err(e) => Err(e),
        }
    }

    /// Opens a blend mode if its lock is free. Where the lock is held the
    /// attempt fails, nothing changes and no guard exists, so that no
    /// native call is made.
    pub fn begin_blend_mode(&mut self, mode: BlendMode) -> (r: Result<DrawingBlended, Error>)
        ensures
            opened(old(self)@, Mode::Blend) matches Some(s) ==> r is Ok && final(self)@ == s
                && r->Ok_0.spec_begin_call() == NativeCall::BeginBlendMode(mode),
            opened(old(self)@, Mode::Blend) is None ==> r is Err
                && r->Err_0.is_already_locked("drawing"@) && final(self)@ == old(self)@,
    {
        match self.open_mode(Mode::Blend) {
            Ok(()) => Ok(DrawingBlended { mode }),
            Err(e) => Err(e),
        }
    }

    /// Opens a blend mode, hands the guard to `f`, and ends the mode when
    /// `f` returns, so that the mode cannot outlast the callback. `f`
    /// makes the guard's opening call before it draws; the result is
    /// the closing call, to be made at once. `f` has run on the guard of
    /// the mode that opened. Where the lock is held `f` is not called.
    pub fn draw_blend<F>(&mut self, mode: BlendMode, f: F) -> (r: Result<NativeCall, Error>) where
        F: FnOnce(&mut DrawingBlended),
        requires
            forall|g: &mut DrawingBlended| #[trigger] f.requires((g,)),
        ensures
            final(self)@ == old(self)@,
            held(old(self)@, ModeLock::Blended) ==> r is Err
                && r->Err_0.is_already_locked("drawing"@),
            !held(old(self)@, ModeLock::Blended) ==> r == Ok::<NativeCall, Error>(NativeCall::EndBlendMode),
            !held(old(self)@, ModeLock::Blended) ==> exists|g: &mut DrawingBlended|
                g.spec_begin_call() == NativeCall::BeginBlendMode(mode) && #[trigger] f.ensures((g,), ()),
    {
        match self.begin_blend_mode(mode) {
            Ok(guard) => {
                let mut guard = guard;
                f(&mut guard);
                let call = guard.end(self);
                assert(self@ =~= old(self)@);
                Ok(call)
            },
            Err(e) => Err(e),
        }
    }

    /// Opens the viewport (scissor) mode if its lock is free. Where the lock is held the
    /// attempt fails, nothing changes and no guard exists, so that no
    /// native call is made.
    pub fn begin_viewport_mode(&mut self, x: i32, y: i32, width: i32, height: i32) -> (r: Result<DrawingViewport, Error>)
        ensures
            opened(old(self)@, Mode::Viewport) matches Some(s) ==> r is Ok && final(self)@ == s
                && r->Ok_0.spec_begin_call() == (NativeCall::BeginScissorMode { x, y, width, height }),
            opened(old(self)@, Mode::Viewport) is None ==> r is Err
                && r->Err_0.is_already_locked("drawing"@) && final(self)@ == old(self)@,
    {
        match self.open_mode(Mode::Viewport) {
            Ok(()) => Ok(DrawingViewport { x, y, width, height }),
            Err(e) => Err(e),
        }
    }

    /// Opens the viewport (scissor) mode, hands the guard to `f`, and ends the mode when
    /// `f` returns, so that the mode cannot outlast the callback. `f`
    /// makes the guard's opening call before it draws; the result is
    /// the closing call, to be made at once. `f` has run on the guard of
    /// the mode that opened. Where the lock is held `f` is not called.
    pub fn draw_viewport<F>(&mut self, x: i32, y: i32, width: i32, height: i32, f: F) -> (r: Result<NativeCall, Error>) where
        F: FnOnce(&mut DrawingViewport),
        requires
            forall|g: &mut DrawingViewport| #[trigger] f.requires((g,)),
        ensures
            final(self)@ == old(self)@,
            held(old(self)@, ModeLock::Viewport) ==> r is Err
                && r->Err_0.is_already_locked("drawing"@),
            !held(old(self)@, ModeLock::Viewport) ==> r == Ok::<NativeCall, Error>(NativeCall::EndScissorMode),
            !held(old(self)@, ModeLock::Viewport) ==> exists|g: &mut DrawingViewport|
                g.spec_begin_call() == (NativeCall::BeginScissorMode { x, y, width, height }) && #[trigger] f.ensures((g,), ()),
    {
        match self.begin_viewport_mode(x, y, width, height) {
            Ok(guard) => {
                let mut guard = guard;
                f(&mut guard);
                let call = guard.end(self);
                assert(self@ =~= old(self)@);
                Ok(call)
            },
            Err(e) => Err(e),
        }
    }

}

/// Opening a mode keeps the open modes on different locks.
pub proof fn lemma_opened_exclusive(stack: Seq<Mode>, mode: Mode)
    requires
        exclusive(stack),
    ensures
        opened(stack, mode) matches Some(s) ==> exclusive(s),
{
    if !held(stack, mode.spec_lock()) {
        let s = stack.push(mode);
        assert forall|i: int, j: int| 0 <= i < j < s.len() implies (#[trigger] s[i]).spec_lock()
            != (#[trigger] s[j]).spec_lock() by {
            if j == stack.len() {
                assert(stack[i].spec_lock() != mode.spec_lock());
            } else {
                assert(s[i] == stack[i] && s[j] == stack[j]);
            }
        }
    }
}

/// Ending the innermost mode keeps the open modes on different locks.
pub proof fn lemma_closed_exclusive(stack: Seq<Mode>)
    requires
        exclusive(stack),
        stack.len() > 0,
    ensures
        exclusive(closed(stack)),
{
    let s = stack.drop_last();
    assert forall|i: int, j: int| 0 <= i < j < s.len() implies (#[trigger] s[i]).spec_lock()
        != (#[trigger] s[j]).spec_lock() by {
        assert(s[i] == stack[i] && s[j] == stack[j]);
    }
}

/// A mode that has just opened can end at once: the stack is then as it
/// was before, the call handed back is the mode's own closing call, and
/// the mode can open again.
pub proof fn lemma_open_then_close(stack: Seq<Mode>, mode: Mode)
    requires
        !held(stack, mode.spec_lock()),
    ensures
        opened(stack, mode) is Some,
        opened(stack, mode)->0.last() == mode,
        closed(opened(stack, mode)->0) == stack,
        opened(closed(opened(stack, mode)->0), mode) is Some,
{
    assert(stack.push(mode).drop_last() =~= stack);
}

/// While a mode is open, no mode that needs the same lock can open, and
/// the refused attempt leaves the stack as it is.
pub proof fn lemma_same_lock_refused(stack: Seq<Mode>, first: Mode, second: Mode)
    requires
        opened(stack, first) is Some,
        first.spec_lock() == second.spec_lock(),
    ensures
        opened(opened(stack, first)->0, second) is None,
{
    let s = stack.push(first);
    assert(s[stack.len() as int].spec_lock() == second.spec_lock());
}

/// Once a mode has ended, any mode that needs the same lock can open:
/// only overlap is refused, not reuse.
pub proof fn lemma_reuse_after_close(stack: Seq<Mode>, first: Mode, second: Mode)
    requires
        opened(stack, first) is Some,
        first.spec_lock() == second.spec_lock(),
    ensures
        opened(closed(opened(stack, first)->0), second) is Some,
{
    assert(stack.push(first).drop_last() =~= stack);
}

/// A mode on another lock can open inside an open mode, and then it is
/// the inner one that has to end first.
pub proof fn lemma_nested_is_innermost(stack: Seq<Mode>, outer: Mode, inner: Mode)
    requires
        opened(stack, outer) is Some,
        opened(opened(stack, outer)->0, inner) is Some,
    ensures
        opened(opened(stack, outer)->0, inner)->0.last() == inner,
        closed(opened(opened(stack, outer)->0, inner)->0) == opened(stack, outer)->0,
        closed(opened(opened(stack, outer)->0, inner)->0).last() == outer,
{
    let s = stack.push(outer);
    assert(s.push(inner).drop_last() =~= s);
}

} // verus!
