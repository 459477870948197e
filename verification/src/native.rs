//! The calls that the layer asks of the native library. The layer
//! decides; whoever links the native library performs each call that an
//! operation hands back, at once and in the order given.

use vstd::prelude::*;
use crate::sys::{BlendMode, TraceLogLevel};

verus! {

/// One call into the native library.
#[allow(inconsistent_fields)]
#[derive(Debug, Clone, Copy, PartialEq, Eq, Structural)]
pub enum NativeCall {
    SetTraceLogLevel(TraceLogLevel),
    SetConfigFlags(u32),
    InitWindow { width: u32, height: u32 },
    SetTargetFps(u32),
    SetWindowMinSize { width: u32, height: u32 },
    SetWindowMaxSize { width: u32, height: u32 },
    CloseWindow,
    InitAudioDevice,
    CloseAudioDevice,
    InitPhysics,
    ClosePhysics,
    BeginDrawing,
    EndDrawing,
    BeginMode2D,
    EndMode2D,
    BeginMode3D,
    EndMode3D,
    BeginTextureMode,
    EndTextureMode,
    BeginVrStereoMode,
    EndVrStereoMode,
    BeginShaderMode,
    EndShaderMode,
    BeginBlendMode(BlendMode),
    EndBlendMode,
    BeginScissorMode { x: i32, y: i32, width: i32, height: i32 },
    EndScissorMode,
    SetMousePosition { x: i32, y: i32 },
    PlayAutomationEvent(u32),
}

} // verus!
