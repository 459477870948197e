use rraylib::context::{Context, Subsystem};
use rraylib::error::Error;
use rraylib::graphics::{Mode, ModeLock};
use rraylib::native::NativeCall;
use rraylib::sys::BlendMode;

fn started() -> Context {
    let (context, _calls) = rraylib::init(rraylib::Options::default(), false).unwrap();
    context
}

#[test]
fn window_lock_is_exclusive_until_released() {
    let mut context = started();
    let first = context.window().unwrap();
    assert!(matches!(context.window(), Err(Error::ThreadAlreadyLocked("window"))));
    assert!(context.is_held(Subsystem::Window));
    first.end(&mut context);
    assert!(!context.is_held(Subsystem::Window));
    let again = context.window();
    assert!(again.is_ok());
}

#[test]
fn window_needs_an_open_window() {
    let mut context = Context::new();
    assert!(matches!(context.window(), Err(Error::SubsystemNotInitialized("window"))));
    assert!(!context.is_held(Subsystem::Window));
}

#[test]
fn mode_lock_can_be_reused_in_sequence() {
    let mut context = started();
    let mut drawing = context.begin_drawing().unwrap();
    assert_eq!(drawing.begin_call(), NativeCall::BeginDrawing);
    let inner = drawing.begin_mode2d().unwrap();
    assert_eq!(inner.begin_call(), NativeCall::BeginMode2D);
    assert_eq!(drawing.innermost(), Some(Mode::Mode2D));
    assert_eq!(inner.end(&mut drawing), NativeCall::EndMode2D);
    assert_eq!(drawing.depth(), 0);
    let next = drawing.begin_mode3d().unwrap();
    assert_eq!(next.begin_call(), NativeCall::BeginMode3D);
    assert_eq!(next.end(&mut drawing), NativeCall::EndMode3D);
    assert_eq!(drawing.end(&mut context), NativeCall::EndDrawing);
    assert!(!context.is_held(Subsystem::Drawing));
}

#[test]
fn overlapping_modes_of_one_lock_are_refused() {
    let mut context = started();
    let mut drawing = context.begin_drawing().unwrap();
    let inner = drawing.begin_mode2d().unwrap();
    assert!(matches!(drawing.begin_mode3d(), Err(Error::ThreadAlreadyLocked("drawing"))));
    assert!(matches!(drawing.begin_mode2d(), Err(Error::ThreadAlreadyLocked("drawing"))));
    assert!(matches!(drawing.begin_texture_mode(), Err(Error::ThreadAlreadyLocked("drawing"))));
    assert!(matches!(drawing.begin_vr_stereo_mode(), Err(Error::ThreadAlreadyLocked("drawing"))));
    assert_eq!(drawing.depth(), 1);
    assert!(drawing.is_held(ModeLock::Drawing));
    assert!(!drawing.is_held(ModeLock::Blended));
    inner.end(&mut drawing);
    drawing.end(&mut context);
}

#[test]
fn modes_of_other_locks_nest_and_end_innermost_first() {
    let mut context = started();
    let mut drawing = context.begin_drawing().unwrap();
    let shaded = drawing.begin_shader_mode().unwrap();
    let blended = drawing.begin_blend_mode(BlendMode::Additive).unwrap();
    assert_eq!(blended.begin_call(), NativeCall::BeginBlendMode(BlendMode::Additive));
    assert!(matches!(
        drawing.begin_blend_mode(BlendMode::Alpha),
        Err(Error::ThreadAlreadyLocked("drawing"))
    ));
    assert_eq!(drawing.innermost(), Some(Mode::Blend));
    assert_eq!(blended.end(&mut drawing), NativeCall::EndBlendMode);
    assert_eq!(drawing.innermost(), Some(Mode::Shader));
    assert_eq!(shaded.end(&mut drawing), NativeCall::EndShaderMode);
    assert_eq!(drawing.innermost(), None);
    drawing.end(&mut context);
}

#[test]
fn scoped_blend_ends_with_the_callback() {
    let mut context = started();
    let mut drawing = context.begin_drawing().unwrap();
    let mut seen = None;
    let ended = drawing.draw_blend(BlendMode::Multiplied, |guard| {
        seen = Some(guard.begin_call());
    });
    assert_eq!(seen, Some(NativeCall::BeginBlendMode(BlendMode::Multiplied)));
    assert_eq!(ended.unwrap(), NativeCall::EndBlendMode);
    assert_eq!(drawing.depth(), 0);
    assert!(drawing.begin_blend_mode(BlendMode::Alpha).is_ok());
}

#[test]
fn scoped_viewport_is_refused_while_one_is_open() {
    let mut context = started();
    let mut drawing = context.begin_drawing().unwrap();
    let open = drawing.begin_viewport_mode(1, 2, 30, 40).unwrap();
    assert_eq!(
        open.begin_call(),
        NativeCall::BeginScissorMode { x: 1, y: 2, width: 30, height: 40 }
    );
    let mut called = false;
    let refused = drawing.draw_viewport(0, 0, 10, 10, |_guard| {
        called = true;
    });
    assert!(matches!(refused, Err(Error::ThreadAlreadyLocked("drawing"))));
    assert!(!called);
    assert_eq!(drawing.depth(), 1);
    assert_eq!(open.end(&mut drawing), NativeCall::EndScissorMode);
    let mut called = false;
    let ended = drawing.draw_viewport(0, 0, 10, 10, |_guard| {
        called = true;
    });
    assert!(called);
    assert_eq!(ended.unwrap(), NativeCall::EndScissorMode);
}

#[test]
fn drawing_lock_is_exclusive() {
    let mut context = started();
    let drawing = context.begin_drawing().unwrap();
    assert!(matches!(context.begin_drawing(), Err(Error::ThreadAlreadyLocked("drawing"))));
    assert_eq!(drawing.end(&mut context), NativeCall::EndDrawing);
    assert!(context.begin_drawing().is_ok());
}

#[test]
fn audio_is_turned_on_lazily_and_off_at_the_end() {
    let mut context = started();
    let audio = context.audio().unwrap();
    assert_eq!(audio.begin_call(), Some(NativeCall::InitAudioDevice));
    assert!(matches!(context.audio(), Err(Error::ThreadAlreadyLocked("audio"))));
    assert_eq!(audio.end(&mut context), Some(NativeCall::CloseAudioDevice));
    let again = context.audio().unwrap();
    assert_eq!(again.begin_call(), Some(NativeCall::InitAudioDevice));
}

#[test]
fn physics_is_turned_on_lazily_and_off_at_the_end() {
    let mut context = started();
    let physics = context.physics().unwrap();
    assert_eq!(physics.begin_call(), Some(NativeCall::InitPhysics));
    assert!(matches!(context.physics(), Err(Error::ThreadAlreadyLocked("physics"))));
    assert_eq!(physics.end(&mut context), Some(NativeCall::ClosePhysics));
    assert!(context.physics().is_ok());
}

#[test]
fn audio_that_is_on_already_is_not_turned_on_again() {
    let mut context = started();
    context.note(Subsystem::Audio, true);
    assert!(!context.is_held(Subsystem::Audio));
    let audio = context.audio().unwrap();
    assert_eq!(audio.begin_call(), None);
    assert_eq!(audio.end(&mut context), Some(NativeCall::CloseAudioDevice));
    let audio = context.audio().unwrap();
    assert_eq!(audio.begin_call(), Some(NativeCall::InitAudioDevice));
    context.note(Subsystem::Audio, false);
    assert_eq!(audio.end(&mut context), None);
}

#[test]
fn physics_that_is_on_already_is_not_turned_on_again() {
    let mut context = started();
    context.note(Subsystem::Physics, true);
    let physics = context.physics().unwrap();
    assert_eq!(physics.begin_call(), None);
    assert_eq!(physics.end(&mut context), Some(NativeCall::ClosePhysics));
}

#[test]
fn noting_the_window_decides_whether_it_can_be_held() {
    let mut context = Context::new();
    context.note(Subsystem::Window, true);
    let window = context.window().unwrap();
    context.note(Subsystem::Drawing, true);
    assert!(context.is_held(Subsystem::Window));
    assert!(!context.is_held(Subsystem::Drawing));
    window.end(&mut context);
    context.note(Subsystem::Window, false);
    assert!(matches!(context.window(), Err(Error::SubsystemNotInitialized("window"))));
}

#[test]
fn unwinding_ends_the_inner_modes_first() {
    let mut context = started();
    let mut drawing = context.begin_drawing().unwrap();
    let _shaded = drawing.begin_shader_mode().unwrap();
    let _blended = drawing.begin_blend_mode(BlendMode::Alpha).unwrap();
    let _flat = drawing.begin_mode2d().unwrap();
    assert_eq!(drawing.depth(), 3);
    assert_eq!(drawing.unwind_to(5), vec![]);
    assert_eq!(drawing.unwind_to(3), vec![]);
    assert_eq!(drawing.depth(), 3);
    assert_eq!(drawing.unwind_to(1), vec![NativeCall::EndMode2D, NativeCall::EndBlendMode]);
    assert_eq!(drawing.depth(), 1);
    assert_eq!(drawing.innermost(), Some(Mode::Shader));
    assert!(drawing.begin_mode3d().is_ok());
    assert_eq!(drawing.unwind_to(0), vec![NativeCall::EndMode3D, NativeCall::EndShaderMode]);
    assert_eq!(drawing.depth(), 0);
    assert_eq!(drawing.unwind_to(0), vec![]);
    assert_eq!(drawing.end(&mut context), NativeCall::EndDrawing);
}

#[test]
fn finishing_a_frame_ends_its_modes_before_the_frame() {
    let mut context = started();
    let mut drawing = context.begin_drawing().unwrap();
    let _shaded = drawing.begin_shader_mode().unwrap();
    let _view = drawing.begin_viewport_mode(0, 0, 4, 4).unwrap();
    assert_eq!(
        drawing.finish(&mut context),
        vec![NativeCall::EndScissorMode, NativeCall::EndShaderMode, NativeCall::EndDrawing]
    );
    assert!(!context.is_held(Subsystem::Drawing));
    let drawing = context.begin_drawing().unwrap();
    assert_eq!(drawing.finish(&mut context), vec![NativeCall::EndDrawing]);
    assert!(context.begin_drawing().is_ok());
}
