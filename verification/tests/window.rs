use rraylib::automation::Automation;
use rraylib::context::{Context, Subsystem};
use rraylib::display::{Monitor, MonitorInfo, WindowInfo};
use rraylib::error::Error;
use rraylib::native::NativeCall;
use rraylib::options::{init, Options};
use rraylib::pkg::{physac, raygui, raylib, Pkg};
use rraylib::sys::{
    rlBlendMode, rlCullMode, rlFramebufferAttachTextureType, rlFramebufferAttachType, rlGlVersion,
    rlPixelFormat, rlShaderAttributeDataType, rlShaderLocationIndex, rlShaderUniformDataType,
    rlTextureFilter, rlTraceLogLevel, BlendMode, CameraProjection, ConfigFlags, LogLevel,
    TraceLogLevel, WindowFlags,
};
use rraylib::text::{checked, checked_bytes, has_nul, has_nul_bytes};

fn info(n: u32) -> MonitorInfo {
    MonitorInfo {
        width: 1920 + n,
        height: 1080 + n,
        render_width: 1280 + n,
        render_height: 720 + n,
        physical_width: 510 + n,
        physical_height: 290 + n,
        x: -5 - n as i32,
        y: 7 + n as i32,
        refresh_rate: 60,
    }
}

#[test]
fn default_options() {
    let o = Options::default();
    assert_eq!(o.title, "rraylib v5.5");
    assert_eq!((o.width, o.height), (800, 600));
    assert!(o.vsync && o.decorated);
    assert!(!o.msaa && !o.borderless && !o.resizable && !o.always_on_top);
    assert!(!o.fullscreen && !o.minimized && !o.maximized && !o.high_dpi);
    assert_eq!(o.target_fps, None);
    assert_eq!(o.max_width, None);
    assert_eq!(o.max_height, None);
    assert_eq!(o.log_level, LogLevel::Warning);
    assert_eq!(o.config_flags(), 64);
}

#[test]
fn each_option_sets_its_flag() {
    let mut o = Options::default();
    o.vsync = false;
    assert_eq!(o.config_flags(), 0);
    o.msaa = true;
    assert_eq!(o.config_flags(), 32);
    o.borderless = true;
    assert_eq!(o.config_flags(), 32 | 32768);
    o.resizable = true;
    assert_eq!(o.config_flags(), 32 | 32768 | 4);
    o.decorated = false;
    assert_eq!(o.config_flags(), 32 | 32768 | 4 | 8);
    o.always_on_top = true;
    assert_eq!(o.config_flags(), 32 | 32768 | 4 | 8 | 256);
    o.fullscreen = true;
    assert_eq!(o.config_flags(), 32 | 32768 | 4 | 8 | 256 | 2);
    o.minimized = true;
    assert_eq!(o.config_flags(), 32 | 32768 | 4 | 8 | 256 | 2 | 512);
    o.maximized = true;
    assert_eq!(o.config_flags(), 32 | 32768 | 4 | 8 | 256 | 2 | 512 | 1024);
    o.high_dpi = true;
    assert_eq!(o.config_flags(), 32 | 32768 | 4 | 8 | 256 | 2 | 512 | 1024 | 8192);
    o.vsync = true;
    assert_eq!(o.config_flags(), 32 | 32768 | 4 | 8 | 256 | 2 | 512 | 1024 | 8192 | 64);
}

#[test]
fn init_opens_the_window_once() {
    let (mut context, calls) = init(Options::default(), false).unwrap();
    assert_eq!(
        calls,
        vec![
            NativeCall::SetTraceLogLevel(TraceLogLevel::Warning),
            NativeCall::SetConfigFlags(64),
            NativeCall::InitWindow { width: 800, height: 600 },
            NativeCall::SetWindowMaxSize { width: u32::MAX, height: u32::MAX },
        ]
    );
    for s in [Subsystem::Window, Subsystem::Drawing, Subsystem::Audio, Subsystem::Physics] {
        assert!(!context.is_held(s));
    }
    assert!(context.window().is_ok());
    assert!(matches!(
        init(Options::default(), true),
        Err(Error::SubsystemAlreadyInitialized("window"))
    ));
}

#[test]
fn init_with_frame_rate_and_largest_size() {
    let mut o = Options::default();
    o.width = 320;
    o.height = 200;
    o.target_fps = Some(30);
    o.max_width = Some(1000);
    o.log_level = TraceLogLevel::Off;
    o.title = String::from("demo");
    let (_context, calls) = init(o, false).unwrap();
    assert_eq!(
        calls,
        vec![
            NativeCall::SetTraceLogLevel(TraceLogLevel::Off),
            NativeCall::SetConfigFlags(64),
            NativeCall::InitWindow { width: 320, height: 200 },
            NativeCall::SetTargetFps(30),
            NativeCall::SetWindowMaxSize { width: 1000, height: u32::MAX },
        ]
    );
}

#[test]
fn init_refuses_a_title_with_a_zero_byte() {
    let mut o = Options::default();
    o.title = String::from("de\0mo");
    assert!(matches!(init(o, false), Err(Error::Nul)));
    let mut o = Options::default();
    o.title = String::from("de\0mo");
    assert!(matches!(init(o, true), Err(Error::SubsystemAlreadyInitialized("window"))));
}

#[test]
fn zero_bytes_are_found() {
    assert!(!has_nul(""));
    assert!(!has_nul("assets/ship.png"));
    assert!(has_nul("\0"));
    assert!(has_nul("assets\0/ship.png"));
    assert!(has_nul("ship.png\0"));
    assert!(checked("ship.png").is_ok());
    assert!(matches!(checked("ship\0.png"), Err(Error::Nul)));
}

#[test]
fn window_reports_what_it_was_told() {
    let (mut context, _) = init(Options::default(), false).unwrap();
    let mut window = context.window().unwrap();
    assert!(window.is_ready());
    let monitor = Monitor { index: 1, info: info(1) };
    window.update(WindowInfo {
        width: 800,
        height: 600,
        render_width: 1600,
        render_height: 1200,
        monitor,
    });
    assert_eq!(window.width(), 800);
    assert_eq!(window.height(), 600);
    assert_eq!(window.size(), (800, 600));
    assert_eq!(window.render_size(), (1600, 1200));
    assert_eq!(window.monitor(), monitor);
    assert_eq!(window.monitor().index, 1);
}

#[test]
fn window_size_limits() {
    let (mut context, _) = init(Options::default(), false).unwrap();
    let mut window = context.window().unwrap();
    assert_eq!(window.set_min_size(3, 4), NativeCall::SetWindowMinSize { width: 3, height: 4 });
    assert_eq!(window.set_min_width(320), NativeCall::SetWindowMinSize { width: 320, height: 0 });
    assert_eq!(window.set_min_height(200), NativeCall::SetWindowMinSize { width: 0, height: 200 });
    assert_eq!(window.set_max_size(5, 6), NativeCall::SetWindowMaxSize { width: 5, height: 6 });
    assert_eq!(window.set_max_width(1920), NativeCall::SetWindowMaxSize { width: 1920, height: 0 });
    assert_eq!(
        window.set_max_height(1080),
        NativeCall::SetWindowMaxSize { width: 0, height: 1080 }
    );
}

#[test]
fn closed_window_is_not_ready_any_more() {
    let (mut context, _) = init(Options::default(), false).unwrap();
    let mut window = context.window().unwrap();
    assert_eq!(window.close(), Some(NativeCall::CloseWindow));
    assert!(!window.is_ready());
    assert_eq!(window.close(), None);
    window.end(&mut context);
    assert!(!context.is_held(Subsystem::Window));
    assert!(matches!(context.window(), Err(Error::SubsystemNotInitialized("window"))));
}

#[test]
fn monitors_are_numbered_in_order() {
    let monitors = Monitor::all(&vec![info(0), info(1), info(2)]);
    assert_eq!(monitors.len(), 3);
    for (i, m) in monitors.iter().enumerate() {
        let n = i as u32;
        assert_eq!(m.index, n);
        assert_eq!(m.info, info(n));
        assert_eq!(m.width(), 1920 + n);
        assert_eq!(m.height(), 1080 + n);
        assert_eq!(m.size(), (1920 + n, 1080 + n));
        assert_eq!(m.render_size(), (1280 + n, 720 + n));
        assert_eq!(m.physical_size(), (510 + n, 290 + n));
        assert_eq!(m.position(), (-5 - i as i32, 7 + i as i32));
        assert_eq!(m.x(), -5 - i as i32);
        assert_eq!(m.y(), 7 + i as i32);
    }
    assert!(Monitor::all(&vec![]).is_empty());
}

#[test]
fn playback_runs_through_the_list_once() {
    let mut list = Automation::new(16, 3);
    assert_eq!(list.count(), 3);
    assert_eq!(list.capacity(), 16);
    let mut playback = list.play();
    assert!(playback.is_playing());
    assert!(!playback.is_finished());
    assert_eq!(playback.update(), Some(NativeCall::PlayAutomationEvent(0)));
    assert_eq!(playback.update(), Some(NativeCall::PlayAutomationEvent(1)));
    assert!(playback.is_playing());
    assert_eq!(playback.update(), Some(NativeCall::PlayAutomationEvent(2)));
    assert!(playback.is_finished());
    assert!(!playback.is_playing());
    assert_eq!(playback.update(), None);
    assert_eq!(playback.update(), None);
    playback.reset();
    assert!(playback.is_playing());
    assert_eq!(playback.update(), Some(NativeCall::PlayAutomationEvent(0)));
}

#[test]
fn playback_of_an_empty_list_is_finished() {
    let mut list = Automation::new(8, 0);
    let mut playback = list.play();
    assert!(playback.is_finished());
    assert_eq!(playback.update(), None);
    playback.reset();
    assert!(playback.is_finished());
}

#[test]
fn release_addresses() {
    assert_eq!(
        raylib().release_url(),
        "https://github.com/raysan5/raylib/archive/refs/tags/5.5.zip"
    );
    assert_eq!(
        raygui().release_url(),
        "https://github.com/raysan5/raygui/archive/refs/tags/4.0.zip"
    );
    assert_eq!(
        physac().release_url(),
        "https://github.com/victorfisac/Physac/archive/refs/tags/1.1.zip"
    );
    assert_eq!(raylib().directory(), "raylib-5.5");
    let other = Pkg { dev: "a", name: "b", version: "c" };
    assert_eq!(other.release_url(), "https://github.com/a/b/archive/refs/tags/c.zip");
    assert_eq!(other.directory(), "b-c");
}

#[test]
fn native_values_of_the_flags() {
    assert_eq!(ConfigFlags::Vsync.value(), 64);
    assert_eq!(ConfigFlags::Fullscreen.value(), 2);
    assert_eq!(ConfigFlags::Resizable.value(), 4);
    assert_eq!(ConfigFlags::Undecorated.value(), 8);
    assert_eq!(ConfigFlags::Hidden.value(), 128);
    assert_eq!(ConfigFlags::Minimized.value(), 512);
    assert_eq!(ConfigFlags::Maximized.value(), 1024);
    assert_eq!(ConfigFlags::Unfocused.value(), 2048);
    assert_eq!(WindowFlags::AlwaysOnTop.value(), 4096);
    assert_eq!(WindowFlags::AlwaysRun.value(), 256);
    assert_eq!(WindowFlags::Transparent.value(), 16);
    assert_eq!(WindowFlags::HighDPI.value(), 8192);
    assert_eq!(WindowFlags::MousePassthrough.value(), 16384);
    assert_eq!(WindowFlags::Borderless.value(), 32768);
    assert_eq!(WindowFlags::Msaa4X.value(), 32);
    assert_eq!(WindowFlags::Interlaced.value(), 65536);
    assert_eq!(TraceLogLevel::All.value(), 0);
    assert_eq!(TraceLogLevel::Debug.value(), 2);
    assert_eq!(TraceLogLevel::Off.value(), 7);
    assert_eq!(BlendMode::Alpha.value(), 0);
    assert_eq!(BlendMode::CustomSeparate.value(), 7);
    assert_eq!(CameraProjection::Orthographic.value(), 1);
}

#[test]
fn error_messages() {
    assert_eq!(
        Error::SubsystemNotInitialized("window").message(),
        "window subsystem has not yet been initialized"
    );
    assert_eq!(
        Error::SubsystemAlreadyInitialized("window").message(),
        "window subsystem has already been initialized"
    );
    assert_eq!(Error::UnableToLoad("texture").message(), "Unable to load texture");
    assert_eq!(
        Error::ThreadAlreadyLocked("drawing").message(),
        "Can't acquire drawing lock as another thread already holds it"
    );
    assert_eq!(
        Error::OperationNotSupported { verb: "gradient drawing", noun: "horizontal gradients" }
            .message(),
        "gradient drawing operation not supported by horizontal gradients"
    );
    assert_eq!(Error::Generic(String::from("plain")).message(), "plain");
    assert_eq!(Error::from(String::from("plain")).message(), "plain");
    assert!(!Error::Nul.message().is_empty());
    assert!(!Error::Utf8.message().is_empty());
    assert!(!Error::Io.message().is_empty());
}

#[test]
fn fresh_context_holds_nothing() {
    let context = Context::new();
    for s in [Subsystem::Window, Subsystem::Drawing, Subsystem::Audio, Subsystem::Physics] {
        assert!(!context.is_held(s));
    }
    assert_eq!(Subsystem::Window.name(), "window");
    assert_eq!(Subsystem::Drawing.name(), "drawing");
    assert_eq!(Subsystem::Audio.name(), "audio");
    assert_eq!(Subsystem::Physics.name(), "physics");
}

#[test]
fn zero_bytes_are_found_in_bytes_that_are_no_text() {
    assert!(!has_nul_bytes(&[]));
    assert!(!has_nul_bytes(&[0xff, 0xfe, b'a']));
    assert!(has_nul_bytes(&[0xff, 0, b'a']));
    assert!(has_nul_bytes(&[0]));
    assert!(has_nul_bytes(&[b'a', b'b', 0]));
    assert!(checked_bytes(&[0xff, b'/', b'a']).is_ok());
    assert!(checked_bytes(b"assets/ship.png").is_ok());
    assert!(matches!(checked_bytes(&[0xff, 0]), Err(Error::Nul)));
}

#[test]
fn error_from_a_text() {
    let e = Error::from("out of luck");
    assert!(matches!(&e, Error::Generic(text) if text == "out of luck"));
    assert_eq!(e.message(), "out of luck");
    assert_eq!(Error::from("").message(), "");
}

#[test]
fn native_values_of_the_low_level_layer() {
    assert_eq!(rlGlVersion::RlOpengl11.value(), 1);
    assert_eq!(rlGlVersion::RlOpengl33.value(), 3);
    assert_eq!(rlTraceLogLevel::RlLogAll.value(), 0);
    assert_eq!(rlTraceLogLevel::RlLogNone.value(), 7);
    assert_eq!(rlPixelFormat::RlPixelformatUncompressedGrayscale.value(), 1);
    assert_eq!(rlTextureFilter::RlTextureFilterTrilinear.value(), 2);
    assert_eq!(rlBlendMode::RlBlendMultiplied.value(), 2);
    assert_eq!(rlShaderLocationIndex::RlShaderLocVertexPosition.value(), 0);
    assert_eq!(rlShaderUniformDataType::RlShaderUniformVec3.value(), 2);
    assert_eq!(rlShaderAttributeDataType::RlShaderAttribVec2.value(), 1);
    assert_eq!(rlFramebufferAttachType::RlAttachmentColorChannel2.value(), 2);
    assert_eq!(rlFramebufferAttachTextureType::RlAttachmentCubemapPositiveY.value(), 2);
    assert_eq!(rlCullMode::RlCullFaceFront.value(), 0);
    assert_eq!(rlCullMode::RlCullFaceBack.value(), 1);
}
