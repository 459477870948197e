//! What the window is opened with, and the opening itself.

use vstd::prelude::*;
use crate::context::Context;
use crate::error::Error;
use crate::native::NativeCall;
use crate::sys::{ConfigFlags, TraceLogLevel};
use crate::text::{contains_nul, has_nul};

verus! {

/// The settings that a window is opened with.
#[derive(Debug)]
pub struct Options {
    pub title: String,
    pub width: u32,
    pub height: u32,
    pub msaa: bool,
    pub vsync: bool,
    pub borderless: bool,
    pub resizable: bool,
    pub decorated: bool,
    pub always_on_top: bool,
    pub fullscreen: bool,
    pub minimized: bool,
    pub maximized: bool,
    pub high_dpi: bool,
    pub target_fps: Option<u32>,
    pub log_level: TraceLogLevel,
    pub max_width: Option<u32>,
    pub max_height: Option<u32>,
}

/// The bit of `flag` where `wanted` holds, and no bit otherwise.
pub open spec fn flag_if(wanted: bool, flag: ConfigFlags) -> u32 {
    if wanted {
        flag.spec_value()
    } else {
        0
    }
}

impl Options {
    /// The configuration flags that the options ask for, as one word
    /// with a bit for each. A window that is to stay on top asks for the
    /// flag that keeps it running while minimized.
    pub open spec fn spec_config_flags(&self) -> u32 {
        flag_if(self.msaa, ConfigFlags::Msaa4X) | flag_if(self.vsync, ConfigFlags::Vsync) | flag_if(
            self.borderless,
            ConfigFlags::Borderless,
        ) | flag_if(self.resizable, ConfigFlags::Resizable) | flag_if(
            !self.decorated,
            ConfigFlags::Undecorated,
        ) | flag_if(self.always_on_top, ConfigFlags::AlwaysRun) | flag_if(
            self.fullscreen,
            ConfigFlags::Fullscreen,
        ) | flag_if(self.minimized, ConfigFlags::Minimized) | flag_if(
            self.maximized,
            ConfigFlags::Maximized,
        ) | flag_if(self.high_dpi, ConfigFlags::HighDPI)
    }

    /// The native calls that open the window, in their order: the log
    /// level, the flags, the window, the frame rate if one is asked for,
    /// and the largest size, which is the largest number where none is
    /// given.
    pub open spec fn spec_startup_calls(&self) -> Seq<NativeCall> {
        let head = seq![
            NativeCall::SetTraceLogLevel(self.log_level),
            NativeCall::SetConfigFlags(self.spec_config_flags()),
            (NativeCall::InitWindow { width: self.width, height: self.height }),
        ];
        let fps = match self.target_fps {
            Some(fps) => seq![NativeCall::SetTargetFps(fps)],
            None => Seq::<NativeCall>::empty(),
        };
        let max_width = match self.max_width {
            Some(w) => w,
            None => u32::MAX,
        };
        let max_height = match self.max_height {
            Some(h) => h,
            None => u32::MAX,
        };
        head + fps + seq![(NativeCall::SetWindowMaxSize { width: max_width, height: max_height })]
    }

    fn flag(wanted: bool, flag: ConfigFlags) -> (r: u32)
        ensures
            r == flag_if(wanted, flag),
    {
        if wanted {
            flag.value()
        } else {
            0
        }
    }

    pub fn config_flags(&self) -> (r: u32)
        ensures
            r == self.spec_config_flags(),
    {
        Self::flag(self.msaa, ConfigFlags::Msaa4X) | Self::flag(self.vsync, ConfigFlags::Vsync)
            | Self::flag(self.borderless, ConfigFlags::Borderless) | Self::flag(
            self.resizable,
            ConfigFlags::Resizable,
        ) | Self::flag(!self.decorated, ConfigFlags::Undecorated) | Self::flag(
            self.always_on_top,
            ConfigFlags::AlwaysRun,
        ) | Self::flag(self.fullscreen, ConfigFlags::Fullscreen) | Self::flag(
            self.minimized,
            ConfigFlags::Minimized,
        ) | Self::flag(self.maximized, ConfigFlags::Maximized) | Self::flag(
            self.high_dpi,
            ConfigFlags::HighDPI,
        )
    }

    pub fn startup_calls(&self) -> (r: Vec<NativeCall>)
        ensures
            r@ == self.spec_startup_calls(),
    {
        let mut calls: Vec<NativeCall> = Vec::new();
        calls.push(NativeCall::SetTraceLogLevel(self.log_level));
        calls.push(NativeCall::SetConfigFlags(self.config_flags()));
        calls.push(NativeCall::InitWindow { width: self.width, height: self.height });
        match self.target_fps {
            Some(fps) => {
                calls.push(NativeCall::SetTargetFps(fps));
            },
            None => {},
        }
        let max_width: u32 = match self.max_width {
            Some(w) => w,
            None => u32::MAX,
        };
        let max_height: u32 = match self.max_height {
            Some(h) => h,
            None => u32::MAX,
        };
        calls.push(NativeCall::SetWindowMaxSize { width: max_width, height: max_height });
        assert(calls@ =~= self.spec_startup_calls());
        calls
    }
}

impl Default for Options {
    /// A decorated window of 800 by 600 with vertical sync, which logs
    /// warnings and worse.
    fn default() -> (r: Self)
        ensures
            r.title@ == "rraylib v5.5"@,
            r.width == 800 && r.height == 600,
            r.vsync && r.decorated,
            !r.msaa && !r.borderless && !r.resizable && !r.always_on_top && !r.fullscreen
                && !r.minimized && !r.maximized && !r.high_dpi,
            r.target_fps is None && r.max_width is None && r.max_height is None,
            r.log_level == TraceLogLevel::Warning,
    {
        Options {
            title: "rraylib v5.5".to_owned(),
            width: 800,
            height: 600,
            msaa: false,
            vsync: true,
            borderless: false,
            resizable: false,
            decorated: true,
            always_on_top: false,
            fullscreen: false,
            minimized: false,
            maximized: false,
            high_dpi: false,
            target_fps: None,
            log_level: TraceLogLevel::Warning,
            max_width: None,
            max_height: None,
        }
    }
}

/// Opens the window. `window_ready` is what the native library says of
/// whether a window is open already: if one is, nothing is opened a
/// second time. A title with a zero byte is refused. Otherwise the result
/// is the context, with all locks free, and the native calls that open
/// the window.
pub fn init(options: Options, window_ready: bool) -> (r: Result<(Context, Vec<NativeCall>), Error>)
    ensures
        window_ready ==> r is Err && r->Err_0.is_already_initialized("window"@),
        !window_ready && contains_nul(vstd::utf8::encode_utf8(options.title@)) ==> r is Err && r->Err_0
            == Error::Nul,
        !window_ready && !contains_nul(vstd::utf8::encode_utf8(options.title@)) ==> r is Ok && r->Ok_0.0@
            == Context::fresh(true) && r->Ok_0.1@ == options.spec_startup_calls(),
{
    if window_ready {
        return Err(Error::SubsystemAlreadyInitialized("window"));
    }
    if has_nul(options.title.as_str()) {
        return Err(Error::Nul);
    }
    let calls = options.startup_calls();
    Ok((Context::started(), calls))
}

impl Options {
    /// Whether the options ask for `flag`. A window that is to stay on
    /// top asks for the flag that keeps it running while minimized; the
    /// flags that no option stands for are never asked for.
    pub open spec fn asks_for(&self, flag: ConfigFlags) -> bool {
        match flag {
            ConfigFlags::Msaa4X => self.msaa,
            ConfigFlags::Vsync => self.vsync,
            ConfigFlags::Borderless => self.borderless,
            ConfigFlags::Resizable => self.resizable,
            ConfigFlags::Undecorated => !self.decorated,
            ConfigFlags::AlwaysRun => self.always_on_top,
            ConfigFlags::Fullscreen => self.fullscreen,
            ConfigFlags::Minimized => self.minimized,
            ConfigFlags::Maximized => self.maximized,
            ConfigFlags::HighDPI => self.high_dpi,
            _ => false,
        }
    }
}

/// In a word put together from ten bits that are each set or not, a bit
/// is set exactly if it was put in.
proof fn lemma_bits(a: u32, b: u32, c: u32, d: u32, e: u32, f: u32, g: u32, h: u32, i: u32, j: u32, m: u32)
    requires
        a == 0 || a == 32,
        b == 0 || b == 64,
        c == 0 || c == 32768,
        d == 0 || d == 4,
        e == 0 || e == 8,
        f == 0 || f == 256,
        g == 0 || g == 2,
        h == 0 || h == 512,
        i == 0 || i == 1024,
        j == 0 || j == 8192,
        m == (a | b | c | d | e | f | g | h | i | j),
    ensures
        (m & 32 != 0) == (a != 0),
        (m & 64 != 0) == (b != 0),
        (m & 32768 != 0) == (c != 0),
        (m & 4 != 0) == (d != 0),
        (m & 8 != 0) == (e != 0),
        (m & 256 != 0) == (f != 0),
        (m & 2 != 0) == (g != 0),
        (m & 512 != 0) == (h != 0),
        (m & 1024 != 0) == (i != 0),
        (m & 8192 != 0) == (j != 0),
        m & 128 == 0,
        m & 2048 == 0,
        m & 4096 == 0,
        m & 16 == 0,
        m & 16384 == 0,
        m & 65536 == 0,
{
    assert((m & 32 != 0) == (a != 0) && (m & 64 != 0) == (b != 0) && (m & 32768 != 0) == (c != 0) && (m
        & 4 != 0) == (d != 0) && (m & 8 != 0) == (e != 0) && (m & 256 != 0) == (f != 0) && (m & 2 != 0)
        == (g != 0) && (m & 512 != 0) == (h != 0) && (m & 1024 != 0) == (i != 0) && (m & 8192 != 0) == (j
        != 0) && m & 128 == 0 && m & 2048 == 0 && m & 4096 == 0 && m & 16 == 0 && m & 16384 == 0 && m
        & 65536 == 0) by (bit_vector)
        requires
            a == 0 || a == 32,
            b == 0 || b == 64,
            c == 0 || c == 32768,
            d == 0 || d == 4,
            e == 0 || e == 8,
            f == 0 || f == 256,
            g == 0 || g == 2,
            h == 0 || h == 512,
            i == 0 || i == 1024,
            j == 0 || j == 8192,
            m == (a | b | c | d | e | f | g | h | i | j),
    ;
}

/// The bit of a flag is set in the word of flags exactly if the options
/// ask for the flag.
pub proof fn lemma_flag_set_iff_asked(options: Options, flag: ConfigFlags)
    ensures
        (options.spec_config_flags() & flag.spec_value() != 0) == options.asks_for(flag),
{
    lemma_bits(
        flag_if(options.msaa, ConfigFlags::Msaa4X),
        flag_if(options.vsync, ConfigFlags::Vsync),
        flag_if(options.borderless, ConfigFlags::Borderless),
        flag_if(options.resizable, ConfigFlags::Resizable),
        flag_if(!options.decorated, ConfigFlags::Undecorated),
        flag_if(options.always_on_top, ConfigFlags::AlwaysRun),
        flag_if(options.fullscreen, ConfigFlags::Fullscreen),
        flag_if(options.minimized, ConfigFlags::Minimized),
        flag_if(options.maximized, ConfigFlags::Maximized),
        flag_if(options.high_dpi, ConfigFlags::HighDPI),
        options.spec_config_flags(),
    );
}

} // verus!
