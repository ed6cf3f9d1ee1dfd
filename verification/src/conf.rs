//! Startup configuration.
use vstd::prelude::*;

verus! {

/// Graphics interface requested on Apple platforms.
#[derive(Clone, Copy, Debug, PartialEq, Eq, Structural)]
pub enum AppleGfxApi {
    OpenGl,
    Metal,
}

/// Platform-specific part of the configuration.
#[derive(Clone, Copy, Debug, PartialEq, Eq, Structural)]
pub struct Platform {
    pub apple_gfx_api: AppleGfxApi,
    pub swap_interval: Option<i32>,
    pub framebuffer_alpha: bool,
}

/// What the application asks for at startup. It is read, never changed.
#[derive(Clone, Debug)]
pub struct Conf {
    pub window_title: String,
    pub window_width: i32,
    pub window_height: i32,
    pub fullscreen: bool,
    pub high_dpi: bool,
    pub sample_count: i32,
    pub window_resizable: bool,
    pub platform: Platform,
}

impl Default for Platform {
    fn default() -> (platform: Platform)
        ensures
            platform == (Platform {
                apple_gfx_api: AppleGfxApi::OpenGl,
                swap_interval: None,
                framebuffer_alpha: false,
            }),
    {
        Platform { apple_gfx_api: AppleGfxApi::OpenGl, swap_interval: None, framebuffer_alpha: false }
    }
}

impl Default for Conf {
    /// A resizable window of 800 by 600 pixels without a title, not in
    /// fullscreen or high-DPI mode, without multisampling.
    fn default() -> (conf: Conf)
        ensures
            conf.window_title@.len() == 0,
            conf.window_width == 800,
            conf.window_height == 600,
            !conf.fullscreen,
            !conf.high_dpi,
            conf.sample_count == 1,
            conf.window_resizable,
            conf.platform == (Platform {
                apple_gfx_api: AppleGfxApi::OpenGl,
                swap_interval: None,
                framebuffer_alpha: false,
            }),
            conf.valid(),
    {
        Conf {
            window_title: String::new(),
            window_width: 800,
            window_height: 600,
            fullscreen: false,
            high_dpi: false,
            sample_count: 1,
            window_resizable: true,
            platform: Platform::default(),
        }
    }
}

impl Conf {
    /// A usable configuration asks for a window of at least one pixel each
    /// way and for a sample count that is not negative.
    pub open spec fn valid(&self) -> bool {
        &&& self.window_width >= 1
        &&& self.window_height >= 1
        &&& self.sample_count >= 0
    }

    /// Whether the configuration is usable.
    pub fn is_valid(&self) -> (ok: bool)
        ensures
            ok == self.valid(),
    {
        self.window_width >= 1 && self.window_height >= 1 && self.sample_count >= 0
    }
}

} // verus!
