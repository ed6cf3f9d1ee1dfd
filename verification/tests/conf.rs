use lokinit::conf::{AppleGfxApi, Conf, Platform};
use lokinit::event::KeyMods;

#[test]
fn default_configuration_is_a_plain_window() {
    let conf = Conf::default();
    assert_eq!(conf.window_title, "");
    assert_eq!((conf.window_width, conf.window_height), (800, 600));
    assert!(!conf.fullscreen);
    assert!(!conf.high_dpi);
    assert_eq!(conf.sample_count, 1);
    assert!(conf.window_resizable);
    assert_eq!(
        conf.platform,
        Platform { apple_gfx_api: AppleGfxApi::OpenGl, swap_interval: None, framebuffer_alpha: false }
    );
    assert_eq!(Platform::default(), conf.platform);
    assert!(conf.is_valid());
}

#[test]
fn configuration_needs_a_window_of_at_least_one_pixel() {
    let mut conf = Conf::default();
    conf.window_width = 1;
    conf.window_height = 1;
    conf.sample_count = 0;
    assert!(conf.is_valid());
    conf.window_width = 0;
    assert!(!conf.is_valid());
    conf.window_width = 1;
    conf.window_height = -600;
    assert!(!conf.is_valid());
    conf.window_height = i32::MAX;
    assert!(conf.is_valid());
}

#[test]
fn configuration_needs_a_sample_count_that_is_not_negative() {
    let mut conf = Conf::default();
    conf.sample_count = -1;
    assert!(!conf.is_valid());
    conf.sample_count = 16;
    assert!(conf.is_valid());
}

#[test]
fn default_key_mods_hold_no_key() {
    assert_eq!(
        KeyMods::default(),
        KeyMods { shift: false, ctrl: false, alt: false, logo: false }
    );
}
