use lokinit::conf::{AppleGfxApi, Conf};
use lokinit::event::{Callback, CursorIcon, KeyMods, MouseButton};
use lokinit::native::lifecycle::{Lifecycle, Step};
use lokinit::native::macos::{
    create_opengl_view, cursor_index, fire_mouse_event, key_down, key_up, MacosDisplay,
};
use lokinit::native::DPI_SCALE_ONE;

const SHIFT: KeyMods = KeyMods { shift: true, ctrl: false, alt: false, logo: false };

#[test]
fn opengl_view_without_multisampling() {
    for sample_count in [0, 1, -4, i32::MIN] {
        let request = create_opengl_view(sample_count, false);
        assert_eq!(
            request.attributes,
            vec![73, 5, 99, 0x3200, 8, 24, 11, 8, 12, 24, 13, 8, 55, 0, 0]
        );
        assert!(!request.wants_best_resolution);
    }
}

#[test]
fn opengl_view_with_multisampling() {
    let request = create_opengl_view(4, true);
    assert_eq!(
        request.attributes,
        vec![73, 5, 99, 0x3200, 8, 24, 11, 8, 12, 24, 13, 8, 59, 55, 1, 56, 4, 0]
    );
    assert!(request.wants_best_resolution);
    let request = create_opengl_view(2, false);
    assert_eq!(request.attributes[12..], [59, 55, 1, 56, 2, 0]);
    let request = create_opengl_view(i32::MAX, false);
    assert_eq!(request.attributes[12..], [59, 55, 1, 56, 0x7FFF_FFFF, 0]);
}

#[test]
fn mouse_events_for_down_and_up() {
    let x = 10.0f32.to_bits();
    let y = 20.0f32.to_bits();
    assert_eq!(
        fire_mouse_event(true, MouseButton::Left, x, y),
        Callback::MouseButtonDown { button: MouseButton::Left, x, y }
    );
    assert_eq!(
        fire_mouse_event(false, MouseButton::Right, x, y),
        Callback::MouseButtonUp { button: MouseButton::Right, x, y }
    );
    assert_eq!(
        fire_mouse_event(true, MouseButton::Middle, 0, 0),
        Callback::MouseButtonDown { button: MouseButton::Middle, x: 0, y: 0 }
    );
}

#[test]
fn key_down_comes_before_its_character() {
    assert_eq!(
        key_down(Some(12), Some(0x71), SHIFT, true),
        vec![
            Callback::KeyDown { keycode: 12, mods: SHIFT, repeat: true },
            Callback::Char { character: 'q', mods: SHIFT, repeat: true },
        ]
    );
}

#[test]
fn key_down_without_code_or_character() {
    assert_eq!(
        key_down(Some(12), None, SHIFT, false),
        vec![Callback::KeyDown { keycode: 12, mods: SHIFT, repeat: false }]
    );
    assert_eq!(
        key_down(None, Some(0x41), SHIFT, false),
        vec![Callback::Char { character: 'A', mods: SHIFT, repeat: false }]
    );
    assert_eq!(key_down(None, None, SHIFT, false), vec![]);
    assert_eq!(
        key_down(Some(1), Some(0xD800), SHIFT, false),
        vec![Callback::KeyDown { keycode: 1, mods: SHIFT, repeat: false }]
    );
}

#[test]
fn key_up_needs_a_code() {
    assert_eq!(key_up(Some(12), SHIFT), Some(Callback::KeyUp { keycode: 12, mods: SHIFT }));
    assert_eq!(key_up(None, SHIFT), None);
}

#[test]
fn new_macos_display_follows_the_configuration() {
    let mut conf = Conf::default();
    conf.high_dpi = true;
    conf.platform.apple_gfx_api = AppleGfxApi::Metal;
    let display = MacosDisplay::new(&conf);
    assert!(display.high_dpi());
    assert_eq!(display.apple_gfx_api(), AppleGfxApi::Metal);
    assert_eq!(display.screen_size(), (1, 1));
    assert_eq!(display.dpi_scale(), DPI_SCALE_ONE);
    assert!(!display.fullscreen);
    assert!(display.cursor_shown);
    assert_eq!(display.current_cursor, CursorIcon::Default);
    assert!(display.cursors.is_empty());
    assert_eq!(display.cached_cursor(), None);
}

#[test]
fn macos_quit_flags() {
    let mut display = MacosDisplay::new(&Conf::default());
    display.request_quit();
    assert!(display.data.quit_requested());
    display.cancel_quit();
    assert!(!display.data.quit_requested());
    display.order_quit();
    assert!(display.data.quit_ordered());
    display.cancel_quit();
    assert!(display.data.quit_ordered());
}

#[test]
fn show_mouse_keeps_hide_and_unhide_balanced() {
    let mut display = MacosDisplay::new(&Conf::default());
    let mut hidden: i32 = 0;
    for show in [true, false, false, false, true, true, false, true] {
        match display.show_mouse(show) {
            Some(true) => hidden -= 1,
            Some(false) => hidden += 1,
            None => {}
        }
        assert_eq!(display.cursor_shown, show);
        assert_eq!(hidden, if show { 0 } else { 1 });
    }
    assert_eq!(display.show_mouse(true), None);
    assert_eq!(display.show_mouse(false), Some(false));
    assert_eq!(display.show_mouse(false), None);
    assert_eq!(display.show_mouse(true), Some(true));
}

#[test]
fn set_mouse_cursor_invalidates_only_on_change() {
    let mut display = MacosDisplay::new(&Conf::default());
    assert!(!display.set_mouse_cursor(CursorIcon::Default));
    assert!(display.set_mouse_cursor(CursorIcon::Crosshair));
    assert_eq!(display.current_cursor, CursorIcon::Crosshair);
    assert!(!display.set_mouse_cursor(CursorIcon::Crosshair));
    assert!(display.set_mouse_cursor(CursorIcon::Default));
}

#[test]
fn set_fullscreen_toggles_only_on_change() {
    let mut display = MacosDisplay::new(&Conf::default());
    assert!(!display.set_fullscreen(false));
    assert!(display.set_fullscreen(true));
    assert!(display.fullscreen);
    assert!(!display.set_fullscreen(true));
    display.window_did_exit_fullscreen();
    assert!(!display.fullscreen);
    assert!(display.set_fullscreen(true));
    display.window_did_enter_fullscreen();
    assert!(display.fullscreen);
    assert!(!display.set_fullscreen(true));
    assert!(display.set_fullscreen(false));
}

#[test]
fn empty_clipboard_has_no_text() {
    let display = MacosDisplay::new(&Conf::default());
    assert_eq!(display.clipboard_get(String::new()), None);
    assert_eq!(display.clipboard_get(String::from("text")), Some(String::from("text")));
    assert_eq!(display.clipboard_get(String::from(" ")), Some(String::from(" ")));
}

#[test]
fn update_scale_and_dimensions() {
    let mut conf = Conf::default();
    conf.high_dpi = true;
    let mut display = MacosDisplay::new(&conf);
    let mut lifecycle = Lifecycle::new();
    let scale = f32::from_bits(display.update_scale(2.0f32.to_bits()));
    assert_eq!(scale, 2.0);
    let size = ((800.0 * scale) as i32, (600.0 * scale) as i32);
    assert_eq!(display.update_dimensions(&lifecycle, size), (true, vec![]));
    assert_eq!(display.screen_size(), (1600, 1200));
    lifecycle.create_window().unwrap();
    lifecycle.create_context().unwrap();
    lifecycle.start(&display.data).unwrap();
    assert_eq!(display.update_dimensions(&lifecycle, size), (false, vec![]));
    assert_eq!(
        display.update_dimensions(&lifecycle, (0, 10)),
        (true, vec![Step::Invoke(Callback::Resize { width: 1, height: 10 })])
    );
    assert_eq!(display.screen_size(), (1, 10));
    let mut plain = MacosDisplay::new(&Conf::default());
    assert_eq!(f32::from_bits(plain.update_scale(2.0f32.to_bits())), 1.0);
    assert_eq!(
        plain.update_dimensions(&lifecycle, (800, 600)),
        (true, vec![Step::Invoke(Callback::Resize { width: 800, height: 600 })])
    );
}

#[test]
fn cursor_places_are_distinct() {
    let icons = [
        CursorIcon::Default,
        CursorIcon::Help,
        CursorIcon::Pointer,
        CursorIcon::Wait,
        CursorIcon::Crosshair,
        CursorIcon::Text,
        CursorIcon::Move,
        CursorIcon::NotAllowed,
        CursorIcon::EWResize,
        CursorIcon::NSResize,
        CursorIcon::NESWResize,
        CursorIcon::NWSEResize,
    ];
    for (place, icon) in icons.iter().enumerate() {
        assert_eq!(cursor_index(*icon), place as u64);
    }
}

#[test]
fn cursors_are_loaded_once_per_icon() {
    let mut display = MacosDisplay::new(&Conf::default());
    assert_eq!(display.cached_cursor(), None);
    display.remember_cursor(0x1000);
    assert_eq!(display.cached_cursor(), Some(0x1000));
    display.set_mouse_cursor(CursorIcon::Text);
    assert_eq!(display.cached_cursor(), None);
    display.remember_cursor(0x2000);
    assert_eq!(display.cached_cursor(), Some(0x2000));
    display.set_mouse_cursor(CursorIcon::Default);
    assert_eq!(display.cached_cursor(), Some(0x1000));
    display.set_mouse_cursor(CursorIcon::Text);
    assert_eq!(display.cached_cursor(), Some(0x2000));
    display.set_mouse_cursor(CursorIcon::NWSEResize);
    assert_eq!(display.cached_cursor(), None);
    display.remember_cursor(0x3000);
    assert_eq!(display.cached_cursor(), Some(0x3000));
    assert_eq!(display.cursors.len(), 3);
    display.remember_cursor(0x4000);
    assert_eq!(display.cached_cursor(), Some(0x4000));
    assert_eq!(display.cursors.len(), 3);
    display.set_mouse_cursor(CursorIcon::Default);
    assert_eq!(display.cached_cursor(), Some(0x1000));
}
