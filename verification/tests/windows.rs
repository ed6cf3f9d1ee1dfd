use lokinit::conf::Conf;
use lokinit::event::{Callback, CursorIcon, KeyMods, MouseButton};
use lokinit::native::lifecycle::{Lifecycle, Step};
use lokinit::native::windows::{
    create_window, get_win_style, get_x_lparam, get_y_lparam, hiword, key_mods, loword, CursorClip,
    FullscreenRequest, Rect, SizeRequest, WindowEvent, WindowRequest, WindowsDisplay,
    WndProcOutcome, WM_CHAR, WM_CLOSE, WM_ERASEBKGND, WM_INPUT, WM_KEYDOWN, WM_KEYUP,
    WM_LBUTTONDOWN, WM_LBUTTONUP, WM_MBUTTONDOWN, WM_MBUTTONUP, WM_MOUSEHWHEEL, WM_MOUSELEAVE,
    WM_MOUSEMOVE, WM_MOUSEWHEEL, WM_MOVE, WM_QUIT, WM_RBUTTONDOWN, WM_RBUTTONUP, WM_SETCURSOR,
    WM_SIZE, WM_SYSCOMMAND, WM_SYSKEYDOWN, WM_SYSKEYUP,
};
use lokinit::native::DPI_SCALE_ONE;

const QUIET: WndProcOutcome =
    WndProcOutcome { event: WindowEvent::Nothing, clip_cursor: false, reply: None };

fn heard(event: WindowEvent) -> WndProcOutcome {
    WndProcOutcome { event, clip_cursor: false, reply: None }
}

fn running() -> (WindowsDisplay, Lifecycle) {
    let display = WindowsDisplay::new(&Conf::default());
    let mut lifecycle = Lifecycle::new();
    lifecycle.create_window().unwrap();
    lifecycle.create_context().unwrap();
    lifecycle.start(&display.display_data).unwrap();
    (display, lifecycle)
}

#[test]
fn words_of_a_double_word() {
    assert_eq!(loword(0x1234_5678), 0x5678);
    assert_eq!(hiword(0x1234_5678), 0x1234);
    assert_eq!(loword(0), 0);
    assert_eq!(hiword(0), 0);
    assert_eq!(loword(u32::MAX), 0xFFFF);
    assert_eq!(hiword(u32::MAX), 0xFFFF);
    assert_eq!(hiword(0x0001_0000), 1);
    assert_eq!(loword(0x0001_0000), 0);
}

#[test]
fn mouse_coordinates_are_signed_words() {
    assert_eq!(get_x_lparam(0x00C8_0064), 100);
    assert_eq!(get_y_lparam(0x00C8_0064), 200);
    assert_eq!(get_x_lparam(0xFFFF_FFFB), -5);
    assert_eq!(get_y_lparam(0xFFFF_FFFB), -1);
    assert_eq!(get_x_lparam(0x7FFF_8000), -32768);
    assert_eq!(get_y_lparam(0x7FFF_8000), 32767);
    assert_eq!(get_x_lparam(-1), -1);
    assert_eq!(get_y_lparam(-1), -1);
}

#[test]
fn window_styles_have_their_win32_values() {
    assert_eq!(get_win_style(true, false), 0x9008_0000);
    assert_eq!(get_win_style(true, true), 0x9008_0000);
    assert_eq!(get_win_style(false, false), 0x06CA_0000);
    assert_eq!(get_win_style(false, true), 0x06CF_0000);
}

#[test]
fn new_windows_display_takes_resizable_and_high_dpi_from_the_configuration() {
    let mut conf = Conf::default();
    conf.window_resizable = false;
    conf.high_dpi = true;
    let display = WindowsDisplay::new(&conf);
    assert!(!display.fullscreen);
    assert!(!display.dpi_aware);
    assert!(!display.window_resizable);
    assert!(!display.cursor_grabbed);
    assert!(!display.iconified);
    assert!(display.show_cursor);
    assert!(!display.user_cursor);
    assert_eq!(display.cursor, CursorIcon::Default);
    assert!(display.display_data.high_dpi());
    assert_eq!(display.screen_size(), (1, 1));
    assert_eq!(display.dpi_scale(), DPI_SCALE_ONE);
    assert!(display.high_dpi());
    assert_eq!((display.mouse_x, display.mouse_y), (0, 0));
    assert!(!WindowsDisplay::new(&Conf::default()).high_dpi());
}

#[test]
fn messages_are_left_to_the_system_until_the_backend_runs() {
    let mut display = WindowsDisplay::new(&Conf::default());
    let mut lifecycle = Lifecycle::new();
    for umsg in [WM_CLOSE, WM_SIZE, WM_ERASEBKGND, WM_CHAR, WM_KEYDOWN, WM_LBUTTONDOWN] {
        assert_eq!(display.win32_wndproc(&lifecycle, umsg, 1, 1), QUIET);
    }
    assert!(!display.iconified);
    assert!(!display.display_data.quit_requested());
    lifecycle.create_window().unwrap();
    lifecycle.create_context().unwrap();
    assert_eq!(display.win32_wndproc(&lifecycle, WM_CLOSE, 0, 0), QUIET);
    lifecycle.start(&display.display_data).unwrap();
    assert_ne!(display.win32_wndproc(&lifecycle, WM_CLOSE, 0, 0), QUIET);
}

#[test]
fn close_message_starts_a_close_attempt() {
    let (mut display, mut lifecycle) = running();
    assert_eq!(
        display.win32_wndproc(&lifecycle, WM_CLOSE, 0, 0),
        WndProcOutcome {
            event: WindowEvent::CloseRequested { ask_handler: true },
            clip_cursor: false,
            reply: Some(0)
        }
    );
    assert!(display.display_data.quit_requested());
    assert!(!display.display_data.quit_ordered());
    // the application vetoes from within the handler
    display.cancel_quit();
    assert!(!lifecycle.close_decided(&mut display.display_data));
    assert!(lifecycle.is_running());
    assert!(display.keeps_running(false));
    // the next attempt is not vetoed
    display.win32_wndproc(&lifecycle, WM_CLOSE, 0, 0);
    assert!(lifecycle.close_decided(&mut display.display_data));
    assert!(!lifecycle.is_running());
    assert!(!display.keeps_running(false));
}

#[test]
fn close_message_after_order_quit_does_not_ask_the_handler() {
    let (mut display, mut lifecycle) = running();
    display.order_quit();
    assert_eq!(
        display.win32_wndproc(&lifecycle, WM_CLOSE, 0, 0),
        WndProcOutcome {
            event: WindowEvent::CloseRequested { ask_handler: false },
            clip_cursor: false,
            reply: Some(0)
        }
    );
    assert!(lifecycle.close_decided(&mut display.display_data));
}

#[test]
fn system_commands_are_swallowed_as_needed() {
    let (mut display, lifecycle) = running();
    let swallowed = WndProcOutcome { event: WindowEvent::Nothing, clip_cursor: false, reply: Some(0) };
    assert_eq!(display.win32_wndproc(&lifecycle, WM_SYSCOMMAND, 0xF100, 0), swallowed);
    assert_eq!(display.win32_wndproc(&lifecycle, WM_SYSCOMMAND, 0xF10F, 0), swallowed);
    assert_eq!(display.win32_wndproc(&lifecycle, WM_SYSCOMMAND, 0xF140, 0), QUIET);
    assert_eq!(display.win32_wndproc(&lifecycle, WM_SYSCOMMAND, 0xF170, 0), QUIET);
    assert_eq!(display.win32_wndproc(&lifecycle, WM_SYSCOMMAND, 0xF060, 0), QUIET);
    display.set_fullscreen(true, (1920, 1080));
    assert_eq!(display.win32_wndproc(&lifecycle, WM_SYSCOMMAND, 0xF140, 0), swallowed);
    assert_eq!(display.win32_wndproc(&lifecycle, WM_SYSCOMMAND, 0xF143, 0), swallowed);
    assert_eq!(display.win32_wndproc(&lifecycle, WM_SYSCOMMAND, 0xF170, 0), swallowed);
    assert_eq!(display.win32_wndproc(&lifecycle, WM_SYSCOMMAND, 0xF060, 0), QUIET);
}

#[test]
fn erase_background_is_answered_with_one() {
    let (mut display, lifecycle) = running();
    assert_eq!(
        display.win32_wndproc(&lifecycle, WM_ERASEBKGND, 0, 0),
        WndProcOutcome { event: WindowEvent::Nothing, clip_cursor: false, reply: Some(1) }
    );
}

#[test]
fn size_message_tracks_minimizing_and_restoring() {
    let (mut display, lifecycle) = running();
    assert_eq!(display.win32_wndproc(&lifecycle, WM_SIZE, 0, 0), QUIET);
    assert_eq!(
        display.win32_wndproc(&lifecycle, WM_SIZE, 1, 0),
        heard(WindowEvent::WindowMinimized)
    );
    assert!(display.iconified);
    assert_eq!(display.win32_wndproc(&lifecycle, WM_SIZE, 1, 0), QUIET);
    assert_eq!(
        display.win32_wndproc(&lifecycle, WM_SIZE, 2, 0),
        heard(WindowEvent::WindowRestored)
    );
    assert!(!display.iconified);
    assert_eq!(display.win32_wndproc(&lifecycle, WM_SIZE, 0, 0), QUIET);
}

#[test]
fn size_and_move_confine_a_grabbed_pointer_anew() {
    let (mut display, lifecycle) = running();
    assert_eq!(display.win32_wndproc(&lifecycle, WM_MOVE, 0, 0), QUIET);
    assert_eq!(display.set_cursor_grab(true), CursorClip::ToClientArea);
    assert!(display.cursor_grabbed);
    let clip = WndProcOutcome { event: WindowEvent::Nothing, clip_cursor: true, reply: None };
    assert_eq!(display.win32_wndproc(&lifecycle, WM_MOVE, 0, 0), clip);
    assert_eq!(display.win32_wndproc(&lifecycle, WM_SIZE, 0, 0), clip);
    assert_eq!(
        display.win32_wndproc(&lifecycle, WM_SIZE, 1, 0),
        WndProcOutcome { event: WindowEvent::WindowMinimized, clip_cursor: true, reply: None }
    );
    assert_eq!(display.set_cursor_grab(false), CursorClip::Lifted);
    assert!(!display.cursor_grabbed);
    assert_eq!(display.win32_wndproc(&lifecycle, WM_MOVE, 0, 0), QUIET);
}

#[test]
fn set_cursor_message_restores_the_application_cursor_over_the_client_area() {
    let (mut display, lifecycle) = running();
    assert_eq!(display.win32_wndproc(&lifecycle, WM_SETCURSOR, 0, 1), QUIET);
    assert_eq!(display.set_mouse_cursor(CursorIcon::Pointer), 32649);
    assert!(display.user_cursor);
    assert_eq!(
        display.win32_wndproc(&lifecycle, WM_SETCURSOR, 0, 0x0200_0001),
        WndProcOutcome {
            event: WindowEvent::RestoreCursor { cursor: CursorIcon::Pointer },
            clip_cursor: false,
            reply: Some(1)
        }
    );
    assert_eq!(display.win32_wndproc(&lifecycle, WM_SETCURSOR, 0, 0x0200_0002), QUIET);
    assert_eq!(display.set_mouse_cursor(CursorIcon::Default), 32512);
    assert!(!display.user_cursor);
    assert_eq!(display.win32_wndproc(&lifecycle, WM_SETCURSOR, 0, 1), QUIET);
}

#[test]
fn mouse_buttons_are_told_apart() {
    let (mut display, lifecycle) = running();
    let (x, y) = (0, 0);
    let cases = [
        (WM_LBUTTONDOWN, WindowEvent::MouseButtonDown { button: MouseButton::Left, x, y }),
        (WM_RBUTTONDOWN, WindowEvent::MouseButtonDown { button: MouseButton::Right, x, y }),
        (WM_MBUTTONDOWN, WindowEvent::MouseButtonDown { button: MouseButton::Middle, x, y }),
        (WM_LBUTTONUP, WindowEvent::MouseButtonUp { button: MouseButton::Left, x, y }),
        (WM_RBUTTONUP, WindowEvent::MouseButtonUp { button: MouseButton::Right, x, y }),
        (WM_MBUTTONUP, WindowEvent::MouseButtonUp { button: MouseButton::Middle, x, y }),
    ];
    for (umsg, event) in cases {
        assert_eq!(display.win32_wndproc(&lifecycle, umsg, 0, 0x0010_0010), heard(event));
    }
}

#[test]
fn button_events_report_where_the_last_move_brought_the_pointer() {
    let (mut display, lifecycle) = running();
    assert_eq!(
        display.win32_wndproc(&lifecycle, WM_MOUSEMOVE, 0, 0x0014_000A),
        heard(WindowEvent::MouseMove { x: 10, y: 20 })
    );
    assert_eq!((display.mouse_x, display.mouse_y), (10, 20));
    // the parameter of a button message is not looked at
    assert_eq!(
        display.win32_wndproc(&lifecycle, WM_LBUTTONDOWN, 0, 0),
        heard(WindowEvent::MouseButtonDown { button: MouseButton::Left, x: 10, y: 20 })
    );
    assert_eq!(
        display.win32_wndproc(&lifecycle, WM_LBUTTONUP, 0, 0x0001_0001),
        heard(WindowEvent::MouseButtonUp { button: MouseButton::Left, x: 10, y: 20 })
    );
    display.win32_wndproc(&lifecycle, WM_MOUSEMOVE, 0, 0xFFFE_FFFB);
    assert_eq!(
        display.win32_wndproc(&lifecycle, WM_RBUTTONDOWN, 0, 0),
        heard(WindowEvent::MouseButtonDown { button: MouseButton::Right, x: -5, y: -2 })
    );
    for umsg in [WM_KEYDOWN, WM_SIZE, WM_CHAR, WM_MOUSEWHEEL, WM_MOVE] {
        display.win32_wndproc(&lifecycle, umsg, 1, 0x0063_0063);
        assert_eq!((display.mouse_x, display.mouse_y), (-5, -2));
    }
}

#[test]
fn a_move_is_not_recorded_until_the_backend_runs() {
    let mut display = WindowsDisplay::new(&Conf::default());
    let lifecycle = Lifecycle::new();
    assert_eq!(display.win32_wndproc(&lifecycle, WM_MOUSEMOVE, 0, 0x0014_000A), QUIET);
    assert_eq!((display.mouse_x, display.mouse_y), (0, 0));
}

#[test]
fn mouse_move_carries_client_coordinates() {
    let (mut display, lifecycle) = running();
    assert_eq!(
        display.win32_wndproc(&lifecycle, WM_MOUSEMOVE, 0, 0x00C8_0064),
        heard(WindowEvent::MouseMove { x: 100, y: 200 })
    );
    assert_eq!(
        display.win32_wndproc(&lifecycle, WM_MOUSEMOVE, 0, 0xFFFE_FFFB),
        heard(WindowEvent::MouseMove { x: -5, y: -2 })
    );
}

#[test]
fn wheel_messages_carry_the_signed_high_word() {
    let (mut display, lifecycle) = running();
    assert_eq!(
        display.win32_wndproc(&lifecycle, WM_MOUSEWHEEL, 0x0078_0000, 0),
        heard(WindowEvent::MouseWheel { dx: 0, dy: 120 })
    );
    assert_eq!(
        display.win32_wndproc(&lifecycle, WM_MOUSEWHEEL, 0xFF88_0008, 0),
        heard(WindowEvent::MouseWheel { dx: 0, dy: -120 })
    );
    assert_eq!(
        display.win32_wndproc(&lifecycle, WM_MOUSEHWHEEL, 0x00F0_0000, 0),
        heard(WindowEvent::MouseWheel { dx: 240, dy: 0 })
    );
}

#[test]
fn raw_input_and_mouse_leave() {
    let (mut display, lifecycle) = running();
    assert_eq!(display.win32_wndproc(&lifecycle, WM_INPUT, 0, 0), heard(WindowEvent::RawInput));
    assert_eq!(display.win32_wndproc(&lifecycle, WM_MOUSELEAVE, 0, 0), QUIET);
    assert_eq!(display.win32_wndproc(&lifecycle, WM_QUIT, 0, 0), QUIET);
    assert_eq!(display.win32_wndproc(&lifecycle, 0xC123, 5, 5), QUIET);
}

#[test]
fn char_message_carries_the_character_and_the_repeat_flag() {
    let (mut display, lifecycle) = running();
    assert_eq!(
        display.win32_wndproc(&lifecycle, WM_CHAR, 0x41, 0x001E_0001),
        heard(WindowEvent::Char { character: 'A', repeat: false })
    );
    assert_eq!(
        display.win32_wndproc(&lifecycle, WM_CHAR, 0x20AC, 0x401E_0001),
        heard(WindowEvent::Char { character: '\u{20AC}', repeat: true })
    );
}

#[test]
fn char_message_without_a_character_is_dropped() {
    let (mut display, lifecycle) = running();
    assert_eq!(display.win32_wndproc(&lifecycle, WM_CHAR, 0, 0), QUIET);
    assert_eq!(display.win32_wndproc(&lifecycle, WM_CHAR, 0xD800, 0), QUIET);
    assert_eq!(display.win32_wndproc(&lifecycle, WM_CHAR, 0xDFFF, 0), QUIET);
    assert_eq!(display.win32_wndproc(&lifecycle, WM_CHAR, 0x11_0000, 0), QUIET);
}

#[test]
fn key_messages_carry_scan_code_and_repeat_flag() {
    let (mut display, lifecycle) = running();
    assert_eq!(
        display.win32_wndproc(&lifecycle, WM_KEYDOWN, 0x41, 0x001E_0001),
        heard(WindowEvent::KeyDown { keycode: 0x1E, repeat: false })
    );
    assert_eq!(
        display.win32_wndproc(&lifecycle, WM_KEYDOWN, 0x41, 0x401E_0001),
        heard(WindowEvent::KeyDown { keycode: 0x1E, repeat: true })
    );
    assert_eq!(
        display.win32_wndproc(&lifecycle, WM_SYSKEYDOWN, 0x25, 0x214B_0001),
        heard(WindowEvent::KeyDown { keycode: 0x14B, repeat: false })
    );
    assert_eq!(
        display.win32_wndproc(&lifecycle, WM_KEYUP, 0x41, 0xC01E_0001),
        heard(WindowEvent::KeyUp { keycode: 0x1E })
    );
    assert_eq!(
        display.win32_wndproc(&lifecycle, WM_SYSKEYUP, 0x25, 0xC14B_0001),
        heard(WindowEvent::KeyUp { keycode: 0x14B })
    );
}

#[test]
fn only_size_and_close_change_the_state() {
    let (mut display, lifecycle) = running();
    display.set_mouse_cursor(CursorIcon::Text);
    for umsg in [WM_KEYDOWN, WM_CHAR, WM_MOUSEMOVE, WM_MOVE, WM_SETCURSOR, WM_SYSCOMMAND] {
        display.win32_wndproc(&lifecycle, umsg, 0x41, 0x0001_0001);
        assert!(!display.iconified);
        assert!(!display.fullscreen);
        assert!(!display.cursor_grabbed);
        assert!(display.show_cursor);
        assert!(display.user_cursor);
        assert_eq!(display.cursor, CursorIcon::Text);
        assert!(!display.display_data.quit_requested());
        assert!(!display.display_data.quit_ordered());
    }
}

#[test]
fn key_mods_read_the_high_bit_of_the_key_states() {
    assert_eq!(
        key_mods(0, 0, 0, 0, 0),
        KeyMods { shift: false, ctrl: false, alt: false, logo: false }
    );
    assert_eq!(
        key_mods(-128, 1, 0, 0, 0),
        KeyMods { shift: true, ctrl: false, alt: false, logo: false }
    );
    assert_eq!(
        key_mods(1, -127, i16::MIN, 0, 0),
        KeyMods { shift: false, ctrl: true, alt: true, logo: false }
    );
    assert_eq!(
        key_mods(0, 0, 0, -1, 0),
        KeyMods { shift: false, ctrl: false, alt: false, logo: true }
    );
    assert_eq!(
        key_mods(0, 0, 0, 1, -1),
        KeyMods { shift: false, ctrl: false, alt: false, logo: true }
    );
    assert_eq!(
        key_mods(i16::MAX, i16::MAX, i16::MAX, i16::MAX, i16::MAX),
        KeyMods { shift: false, ctrl: false, alt: false, logo: false }
    );
}

#[test]
fn cursor_icons_map_to_system_cursors() {
    let mut display = WindowsDisplay::new(&Conf::default());
    let ids = [
        (CursorIcon::Default, 32512),
        (CursorIcon::Help, 32651),
        (CursorIcon::Pointer, 32649),
        (CursorIcon::Wait, 32514),
        (CursorIcon::Crosshair, 32515),
        (CursorIcon::Text, 32513),
        (CursorIcon::Move, 32646),
        (CursorIcon::NotAllowed, 32648),
        (CursorIcon::EWResize, 32644),
        (CursorIcon::NSResize, 32645),
        (CursorIcon::NESWResize, 32643),
        (CursorIcon::NWSEResize, 32642),
    ];
    for (icon, id) in ids {
        assert_eq!(display.set_mouse_cursor(icon), id);
        assert_eq!(display.cursor, icon);
        assert_eq!(display.user_cursor, icon != CursorIcon::Default);
    }
}

#[test]
fn show_mouse_changes_visibility_only_when_it_differs() {
    let mut display = WindowsDisplay::new(&Conf::default());
    assert_eq!(display.show_mouse(true), None);
    assert_eq!(display.show_mouse(false), Some(false));
    assert!(!display.show_cursor);
    assert_eq!(display.show_mouse(false), None);
    assert_eq!(display.show_mouse(true), Some(true));
    assert!(display.show_cursor);
}

#[test]
fn create_window_asks_for_the_configured_client_area() {
    assert_eq!(
        create_window(false, true, 800, 600, (1920, 1080)),
        WindowRequest {
            style: 0x06CF_0000,
            ex_style: 0x0004_0100,
            client: Rect { left: 0, top: 0, right: 800, bottom: 600 }
        }
    );
    assert_eq!(
        create_window(false, false, 640, 480, (1920, 1080)),
        WindowRequest {
            style: 0x06CA_0000,
            ex_style: 0x0004_0100,
            client: Rect { left: 0, top: 0, right: 640, bottom: 480 }
        }
    );
}

#[test]
fn create_window_in_fullscreen_covers_the_screen() {
    assert_eq!(
        create_window(true, true, 800, 600, (1920, 1080)),
        WindowRequest {
            style: 0x9008_0000,
            ex_style: 0x0004_0100,
            client: Rect { left: 0, top: 0, right: 1920, bottom: 1080 }
        }
    );
}

#[test]
fn rect_size_is_the_distance_of_the_edges() {
    assert_eq!(Rect { left: -8, top: -31, right: 808, bottom: 608 }.size(), Some((816, 639)));
    assert_eq!(Rect { left: 0, top: 0, right: 0, bottom: 0 }.size(), Some((0, 0)));
    assert_eq!(Rect { left: 10, top: 10, right: 5, bottom: 0 }.size(), Some((-5, -10)));
    assert_eq!(
        Rect { left: 0, top: 1, right: i32::MAX, bottom: i32::MIN + 1 }.size(),
        Some((i32::MAX, i32::MIN))
    );
}

#[test]
fn rect_size_that_does_not_fit_is_none() {
    assert_eq!(Rect { left: -1, top: 0, right: i32::MAX, bottom: 0 }.size(), None);
    assert_eq!(Rect { left: 0, top: i32::MAX, right: 0, bottom: i32::MIN }.size(), None);
    assert_eq!(Rect { left: i32::MIN, top: 0, right: i32::MAX, bottom: 0 }.size(), None);
}

#[test]
fn set_window_size_keeps_left_and_bottom_edge() {
    let display = WindowsDisplay::new(&Conf::default());
    let client = Rect { left: 0, top: 0, right: 800, bottom: 600 };
    assert_eq!(
        display.set_window_size(Some(client), 1024, 768),
        Some(SizeRequest {
            x: 0,
            y: 600,
            style: 0x06CF_0000,
            client: Rect { left: 0, top: 600 - 768, right: 1024, bottom: 600 }
        })
    );
    let shifted = Rect { left: 10, top: 20, right: 30, bottom: 40 };
    assert_eq!(
        display.set_window_size(Some(shifted), 5, 7),
        Some(SizeRequest {
            x: 10,
            y: 40,
            style: 0x06CF_0000,
            client: Rect { left: 10, top: 33, right: 15, bottom: 40 }
        })
    );
}

#[test]
fn set_window_size_without_a_client_area_starts_at_the_origin() {
    let mut conf = Conf::default();
    conf.window_resizable = false;
    let display = WindowsDisplay::new(&conf);
    assert_eq!(
        display.set_window_size(None, 320, 200),
        Some(SizeRequest {
            x: 0,
            y: 0,
            style: 0x06CA_0000,
            client: Rect { left: 0, top: -200, right: 320, bottom: 0 }
        })
    );
}

#[test]
fn set_window_size_that_does_not_fit_asks_for_nothing() {
    let display = WindowsDisplay::new(&Conf::default());
    let client = Rect { left: 1, top: 0, right: 800, bottom: 600 };
    assert_eq!(display.set_window_size(Some(client), i32::MAX as u32, 10), None);
    assert_eq!(display.set_window_size(Some(client), u32::MAX, 10), None);
    assert_eq!(display.set_window_size(None, 10, u32::MAX), None);
    assert_eq!(
        display.set_window_size(None, i32::MAX as u32, 0x8000_0000),
        Some(SizeRequest {
            x: 0,
            y: 0,
            style: 0x06CF_0000,
            client: Rect { left: 0, top: i32::MIN, right: i32::MAX, bottom: 0 }
        })
    );
}

#[test]
fn set_fullscreen_asks_for_the_screen_or_the_stored_size() {
    let mut display = WindowsDisplay::new(&Conf::default());
    assert!(display.update_dimensions(&Lifecycle::new(), Some((800, 600))).0);
    assert_eq!(
        display.set_fullscreen(true, (1920, 1080)),
        FullscreenRequest { style: 0x9008_0000, width: 1920, height: 1080 }
    );
    assert!(display.fullscreen);
    assert_eq!(
        display.set_fullscreen(false, (1920, 1080)),
        FullscreenRequest { style: 0x06CF_0000, width: 800, height: 600 }
    );
    assert!(!display.fullscreen);
}

#[test]
fn windows_update_dimensions_notifies_on_change() {
    let (mut display, lifecycle) = running();
    let resize = |width, height| vec![Step::Invoke(Callback::Resize { width, height })];
    assert_eq!(
        display.update_dimensions(&lifecycle, Some((800, 600))),
        (true, resize(800, 600))
    );
    assert_eq!(display.screen_size(), (800, 600));
    assert_eq!(display.update_dimensions(&lifecycle, Some((800, 600))), (false, vec![]));
    assert_eq!(display.update_dimensions(&lifecycle, Some((0, 0))), (true, resize(1, 1)));
    assert_eq!(display.update_dimensions(&lifecycle, Some((0, -4))), (false, vec![]));
    assert_eq!(display.update_dimensions(&lifecycle, None), (false, vec![]));
    assert_eq!(display.screen_size(), (1, 1));
    assert_eq!(display.update_dimensions(&lifecycle, Some((2, 1))), (true, resize(2, 1)));
    assert_eq!(display.update_dimensions(&lifecycle, None), (true, resize(1, 1)));
}

#[test]
fn windows_update_dimensions_is_silent_until_the_backend_runs() {
    let mut display = WindowsDisplay::new(&Conf::default());
    let lifecycle = Lifecycle::new();
    assert_eq!(display.update_dimensions(&lifecycle, Some((800, 600))), (true, vec![]));
    assert_eq!(display.screen_size(), (800, 600));
    assert_eq!(display.update_dimensions(&lifecycle, Some((800, 600))), (false, vec![]));
}

#[test]
fn init_dpi_follows_the_monitor_only_in_high_dpi_mode() {
    let mut conf = Conf::default();
    let mut display = WindowsDisplay::new(&conf);
    display.init_dpi(1.5f32.to_bits());
    assert!(!display.dpi_aware);
    assert_eq!(f32::from_bits(display.dpi_scale()), 1.0);
    assert!(!display.high_dpi());
    conf.high_dpi = true;
    let mut display = WindowsDisplay::new(&conf);
    display.init_dpi(1.5f32.to_bits());
    assert!(display.dpi_aware);
    assert_eq!(f32::from_bits(display.dpi_scale()), 1.5);
    assert!(display.high_dpi());
    display.init_dpi(1.0f32.to_bits());
    assert!(display.dpi_aware);
    assert!(display.high_dpi());
    display.init_dpi(0.75f32.to_bits());
    assert_eq!(f32::from_bits(display.dpi_scale()), 1.0);
    assert!(display.high_dpi());
}

#[test]
fn high_dpi_is_the_flag_of_the_configuration_for_the_whole_life() {
    for asked in [false, true] {
        let mut conf = Conf::default();
        conf.high_dpi = asked;
        let (_, lifecycle) = running();
        let mut display = WindowsDisplay::new(&conf);
        assert_eq!(display.high_dpi(), asked);
        for scale in [1.0f32, 2.0, 0.5, 1.25, f32::NAN] {
            display.init_dpi(scale.to_bits());
            display.update_dimensions(&lifecycle, Some((640, 480)));
            display.win32_wndproc(&lifecycle, WM_MOUSEMOVE, 0, 0x0014_000A);
            display.request_quit();
            display.cancel_quit();
            assert_eq!(display.high_dpi(), asked);
            let scale = f32::from_bits(display.dpi_scale());
            assert!(scale >= 1.0 && scale.is_finite());
            if !asked {
                assert_eq!(scale, 1.0);
            }
        }
        display.order_quit();
        assert_eq!(display.high_dpi(), asked);
    }
}

#[test]
fn frame_loop_ends_on_the_quit_message_or_when_quitting_is_final() {
    let mut display = WindowsDisplay::new(&Conf::default());
    assert!(display.keeps_running(false));
    assert!(!display.keeps_running(true));
    display.request_quit();
    assert!(display.keeps_running(false));
    display.cancel_quit();
    display.order_quit();
    assert!(!display.keeps_running(false));
    assert!(!display.keeps_running(true));
}

#[test]
fn startup_with_800_by_600_shows_that_size_before_the_first_draw() {
    let mut conf = Conf::default();
    conf.window_width = 800;
    conf.window_height = 600;
    conf.fullscreen = false;
    let request =
        create_window(conf.fullscreen, conf.window_resizable, 800, 600, (1920, 1080));
    assert_eq!(request.client.size(), Some((800, 600)));
    let mut display = WindowsDisplay::new(&conf);
    let mut lifecycle = Lifecycle::new();
    let mut trace = lifecycle.create_window().unwrap();
    trace.extend(display.update_dimensions(&lifecycle, request.client.size()).1);
    display.init_dpi(1.0f32.to_bits());
    trace.extend(lifecycle.create_context().unwrap());
    trace.extend(lifecycle.start(&display.display_data).unwrap());
    assert_eq!(display.screen_size(), (800, 600));
    assert!(!trace.contains(&Step::Invoke(Callback::Draw)));
    assert_eq!(trace.last(), Some(&Step::Invoke(Callback::Resize { width: 800, height: 600 })));
    trace.extend(lifecycle.frame());
    let resize = trace
        .iter()
        .position(|s| *s == Step::Invoke(Callback::Resize { width: 800, height: 600 }))
        .unwrap();
    let draw = trace.iter().position(|s| *s == Step::Invoke(Callback::Draw)).unwrap();
    assert!(resize < draw);
    assert_eq!(display.screen_size(), (800, 600));
}

#[test]
fn startup_in_high_dpi_mode_shows_the_scaled_size() {
    let mut conf = Conf::default();
    conf.high_dpi = true;
    let mut display = WindowsDisplay::new(&conf);
    display.init_dpi(2.0f32.to_bits());
    let scale = f32::from_bits(display.dpi_scale());
    assert_eq!(scale, 2.0);
    let framebuffer = ((800.0 * scale) as i32, (600.0 * scale) as i32);
    let mut lifecycle = Lifecycle::new();
    lifecycle.create_window().unwrap();
    assert_eq!(display.update_dimensions(&lifecycle, Some(framebuffer)), (true, vec![]));
    assert_eq!(display.screen_size(), (1600, 1200));
    lifecycle.create_context().unwrap();
    assert_eq!(
        lifecycle.start(&display.display_data),
        Ok(vec![Step::CreateHandler, Step::Invoke(Callback::Resize { width: 1600, height: 1200 })])
    );
}
