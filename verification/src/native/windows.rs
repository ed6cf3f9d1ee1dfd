//! The decisions of the Windows backend: what a window message means, which
//! style and size a window gets, and what the frame loop owes the application.
use vstd::prelude::*;
use crate::conf::Conf;
use crate::event::{is_scalar_value, Callback, CursorIcon, KeyMods, MouseButton};
use crate::native::lifecycle::{Command, Lifecycle, Stage, Step};
use crate::native::{stored_size, DisplayOp, NativeDisplayData, DPI_SCALE_LIMIT, DPI_SCALE_ONE};

verus! {

pub const WM_MOVE: u32 = 0x0003;
pub const WM_SIZE: u32 = 0x0005;
pub const WM_CLOSE: u32 = 0x0010;
pub const WM_QUIT: u32 = 0x0012;
pub const WM_ERASEBKGND: u32 = 0x0014;
pub const WM_SETCURSOR: u32 = 0x0020;
pub const WM_INPUT: u32 = 0x00FF;
pub const WM_KEYDOWN: u32 = 0x0100;
pub const WM_KEYUP: u32 = 0x0101;
pub const WM_CHAR: u32 = 0x0102;
pub const WM_SYSKEYDOWN: u32 = 0x0104;
pub const WM_SYSKEYUP: u32 = 0x0105;
pub const WM_SYSCOMMAND: u32 = 0x0112;
pub const WM_MOUSEMOVE: u32 = 0x0200;
pub const WM_LBUTTONDOWN: u32 = 0x0201;
pub const WM_LBUTTONUP: u32 = 0x0202;
pub const WM_RBUTTONDOWN: u32 = 0x0204;
pub const WM_RBUTTONUP: u32 = 0x0205;
pub const WM_MBUTTONDOWN: u32 = 0x0207;
pub const WM_MBUTTONUP: u32 = 0x0208;
pub const WM_MOUSEWHEEL: u32 = 0x020A;
pub const WM_MOUSEHWHEEL: u32 = 0x020E;
pub const WM_MOUSELEAVE: u32 = 0x02A3;

pub const SC_KEYMENU: usize = 0xF100;
pub const SC_SCREENSAVE: usize = 0xF140;
pub const SC_MONITORPOWER: usize = 0xF170;
pub const SIZE_MINIMIZED: usize = 1;
pub const HTCLIENT: u16 = 1;

pub const WS_POPUP: u32 = 0x8000_0000;
pub const WS_VISIBLE: u32 = 0x1000_0000;
pub const WS_CLIPSIBLINGS: u32 = 0x0400_0000;
pub const WS_CLIPCHILDREN: u32 = 0x0200_0000;
pub const WS_CAPTION: u32 = 0x00C0_0000;
pub const WS_SYSMENU: u32 = 0x0008_0000;
pub const WS_SIZEBOX: u32 = 0x0004_0000;
pub const WS_MINIMIZEBOX: u32 = 0x0002_0000;
pub const WS_MAXIMIZEBOX: u32 = 0x0001_0000;
pub const WS_EX_WINDOWEDGE: u32 = 0x0000_0100;
pub const WS_EX_APPWINDOW: u32 = 0x0004_0000;

/// The low 16 bits of a 32-bit value.
pub open spec fn low_word(l: u32) -> u16 {
    (l & 0xffff) as u16
}

/// Bits 16 to 31 of a 32-bit value.
pub open spec fn high_word(l: u32) -> u16 {
    ((l >> 16) & 0xffff) as u16
}

/// The low 16 bits of a 32-bit value: its remainder modulo 65536.
pub fn loword(l: u32) -> (w: u16)
    ensures
        w == low_word(l),
        w == l % 0x1_0000,
{
    assert(l & 0xffff == l % 0x1_0000) by (bit_vector);
    (l & 0xffff) as u16
}

/// Bits 16 to 31 of a 32-bit value: its quotient by 65536.
pub fn hiword(l: u32) -> (w: u16)
    ensures
        w == high_word(l),
        w == l / 0x1_0000,
{
    assert((l >> 16) & 0xffff == l / 0x1_0000) by (bit_vector);
    ((l >> 16) & 0xffff) as u16
}

/// The horizontal client coordinate in a mouse message's second parameter:
/// its low word, read as a signed 16-bit number.
pub open spec fn x_of(lparam: isize) -> i32 {
    (low_word(lparam as u32) as i16) as i32
}

/// The vertical client coordinate in a mouse message's second parameter:
/// its high word, read as a signed 16-bit number.
pub open spec fn y_of(lparam: isize) -> i32 {
    (high_word(lparam as u32) as i16) as i32
}

/// The horizontal client coordinate in a mouse message's second parameter.
pub fn get_x_lparam(lparam: isize) -> (x: i32)
    ensures
        x == x_of(lparam),
        -0x8000 <= x < 0x8000,
{
    let word: u16 = loword(lparam as u32);
    (word as i16) as i32
}

/// The vertical client coordinate in a mouse message's second parameter.
pub fn get_y_lparam(lparam: isize) -> (y: i32)
    ensures
        y == y_of(lparam),
        -0x8000 <= y < 0x8000,
{
    let word: u16 = hiword(lparam as u32);
    (word as i16) as i32
}

/// The style of the main window: a bare popup in fullscreen mode, else a
/// captioned window that can be minimized, with a sizing border and a
/// maximize box if it is resizable.
pub open spec fn win_style(is_fullscreen: bool, is_resizable: bool) -> u32 {
    if is_fullscreen {
        WS_POPUP | WS_SYSMENU | WS_VISIBLE
    } else if is_resizable {
        (WS_CLIPSIBLINGS | WS_CLIPCHILDREN | WS_CAPTION | WS_SYSMENU | WS_MINIMIZEBOX) | (
        WS_MAXIMIZEBOX | WS_SIZEBOX)
    } else {
        WS_CLIPSIBLINGS | WS_CLIPCHILDREN | WS_CAPTION | WS_SYSMENU | WS_MINIMIZEBOX
    }
}

/// The window styles as numbers.
pub proof fn lemma_win_style_values()
    ensures
        win_style(true, true) == 0x9008_0000,
        win_style(true, false) == 0x9008_0000,
        win_style(false, true) == 0x06CF_0000,
        win_style(false, false) == 0x06CA_0000,
{
    assert(0x8000_0000u32 | 0x0008_0000u32 | 0x1000_0000u32 == 0x9008_0000u32) by (bit_vector);
    assert(0x0400_0000u32 | 0x0200_0000u32 | 0x00C0_0000u32 | 0x0008_0000u32 | 0x0002_0000u32
        == 0x06CA_0000u32) by (bit_vector);
    assert((0x0400_0000u32 | 0x0200_0000u32 | 0x00C0_0000u32 | 0x0008_0000u32 | 0x0002_0000u32)
        | (0x0001_0000u32 | 0x0004_0000u32) == 0x06CF_0000u32) by (bit_vector);
}

/// The style of the main window.
pub fn get_win_style(is_fullscreen: bool, is_resizable: bool) -> (style: u32)
    ensures
        style == win_style(is_fullscreen, is_resizable),
{
    if is_fullscreen {
        WS_POPUP | WS_SYSMENU | WS_VISIBLE
    } else {
        let mut style: u32 = WS_CLIPSIBLINGS | WS_CLIPCHILDREN | WS_CAPTION | WS_SYSMENU
            | WS_MINIMIZEBOX;
        if is_resizable {
            style |= WS_MAXIMIZEBOX | WS_SIZEBOX;
        }
        style
    }
}

/// What a window message means to the application.
#[derive(Clone, Copy, Debug, PartialEq, Eq, Structural)]
pub enum WindowEvent {
    /// Nothing that the application hears of.
    Nothing,
    /// The window is asked to close. The close attempt has started;
    /// `ask_handler` says whether the event handler is to be asked before
    /// the attempt is decided.
    CloseRequested { ask_handler: bool },
    WindowMinimized,
    WindowRestored,
    /// The pointer is over the client area and the application's cursor is
    /// to be shown again.
    RestoreCursor { cursor: CursorIcon },
    /// A button went down, with the pointer at the client coordinates that
    /// the last move brought it to.
    MouseButtonDown { button: MouseButton, x: i32, y: i32 },
    /// A button went up, with the pointer at the client coordinates that
    /// the last move brought it to.
    MouseButtonUp { button: MouseButton, x: i32, y: i32 },
    /// The pointer moved to the given client coordinates.
    MouseMove { x: i32, y: i32 },
    /// Raw input waits to be read.
    RawInput,
    /// The wheel turned by the given amounts.
    MouseWheel { dx: i16, dy: i16 },
    Char { character: char, repeat: bool },
    KeyDown { keycode: u32, repeat: bool },
    KeyUp { keycode: u32 },
}

/// The answer of the window procedure to one message.
#[derive(Clone, Copy, Debug, PartialEq, Eq, Structural)]
pub struct WndProcOutcome {
    /// What the application hears.
    pub event: WindowEvent,
    /// Whether the pointer is to be confined to the client area anew.
    pub clip_cursor: bool,
    /// The value to return at once, or `None` to hand the message on to the
    /// default window procedure.
    pub reply: Option<isize>,
}

/// Whether bit 30 of a key message's second parameter is set: the key was
/// down before the message.
pub open spec fn is_repeat(lparam: isize) -> bool {
    lparam & 0x4000_0000 != 0
}

/// The scan code in a key message's second parameter, extended flag
/// included: the low nine bits of its high word.
pub open spec fn scan_code(lparam: isize) -> u32 {
    (high_word(lparam as u32) as u32) & 0x1FF
}

/// The system command in a message's first parameter, without the four low
/// bits that the system uses itself.
pub open spec fn system_command(wparam: usize) -> usize {
    wparam & 0xFFF0
}

/// The distance the wheel turned, from a wheel message's first parameter.
pub open spec fn wheel_delta(wparam: usize) -> i16 {
    high_word(wparam as u32) as i16
}

/// What the fields of a message's parameters are as numbers, for the low 32
/// bits `l` of the parameter: the scan code is the quotient by 65536, taken
/// modulo 512; a key repeats when the quotient by the thirtieth power of two
/// is odd; the words are quotient and remainder by 65536; and a word read
/// as a signed number is the word itself below 32768 and the word less
/// 65536 from there on.
pub proof fn lemma_message_fields(l: u32)
    ensures
        (high_word(l) as u32) & 0x1FF == (l / 0x1_0000) % 0x200,
        (l & 0x4000_0000 != 0) == ((l / 0x4000_0000) % 2 == 1),
        low_word(l) == l % 0x1_0000,
        high_word(l) == l / 0x1_0000,
        (low_word(l) as i16) as int == if l % 0x1_0000 < 0x8000 {
            (l % 0x1_0000) as int
        } else {
            l % 0x1_0000 - 0x1_0000
        },
        (high_word(l) as i16) as int == if l / 0x1_0000 < 0x8000 {
            (l / 0x1_0000) as int
        } else {
            l / 0x1_0000 - 0x1_0000
        },
{
    assert(((((l >> 16) & 0xffff) as u16) as u32) & 0x1FF == (l / 0x1_0000) % 0x200)
        by (bit_vector);
    assert((l & 0x4000_0000 != 0) == ((l / 0x4000_0000) % 2 == 1)) by (bit_vector);
    assert(l & 0xffff == l % 0x1_0000) by (bit_vector);
    assert((l >> 16) & 0xffff == l / 0x1_0000) by (bit_vector);
    let low: u16 = low_word(l);
    let high: u16 = high_word(l);
    assert((low as i16) as int == if low < 0x8000 {
        low as int
    } else {
        low - 0x1_0000
    }) by (bit_vector);
    assert((high as i16) as int == if high < 0x8000 {
        high as int
    } else {
        high - 0x1_0000
    }) by (bit_vector);
}

/// A parameter of the width of a pointer and its low 32 bits have the same
/// bit 30.
pub proof fn lemma_repeat_bit(lparam: isize)
    ensures
        is_repeat(lparam) == ((lparam as u32) & 0x4000_0000 != 0),
{
    assert((lparam & 0x4000_0000 != 0) == ((lparam as u32) & 0x4000_0000 != 0)) by (bit_vector);
}

/// The state of the Windows backend.
pub struct WindowsDisplay {
    pub fullscreen: bool,
    pub dpi_aware: bool,
    pub window_resizable: bool,
    pub cursor_grabbed: bool,
    pub iconified: bool,
    pub display_data: NativeDisplayData,
    pub show_cursor: bool,
    pub user_cursor: bool,
    pub cursor: CursorIcon,
    /// The client coordinates that the last move brought the pointer to;
    /// the origin before any move.
    pub mouse_x: i32,
    pub mouse_y: i32,
}

impl WindowsDisplay {
    /// What the window procedure makes of a message in this state.
    pub open spec fn outcome_of(self, running: bool, umsg: u32, wparam: usize, lparam: isize) -> WndProcOutcome {
        let quiet = WndProcOutcome { event: WindowEvent::Nothing, clip_cursor: false, reply: None };
        if !running {
            quiet
        } else if umsg == WM_CLOSE {
            WndProcOutcome {
                event: WindowEvent::CloseRequested {
                    ask_handler: self.display_data@.asks_handler(),
                },
                clip_cursor: false,
                reply: Some(0),
            }
        } else if umsg == WM_SYSCOMMAND {
            let command = system_command(wparam);
            if command == SC_KEYMENU || ((command == SC_SCREENSAVE || command == SC_MONITORPOWER)
                && self.fullscreen) {
                WndProcOutcome { reply: Some(0), ..quiet }
            } else {
                quiet
            }
        } else if umsg == WM_ERASEBKGND {
            WndProcOutcome { reply: Some(1), ..quiet }
        } else if umsg == WM_SIZE {
            WndProcOutcome {
                event: if (wparam == SIZE_MINIMIZED) == self.iconified {
                    WindowEvent::Nothing
                } else if wparam == SIZE_MINIMIZED {
                    WindowEvent::WindowMinimized
                } else {
                    WindowEvent::WindowRestored
                },
                clip_cursor: self.cursor_grabbed,
                reply: None,
            }
        } else if umsg == WM_SETCURSOR {
            if self.user_cursor && low_word(lparam as u32) == HTCLIENT {
                WndProcOutcome {
                    event: WindowEvent::RestoreCursor { cursor: self.cursor },
                    clip_cursor: false,
                    reply: Some(1),
                }
            } else {
                quiet
            }
        } else if umsg == WM_LBUTTONDOWN {
            WndProcOutcome {
                event: WindowEvent::MouseButtonDown {
                    button: MouseButton::Left,
                    x: self.mouse_x,
                    y: self.mouse_y,
                },
                ..quiet
            }
        } else if umsg == WM_RBUTTONDOWN {
            WndProcOutcome {
                event: WindowEvent::MouseButtonDown {
                    button: MouseButton::Right,
                    x: self.mouse_x,
                    y: self.mouse_y,
                },
                ..quiet
            }
        } else if umsg == WM_MBUTTONDOWN {
            WndProcOutcome {
                event: WindowEvent::MouseButtonDown {
                    button: MouseButton::Middle,
                    x: self.mouse_x,
                    y: self.mouse_y,
                },
                ..quiet
            }
        } else if umsg == WM_LBUTTONUP {
            WndProcOutcome {
                event: WindowEvent::MouseButtonUp {
                    button: MouseButton::Left,
                    x: self.mouse_x,
                    y: self.mouse_y,
                },
                ..quiet
            }
        } else if umsg == WM_RBUTTONUP {
            WndProcOutcome {
                event: WindowEvent::MouseButtonUp {
                    button: MouseButton::Right,
                    x: self.mouse_x,
                    y: self.mouse_y,
                },
                ..quiet
            }
        } else if umsg == WM_MBUTTONUP {
            WndProcOutcome {
                event: WindowEvent::MouseButtonUp {
                    button: MouseButton::Middle,
                    x: self.mouse_x,
                    y: self.mouse_y,
                },
                ..quiet
            }
        } else if umsg == WM_MOUSEMOVE {
            WndProcOutcome {
                event: WindowEvent::MouseMove { x: x_of(lparam), y: y_of(lparam) },
                ..quiet
            }
        } else if umsg == WM_MOVE {
            WndProcOutcome { clip_cursor: self.cursor_grabbed, ..quiet }
        } else if umsg == WM_INPUT {
            WndProcOutcome { event: WindowEvent::RawInput, ..quiet }
        } else if umsg == WM_MOUSEWHEEL {
            WndProcOutcome {
                event: WindowEvent::MouseWheel { dx: 0, dy: wheel_delta(wparam) },
                ..quiet
            }
        } else if umsg == WM_MOUSEHWHEEL {
            WndProcOutcome {
                event: WindowEvent::MouseWheel { dx: wheel_delta(wparam), dy: 0 },
                ..quiet
            }
        } else if umsg == WM_CHAR {
            if wparam as u32 > 0 && is_scalar_value(wparam as u32) {
                WndProcOutcome {
                    event: WindowEvent::Char {
                        character: (wparam as u32) as char,
                        repeat: is_repeat(lparam),
                    },
                    ..quiet
                }
            } else {
                quiet
            }
        } else if umsg == WM_KEYDOWN || umsg == WM_SYSKEYDOWN {
            WndProcOutcome {
                event: WindowEvent::KeyDown { keycode: scan_code(lparam), repeat: is_repeat(lparam) },
                ..quiet
            }
        } else if umsg == WM_KEYUP || umsg == WM_SYSKEYUP {
            WndProcOutcome { event: WindowEvent::KeyUp { keycode: scan_code(lparam) }, ..quiet }
        } else {
            quiet
        }
    }

    /// How a message changes the state of a backend that runs: a size
    /// message records whether the window is minimized, a move of the
    /// pointer records where it is, a close message starts a close attempt,
    /// and nothing else changes anything. While the backend does not run,
    /// no message changes anything.
    pub open spec fn follows(
        self,
        before: WindowsDisplay,
        running: bool,
        umsg: u32,
        wparam: usize,
        lparam: isize,
    ) -> bool {
        &&& self.mouse_x == if running && umsg == WM_MOUSEMOVE {
            x_of(lparam)
        } else {
            before.mouse_x
        }
        &&& self.mouse_y == if running && umsg == WM_MOUSEMOVE {
            y_of(lparam)
        } else {
            before.mouse_y
        }
        &&& self.iconified == if running && umsg == WM_SIZE {
            wparam == SIZE_MINIMIZED
        } else {
            before.iconified
        }
        &&& self.display_data@ == if running && umsg == WM_CLOSE {
            before.display_data@.apply(DisplayOp::CloseRequested)
        } else {
            before.display_data@
        }
        &&& self.fullscreen == before.fullscreen
        &&& self.dpi_aware == before.dpi_aware
        &&& self.window_resizable == before.window_resizable
        &&& self.cursor_grabbed == before.cursor_grabbed
        &&& self.show_cursor == before.show_cursor
        &&& self.user_cursor == before.user_cursor
        &&& self.cursor == before.cursor
    }

    /// The state of a backend whose window was just created.
    pub fn new(conf: &Conf) -> (display: WindowsDisplay)
        ensures
            display.display_data@ == crate::native::DisplayState::initial(conf.high_dpi),
            !display.fullscreen,
            !display.dpi_aware,
            display.window_resizable == conf.window_resizable,
            !display.cursor_grabbed,
            !display.iconified,
            display.show_cursor,
            !display.user_cursor,
            display.cursor == CursorIcon::Default,
            display.mouse_x == 0,
            display.mouse_y == 0,
    {
        WindowsDisplay {
            fullscreen: false,
            dpi_aware: false,
            window_resizable: conf.window_resizable,
            cursor_grabbed: false,
            iconified: false,
            display_data: NativeDisplayData::new(conf.high_dpi),
            show_cursor: true,
            user_cursor: false,
            cursor: CursorIcon::Default,
            mouse_x: 0,
            mouse_y: 0,
        }
    }

    /// The window procedure: takes one message of the operating system and
    /// says what the application hears of it, whether the pointer is to be
    /// confined anew, and what is returned to the system. Until the backend
    /// runs, and once it has stopped running, every message is left to the
    /// default window procedure.
    ///
    /// After a `CloseRequested` the caller invokes the event handler's
    /// `quit_requested_event` if the event says so, and then decides the
    /// attempt with `Lifecycle::close_decided`.
    pub fn win32_wndproc(
        &mut self,
        lifecycle: &Lifecycle,
        umsg: u32,
        wparam: usize,
        lparam: isize,
    ) -> (outcome: WndProcOutcome)
        ensures
            outcome == old(self).outcome_of(lifecycle@ == Stage::Running, umsg, wparam, lparam),
            final(self).follows(*old(self), lifecycle@ == Stage::Running, umsg, wparam, lparam),
    {
        let mut outcome: WndProcOutcome = WndProcOutcome {
            event: WindowEvent::Nothing,
            clip_cursor: false,
            reply: None,
        };
        if !lifecycle.is_running() {
        } else if umsg == WM_CLOSE {
            let ask: bool = self.display_data.close_requested();
            outcome.event = WindowEvent::CloseRequested { ask_handler: ask };
            outcome.reply = Some(0);
        } else if umsg == WM_SYSCOMMAND {
            let command: usize = wparam & 0xFFF0;
            if command == SC_SCREENSAVE || command == SC_MONITORPOWER {
                if self.fullscreen {
                    outcome.reply = Some(0);
                }
            } else if command == SC_KEYMENU {
                outcome.reply = Some(0);
            }
        } else if umsg == WM_ERASEBKGND {
            outcome.reply = Some(1);
        } else if umsg == WM_SIZE {
            outcome.clip_cursor = self.cursor_grabbed;
            let iconified: bool = wparam == SIZE_MINIMIZED;
            if iconified != self.iconified {
                self.iconified = iconified;
                if iconified {
                    outcome.event = WindowEvent::WindowMinimized;
                } else {
                    outcome.event = WindowEvent::WindowRestored;
                }
            }
        } else if umsg == WM_SETCURSOR {
            if self.user_cursor && loword(lparam as u32) == HTCLIENT {
                outcome.event = WindowEvent::RestoreCursor { cursor: self.cursor };
                outcome.reply = Some(1);
            }
        } else if umsg == WM_LBUTTONDOWN {
            outcome.event = WindowEvent::MouseButtonDown {
                button: MouseButton::Left,
                x: self.mouse_x,
                y: self.mouse_y,
            };
        } else if umsg == WM_RBUTTONDOWN {
            outcome.event = WindowEvent::MouseButtonDown {
                button: MouseButton::Right,
                x: self.mouse_x,
                y: self.mouse_y,
            };
        } else if umsg == WM_MBUTTONDOWN {
            outcome.event = WindowEvent::MouseButtonDown {
                button: MouseButton::Middle,
                x: self.mouse_x,
                y: self.mouse_y,
            };
        } else if umsg == WM_LBUTTONUP {
            outcome.event = WindowEvent::MouseButtonUp {
                button: MouseButton::Left,
                x: self.mouse_x,
                y: self.mouse_y,
            };
        } else if umsg == WM_RBUTTONUP {
            outcome.event = WindowEvent::MouseButtonUp {
                button: MouseButton::Right,
                x: self.mouse_x,
                y: self.mouse_y,
            };
        } else if umsg == WM_MBUTTONUP {
            outcome.event = WindowEvent::MouseButtonUp {
                button: MouseButton::Middle,
                x: self.mouse_x,
                y: self.mouse_y,
            };
        } else if umsg == WM_MOUSEMOVE {
            self.mouse_x = get_x_lparam(lparam);
            self.mouse_y = get_y_lparam(lparam);
            outcome.event = WindowEvent::MouseMove { x: self.mouse_x, y: self.mouse_y };
        } else if umsg == WM_MOVE {
            outcome.clip_cursor = self.cursor_grabbed;
        } else if umsg == WM_INPUT {
            outcome.event = WindowEvent::RawInput;
        } else if umsg == WM_MOUSEWHEEL {
            outcome.event = WindowEvent::MouseWheel { dx: 0, dy: hiword(wparam as u32) as i16 };
        } else if umsg == WM_MOUSEHWHEEL {
            outcome.event = WindowEvent::MouseWheel { dx: hiword(wparam as u32) as i16, dy: 0 };
        } else if umsg == WM_CHAR {
            let code: u32 = wparam as u32;
            let repeat: bool = lparam & 0x4000_0000 != 0;
            if code > 0 {
                match char::from_u32(code) {
                    Some(character) => {
                        outcome.event = WindowEvent::Char { character, repeat };
                    },
                    None => {},
                }
            }
        } else if umsg == WM_KEYDOWN || umsg == WM_SYSKEYDOWN {
            let keycode: u32 = (hiword(lparam as u32) as u32) & 0x1FF;
            let repeat: bool = lparam & 0x4000_0000 != 0;
            outcome.event = WindowEvent::KeyDown { keycode, repeat };
        } else if umsg == WM_KEYUP || umsg == WM_SYSKEYUP {
            let keycode: u32 = (hiword(lparam as u32) as u32) & 0x1FF;
            outcome.event = WindowEvent::KeyUp { keycode };
        }
        outcome
    }
}

/// A rectangle in the coordinates of the operating system.
#[derive(Clone, Copy, Debug, PartialEq, Eq, Structural)]
pub struct Rect {
    pub left: i32,
    pub top: i32,
    pub right: i32,
    pub bottom: i32,
}

impl Rect {
    /// Width of the rectangle.
    pub open spec fn width(self) -> int {
        self.right - self.left
    }

    /// Height of the rectangle.
    pub open spec fn height(self) -> int {
        self.bottom - self.top
    }

    /// Width and height of the rectangle, where both can be held in 32 bits.
    pub fn size(&self) -> (size: Option<(i32, i32)>)
        ensures
            fits_i32(self.width()) && fits_i32(self.height()) ==> size == Some(
                (self.width() as i32, self.height() as i32),
            ),
            !(fits_i32(self.width()) && fits_i32(self.height())) ==> size is None,
    {
        let width: i64 = self.right as i64 - self.left as i64;
        let height: i64 = self.bottom as i64 - self.top as i64;
        if width < -0x8000_0000 || width > 0x7FFF_FFFF || height < -0x8000_0000 || height
            > 0x7FFF_FFFF {
            None
        } else {
            Some((width as i32, height as i32))
        }
    }
}

/// Whether a number can be held in a signed 32-bit integer.
pub open spec fn fits_i32(v: int) -> bool {
    -0x8000_0000 <= v <= 0x7FFF_FFFF
}

/// What to create the main window with. `client` is the client area that is
/// asked for; the frame around it is for the operating system to add.
#[derive(Clone, Copy, Debug, PartialEq, Eq, Structural)]
pub struct WindowRequest {
    pub style: u32,
    pub ex_style: u32,
    pub client: Rect,
}

/// Decides style and client area of the main window: in fullscreen mode a
/// popup over the whole screen, else a framed window with the client area
/// that the configuration asks for.
pub fn create_window(
    fullscreen: bool,
    resizable: bool,
    width: i32,
    height: i32,
    screen: (i32, i32),
) -> (request: WindowRequest)
    ensures
        request.style == win_style(fullscreen, resizable),
        request.ex_style == WS_EX_APPWINDOW | WS_EX_WINDOWEDGE,
        request.client == (Rect {
            left: 0,
            top: 0,
            right: if fullscreen {
                screen.0
            } else {
                width
            },
            bottom: if fullscreen {
                screen.1
            } else {
                height
            },
        }),
{
    let mut client: Rect = Rect { left: 0, top: 0, right: width, bottom: height };
    if fullscreen {
        client.right = screen.0;
        client.bottom = screen.1;
    }
    WindowRequest {
        style: get_win_style(fullscreen, resizable),
        ex_style: WS_EX_APPWINDOW | WS_EX_WINDOWEDGE,
        client,
    }
}

/// What to ask of the operating system to give the window a new size.
/// `client` is the client area that is asked for: it keeps the left and the
/// bottom edge of the present one. The window is not moved; `x` and `y` are
/// handed on only because the call takes them.
#[derive(Clone, Copy, Debug, PartialEq, Eq, Structural)]
pub struct SizeRequest {
    pub x: i32,
    pub y: i32,
    pub style: u32,
    pub client: Rect,
}

/// The modifier keys that are held, from the states of the shift, control,
/// menu and the two logo keys. A key is held when the high bit of its state
/// is set, that is when the state is negative.
pub fn key_mods(shift: i16, control: i16, menu: i16, left_logo: i16, right_logo: i16) -> (mods:
    KeyMods)
    ensures
        mods.shift == (shift < 0),
        mods.ctrl == (control < 0),
        mods.alt == (menu < 0),
        mods.logo == (left_logo < 0 || right_logo < 0),
{
    KeyMods { shift: shift < 0, ctrl: control < 0, alt: menu < 0, logo: left_logo < 0 || right_logo < 0 }
}

/// The identifier of the system cursor that stands for an icon.
pub open spec fn cursor_id(icon: CursorIcon) -> u16 {
    match icon {
        CursorIcon::Default => 32512,
        CursorIcon::Help => 32651,
        CursorIcon::Pointer => 32649,
        CursorIcon::Wait => 32514,
        CursorIcon::Crosshair => 32515,
        CursorIcon::Text => 32513,
        CursorIcon::Move => 32646,
        CursorIcon::NotAllowed => 32648,
        CursorIcon::EWResize => 32644,
        CursorIcon::NSResize => 32645,
        CursorIcon::NESWResize => 32643,
        CursorIcon::NWSEResize => 32642,
    }
}

/// What is to be done about the confinement of the pointer.
#[derive(Clone, Copy, Debug, PartialEq, Eq, Structural)]
pub enum CursorClip {
    /// Confine the pointer to the client area of the window.
    ToClientArea,
    /// Let the pointer go where it likes.
    Lifted,
}

/// What to ask of the operating system when fullscreen mode is switched.
#[derive(Clone, Copy, Debug, PartialEq, Eq, Structural)]
pub struct FullscreenRequest {
    pub style: u32,
    pub width: i32,
    pub height: i32,
}

impl WindowsDisplay {
    /// Current framebuffer size in pixels, width first.
    pub fn screen_size(&self) -> (size: (i32, i32))
        ensures
            size == self.display_data@.size(),
            size.0 >= 1,
            size.1 >= 1,
    {
        self.display_data.screen_size()
    }

    /// Ratio between framebuffer pixels and logical pixels, as a bit pattern.
    pub fn dpi_scale(&self) -> (scale: u32)
        ensures
            scale == self.display_data@.dpi_scale,
            DPI_SCALE_ONE <= scale <= DPI_SCALE_LIMIT,
            !self.display_data@.high_dpi ==> scale == DPI_SCALE_ONE,
    {
        self.display_data.dpi_scale()
    }

    /// Whether high-DPI mode was asked for at creation. The answer never
    /// changes; without the mode the scale is one.
    pub fn high_dpi(&self) -> (on: bool)
        ensures
            on == self.display_data@.high_dpi,
            !on ==> self.display_data@.dpi_scale == DPI_SCALE_ONE,
    {
        self.display_data.high_dpi()
    }

    /// Finalizes quitting.
    pub fn order_quit(&mut self)
        ensures
            final(self).display_data@ == old(self).display_data@.apply(DisplayOp::OrderQuit),
            final(self).same_window(*old(self)),
    {
        self.display_data.order_quit();
    }

    /// Asks to quit; the event handler may veto at the next close attempt.
    pub fn request_quit(&mut self)
        ensures
            final(self).display_data@ == old(self).display_data@.apply(DisplayOp::RequestQuit),
            final(self).same_window(*old(self)),
    {
        self.display_data.request_quit();
    }

    /// Takes a pending quit request back.
    pub fn cancel_quit(&mut self)
        ensures
            final(self).display_data@ == old(self).display_data@.apply(DisplayOp::CancelQuit),
            final(self).same_window(*old(self)),
    {
        self.display_data.cancel_quit();
    }

    /// Whether everything but the display data is as in `before`.
    pub open spec fn same_window(self, before: WindowsDisplay) -> bool {
        &&& self.fullscreen == before.fullscreen
        &&& self.dpi_aware == before.dpi_aware
        &&& self.window_resizable == before.window_resizable
        &&& self.cursor_grabbed == before.cursor_grabbed
        &&& self.iconified == before.iconified
        &&& self.show_cursor == before.show_cursor
        &&& self.user_cursor == before.user_cursor
        &&& self.cursor == before.cursor
        &&& self.mouse_x == before.mouse_x
        &&& self.mouse_y == before.mouse_y
    }

    /// Records whether the pointer is confined and says what to do about it.
    pub fn set_cursor_grab(&mut self, grab: bool) -> (clip: CursorClip)
        ensures
            clip == if grab {
                CursorClip::ToClientArea
            } else {
                CursorClip::Lifted
            },
            *final(self) == (WindowsDisplay { cursor_grabbed: grab, ..*old(self) }),
    {
        self.cursor_grabbed = grab;
        if grab {
            CursorClip::ToClientArea
        } else {
            CursorClip::Lifted
        }
    }

    /// Records whether the pointer is shown. The result is the visibility
    /// to set, or `None` if it is as wanted already: showing and hiding are
    /// counted by the operating system and must stay balanced.
    pub fn show_mouse(&mut self, shown: bool) -> (change: Option<bool>)
        ensures
            change == if old(self).show_cursor == shown {
                None
            } else {
                Some(shown)
            },
            *final(self) == (WindowsDisplay { show_cursor: shown, ..*old(self) }),
    {
        if self.show_cursor != shown {
            self.show_cursor = shown;
            Some(shown)
        } else {
            None
        }
    }

    /// Makes `cursor_icon` the pointer of the window. The result is the
    /// identifier of the system cursor to load and set. The application's
    /// cursor counts as set unless the icon is the default one.
    pub fn set_mouse_cursor(&mut self, cursor_icon: CursorIcon) -> (id: u16)
        ensures
            id == cursor_id(cursor_icon),
            *final(self) == (WindowsDisplay {
                cursor: cursor_icon,
                user_cursor: cursor_icon != CursorIcon::Default,
                ..*old(self)
            }),
    {
        let id: u16 = match cursor_icon {
            CursorIcon::Default => 32512,
            CursorIcon::Help => 32651,
            CursorIcon::Pointer => 32649,
            CursorIcon::Wait => 32514,
            CursorIcon::Crosshair => 32515,
            CursorIcon::Text => 32513,
            CursorIcon::Move => 32646,
            CursorIcon::NotAllowed => 32648,
            CursorIcon::EWResize => 32644,
            CursorIcon::NSResize => 32645,
            CursorIcon::NESWResize => 32643,
            CursorIcon::NWSEResize => 32642,
        };
        self.cursor = cursor_icon;
        self.user_cursor = cursor_icon != CursorIcon::Default;
        id
    }

    /// The client area to ask for so that the window's content gets the
    /// given size. `client` is the present client area, or `None` if it
    /// could not be had, which counts as an empty area at the origin. The
    /// new area keeps the left and the bottom edge. There is no request if
    /// an edge of the new area cannot be held in 32 bits.
    pub fn set_window_size(&self, client: Option<Rect>, new_width: u32, new_height: u32) -> (request:
        Option<SizeRequest>)
        ensures
            ({
                let base = match client {
                    Some(r) => r,
                    None => Rect { left: 0, top: 0, right: 0, bottom: 0 },
                };
                let right = base.left + new_width;
                let top = base.bottom - new_height;
                if fits_i32(right) && fits_i32(top) {
                    request == Some(
                        SizeRequest {
                            x: base.left,
                            y: base.bottom,
                            style: win_style(self.fullscreen, self.window_resizable),
                            client: Rect {
                                left: base.left,
                                top: top as i32,
                                right: right as i32,
                                bottom: base.bottom,
                            },
                        },
                    )
                } else {
                    request is None
                }
            }),
    {
        let base: Rect = match client {
            Some(r) => r,
            None => Rect { left: 0, top: 0, right: 0, bottom: 0 },
        };
        let right: i64 = base.left as i64 + new_width as i64;
        let top: i64 = base.bottom as i64 - new_height as i64;
        if right > 0x7FFF_FFFF || top < -0x8000_0000 {
            None
        } else {
            Some(
                SizeRequest {
                    x: base.left,
                    y: base.bottom,
                    style: get_win_style(self.fullscreen, self.window_resizable),
                    client: Rect {
                        left: base.left,
                        top: top as i32,
                        right: right as i32,
                        bottom: base.bottom,
                    },
                },
            )
        }
    }

    /// Switches fullscreen mode and says what to ask of the operating
    /// system: the style of the window, and its size, which is that of the
    /// screen in fullscreen mode and the stored framebuffer size otherwise.
    pub fn set_fullscreen(&mut self, fullscreen: bool, screen: (i32, i32)) -> (request:
        FullscreenRequest)
        ensures
            *final(self) == (WindowsDisplay { fullscreen, ..*old(self) }),
            request.style == win_style(fullscreen, old(self).window_resizable),
            (request.width, request.height) == if fullscreen {
                screen
            } else {
                old(self).display_data@.size()
            },
    {
        self.fullscreen = fullscreen;
        let style: u32 = get_win_style(fullscreen, self.window_resizable);
        let (width, height): (i32, i32) = if fullscreen {
            screen
        } else {
            self.display_data.screen_size()
        };
        FullscreenRequest { style, width, height }
    }

    /// Takes over the framebuffer size computed from the window's client
    /// area; `None` stands for a client area that could not be had. The
    /// first part of the result says whether the stored size changed: it
    /// does exactly when the size to store, which is never below one pixel
    /// each way, is another than the stored one. The second part is what
    /// is owed for it: if the size changed and the backend runs, the event
    /// handler is told the new size, at once and so before it draws again.
    /// Before the backend runs there is no event handler to tell, and the
    /// one that is created later is told the size of that moment.
    pub fn update_dimensions(&mut self, lifecycle: &Lifecycle, size: Option<(i32, i32)>) -> (update:
        (bool, Vec<Step>))
        ensures
            update.0 == (final(self).display_data@.size() != old(self).display_data@.size()),
            update.0 == (stored_size(size) != old(self).display_data@.size()),
            update.1@ == lifecycle.with(old(self).display_data@).steps_for(
                Command::Resized { size },
            ),
            lifecycle@ == Stage::Running ==> (update.0 <==> update.1@ == seq![
                Step::Invoke(
                    Callback::Resize {
                        width: final(self).display_data@.screen_width,
                        height: final(self).display_data@.screen_height,
                    },
                ),
            ]) && (!update.0 <==> update.1@.len() == 0),
            final(self).display_data@ == old(self).display_data@.apply(DisplayOp::Resize { size }),
            final(self).same_window(*old(self)),
    {
        let before: (i32, i32) = self.display_data.screen_size();
        let steps: Vec<Step> = lifecycle.resized(&mut self.display_data, size);
        let after: (i32, i32) = self.display_data.screen_size();
        proof {
            let told = seq![Step::Invoke(Callback::Resize { width: after.0, height: after.1 })];
            if lifecycle@ == Stage::Running && before != after {
                assert(steps@ =~= told);
            }
            assert(told.len() == 1);
        }
        (before.0 != after.0 || before.1 != after.1, steps)
    }

    /// Sets up scaling from the scale of the main monitor, given as a bit
    /// pattern. The backend is aware of the monitor's scale exactly in
    /// high-DPI mode, and only then does the framebuffer follow it.
    pub fn init_dpi(&mut self, monitor_scale: u32)
        ensures
            final(self).display_data@ == old(self).display_data@.apply(
                DisplayOp::Rescale { reported: monitor_scale },
            ),
            final(self).dpi_aware == old(self).display_data@.high_dpi,
            final(self).fullscreen == old(self).fullscreen,
            final(self).window_resizable == old(self).window_resizable,
            final(self).cursor_grabbed == old(self).cursor_grabbed,
            final(self).iconified == old(self).iconified,
            final(self).show_cursor == old(self).show_cursor,
            final(self).user_cursor == old(self).user_cursor,
            final(self).cursor == old(self).cursor,
            final(self).mouse_x == old(self).mouse_x,
            final(self).mouse_y == old(self).mouse_y,
    {
        self.dpi_aware = self.display_data.high_dpi();
        self.display_data.set_dpi_scale(monitor_scale);
    }

    /// Whether the frame loop goes on: it ends when the quit message was
    /// seen or quitting is final.
    pub fn keeps_running(&self, quit_message_seen: bool) -> (goes_on: bool)
        ensures
            goes_on == !(quit_message_seen || self.display_data@.quit_ordered),
    {
        !(quit_message_seen || self.display_data.quit_ordered())
    }
}

} // verus!
