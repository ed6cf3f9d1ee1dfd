//! The decisions of the macOS backend: cursor and fullscreen bookkeeping,
//! the order of key events, and what an OpenGL view is created with.
use vstd::prelude::*;
use std::collections::HashMap;
use crate::conf::{AppleGfxApi, Conf};
use crate::event::{is_scalar_value, Callback, CursorIcon, KeyMods, MouseButton};
use crate::native::lifecycle::{Command, Lifecycle, Stage, Step};
use crate::native::{
    stored_size,
    DisplayOp,
    DisplayState,
    NativeDisplayData,
    DPI_SCALE_LIMIT,
    DPI_SCALE_ONE,
};

verus! {

pub const NS_OPENGL_PFA_DOUBLE_BUFFER: u32 = 5;
pub const NS_OPENGL_PFA_COLOR_SIZE: u32 = 8;
pub const NS_OPENGL_PFA_ALPHA_SIZE: u32 = 11;
pub const NS_OPENGL_PFA_DEPTH_SIZE: u32 = 12;
pub const NS_OPENGL_PFA_STENCIL_SIZE: u32 = 13;
pub const NS_OPENGL_PFA_SAMPLE_BUFFERS: u32 = 55;
pub const NS_OPENGL_PFA_SAMPLES: u32 = 56;
pub const NS_OPENGL_PFA_MULTISAMPLE: u32 = 59;
pub const NS_OPENGL_PFA_ACCELERATED: u32 = 73;
pub const NS_OPENGL_PFA_OPENGL_PROFILE: u32 = 99;
pub const NS_OPENGL_PROFILE_VERSION_3_2_CORE: u32 = 0x3200;

/// The attributes that every pixel format of the backend has: accelerated
/// and double buffered, the core profile of version 3.2, 24 bits of colour,
/// 8 of alpha, 24 of depth and 8 of stencil.
pub open spec fn common_attributes() -> Seq<u32> {
    seq![
        NS_OPENGL_PFA_ACCELERATED,
        NS_OPENGL_PFA_DOUBLE_BUFFER,
        NS_OPENGL_PFA_OPENGL_PROFILE,
        NS_OPENGL_PROFILE_VERSION_3_2_CORE,
        NS_OPENGL_PFA_COLOR_SIZE,
        24,
        NS_OPENGL_PFA_ALPHA_SIZE,
        8,
        NS_OPENGL_PFA_DEPTH_SIZE,
        24,
        NS_OPENGL_PFA_STENCIL_SIZE,
        8,
    ]
}

/// The attribute list of the pixel format for a sample count, with the zero
/// that ends it. A count above one asks for multisampling with one sample
/// buffer and that many samples; any other count asks for no sample buffer.
pub open spec fn pixel_format_attributes(sample_count: i32) -> Seq<u32> {
    if sample_count > 1 {
        common_attributes() + seq![
            NS_OPENGL_PFA_MULTISAMPLE,
            NS_OPENGL_PFA_SAMPLE_BUFFERS,
            1,
            NS_OPENGL_PFA_SAMPLES,
            sample_count as u32,
            0,
        ]
    } else {
        common_attributes() + seq![NS_OPENGL_PFA_SAMPLE_BUFFERS, 0, 0]
    }
}

/// What an OpenGL view is created with.
#[derive(Debug)]
pub struct OpenGlViewRequest {
    /// The attribute list of the pixel format, zero at its end.
    pub attributes: Vec<u32>,
    /// Whether the view asks for a surface of the best resolution.
    pub wants_best_resolution: bool,
}

/// Decides what an OpenGL view is created with.
pub fn create_opengl_view(sample_count: i32, high_dpi: bool) -> (request: OpenGlViewRequest)
    ensures
        request.attributes@ == pixel_format_attributes(sample_count),
        request.wants_best_resolution == high_dpi,
{
    let mut attributes: Vec<u32> = Vec::new();
    attributes.push(NS_OPENGL_PFA_ACCELERATED);
    attributes.push(NS_OPENGL_PFA_DOUBLE_BUFFER);
    attributes.push(NS_OPENGL_PFA_OPENGL_PROFILE);
    attributes.push(NS_OPENGL_PROFILE_VERSION_3_2_CORE);
    attributes.push(NS_OPENGL_PFA_COLOR_SIZE);
    attributes.push(24);
    attributes.push(NS_OPENGL_PFA_ALPHA_SIZE);
    attributes.push(8);
    attributes.push(NS_OPENGL_PFA_DEPTH_SIZE);
    attributes.push(24);
    attributes.push(NS_OPENGL_PFA_STENCIL_SIZE);
    attributes.push(8);
    if sample_count > 1 {
        attributes.push(NS_OPENGL_PFA_MULTISAMPLE);
        attributes.push(NS_OPENGL_PFA_SAMPLE_BUFFERS);
        attributes.push(1);
        attributes.push(NS_OPENGL_PFA_SAMPLES);
        attributes.push(sample_count as u32);
    } else {
        attributes.push(NS_OPENGL_PFA_SAMPLE_BUFFERS);
        attributes.push(0);
    }
    attributes.push(0);
    assert(attributes@ =~= pixel_format_attributes(sample_count));
    OpenGlViewRequest { attributes, wants_best_resolution: high_dpi }
}

/// The event for a mouse button that went down or up at a place.
pub fn fire_mouse_event(down: bool, button: MouseButton, x: u32, y: u32) -> (callback: Callback)
    ensures
        callback == if down {
            Callback::MouseButtonDown { button, x, y }
        } else {
            Callback::MouseButtonUp { button, x, y }
        },
{
    if down {
        Callback::MouseButtonDown { button, x, y }
    } else {
        Callback::MouseButtonUp { button, x, y }
    }
}

/// The events of one key press as a sequence: the key event if the key has
/// a code, then the character event if the press produces a code point that
/// is a character.
pub open spec fn key_down_events(
    key: Option<u32>,
    character: Option<u32>,
    mods: KeyMods,
    repeat: bool,
) -> Seq<Callback> {
    (match key {
        Some(keycode) => seq![Callback::KeyDown { keycode, mods, repeat }],
        None => Seq::empty(),
    }) + (match character {
        Some(code) => if is_scalar_value(code) {
            seq![Callback::Char { character: code as char, mods, repeat }]
        } else {
            Seq::empty()
        },
        None => Seq::empty(),
    })
}

/// The events of one key press, in the order in which the event handler
/// gets them.
pub fn key_down(key: Option<u32>, character: Option<u32>, mods: KeyMods, repeat: bool) -> (events:
    Vec<Callback>)
    ensures
        events@ == key_down_events(key, character, mods, repeat),
{
    let mut events: Vec<Callback> = Vec::new();
    match key {
        Some(keycode) => {
            events.push(Callback::KeyDown { keycode, mods, repeat });
        },
        None => {},
    }
    match character {
        Some(code) => {
            match char::from_u32(code) {
                Some(c) => {
                    events.push(Callback::Char { character: c, mods, repeat });
                },
                None => {},
            }
        },
        None => {},
    }
    assert(events@ =~= key_down_events(key, character, mods, repeat));
    events
}

/// The event of one key release, if the key has a code.
pub fn key_up(key: Option<u32>, mods: KeyMods) -> (event: Option<Callback>)
    ensures
        event == match key {
            Some(keycode) => Some(Callback::KeyUp { keycode, mods }),
            None => None,
        },
{
    match key {
        Some(keycode) => Some(Callback::KeyUp { keycode, mods }),
        None => None,
    }
}

/// The key of an icon in the cache of loaded cursors.
pub open spec fn cursor_slot(icon: CursorIcon) -> int {
    match icon {
        CursorIcon::Default => 0,
        CursorIcon::Help => 1,
        CursorIcon::Pointer => 2,
        CursorIcon::Wait => 3,
        CursorIcon::Crosshair => 4,
        CursorIcon::Text => 5,
        CursorIcon::Move => 6,
        CursorIcon::NotAllowed => 7,
        CursorIcon::EWResize => 8,
        CursorIcon::NSResize => 9,
        CursorIcon::NESWResize => 10,
        CursorIcon::NWSEResize => 11,
    }
}

/// The key of an icon in the cache of loaded cursors. Icons that differ
/// have keys that differ.
pub fn cursor_index(icon: CursorIcon) -> (index: u64)
    ensures
        index == cursor_slot(icon),
        index < 12,
        forall|other: CursorIcon| cursor_slot(other) == cursor_slot(icon) ==> other == icon,
{
    match icon {
        CursorIcon::Default => 0,
        CursorIcon::Help => 1,
        CursorIcon::Pointer => 2,
        CursorIcon::Wait => 3,
        CursorIcon::Crosshair => 4,
        CursorIcon::Text => 5,
        CursorIcon::Move => 6,
        CursorIcon::NotAllowed => 7,
        CursorIcon::EWResize => 8,
        CursorIcon::NSResize => 9,
        CursorIcon::NESWResize => 10,
        CursorIcon::NWSEResize => 11,
    }
}

/// The state of the macOS backend.
pub struct MacosDisplay {
    pub data: NativeDisplayData,
    pub fullscreen: bool,
    /// Whether the pointer is shown. Hiding and showing are counted by the
    /// operating system, so the state is kept here to keep them balanced.
    pub cursor_shown: bool,
    pub current_cursor: CursorIcon,
    /// The handles of the cursors loaded so far, by the key of their icon.
    pub cursors: HashMap<u64, usize>,
    pub gfx_api: AppleGfxApi,
}

impl MacosDisplay {
    /// Whether everything but the display data is as in `before`.
    pub open spec fn same_window(self, before: MacosDisplay) -> bool {
        &&& self.fullscreen == before.fullscreen
        &&& self.cursor_shown == before.cursor_shown
        &&& self.current_cursor == before.current_cursor
        &&& self.cursors == before.cursors
        &&& self.gfx_api == before.gfx_api
    }

    /// The handle of the cursor that is loaded for an icon, if one is.
    pub open spec fn loaded(self, icon: CursorIcon) -> Option<usize> {
        if self.cursors@.contains_key(cursor_slot(icon) as u64) {
            Some(self.cursors@[cursor_slot(icon) as u64])
        } else {
            None
        }
    }

    /// The state of a backend before its window exists.
    pub fn new(conf: &Conf) -> (display: MacosDisplay)
        ensures
            display.data@ == DisplayState::initial(conf.high_dpi),
            !display.fullscreen,
            display.cursor_shown,
            display.current_cursor == CursorIcon::Default,
            forall|icon: CursorIcon| display.loaded(icon) is None,
            display.gfx_api == conf.platform.apple_gfx_api,
    {
        MacosDisplay {
            data: NativeDisplayData::new(conf.high_dpi),
            fullscreen: false,
            cursor_shown: true,
            current_cursor: CursorIcon::Default,
            cursors: HashMap::new(),
            gfx_api: conf.platform.apple_gfx_api,
        }
    }

    /// Current framebuffer size in pixels, width first.
    pub fn screen_size(&self) -> (size: (i32, i32))
        ensures
            size == self.data@.size(),
            size.0 >= 1,
            size.1 >= 1,
    {
        self.data.screen_size()
    }

    /// Ratio between framebuffer pixels and logical pixels, as a bit pattern.
    pub fn dpi_scale(&self) -> (scale: u32)
        ensures
            scale == self.data@.dpi_scale,
            DPI_SCALE_ONE <= scale <= DPI_SCALE_LIMIT,
            !self.data@.high_dpi ==> scale == DPI_SCALE_ONE,
    {
        self.data.dpi_scale()
    }

    /// Whether high-DPI mode was asked for at creation. The answer never
    /// changes; without the mode the scale is one.
    pub fn high_dpi(&self) -> (on: bool)
        ensures
            on == self.data@.high_dpi,
            !on ==> self.data@.dpi_scale == DPI_SCALE_ONE,
    {
        self.data.high_dpi()
    }

    /// The graphics interface of the view.
    pub fn apple_gfx_api(&self) -> (api: AppleGfxApi)
        ensures
            api == self.gfx_api,
    {
        self.gfx_api
    }

    /// Finalizes quitting.
    pub fn order_quit(&mut self)
        ensures
            final(self).data@ == old(self).data@.apply(DisplayOp::OrderQuit),
            final(self).same_window(*old(self)),
    {
        self.data.order_quit();
    }

    /// Asks to quit; the event handler may veto at the next close attempt.
    pub fn request_quit(&mut self)
        ensures
            final(self).data@ == old(self).data@.apply(DisplayOp::RequestQuit),
            final(self).same_window(*old(self)),
    {
        self.data.request_quit();
    }

    /// Takes a pending quit request back.
    pub fn cancel_quit(&mut self)
        ensures
            final(self).data@ == old(self).data@.apply(DisplayOp::CancelQuit),
            final(self).same_window(*old(self)),
    {
        self.data.cancel_quit();
    }

    /// Records whether the pointer is shown. The result is the visibility
    /// to set, or `None` if it is as wanted already.
    pub fn show_mouse(&mut self, show: bool) -> (change: Option<bool>)
        ensures
            change == if old(self).cursor_shown == show {
                None
            } else {
                Some(show)
            },
            *final(self) == (MacosDisplay { cursor_shown: show, ..*old(self) }),
    {
        let change: Option<bool> = if self.cursor_shown != show {
            Some(show)
        } else {
            None
        };
        self.cursor_shown = show;
        change
    }

    /// Makes `cursor` the pointer of the view. The result says whether the
    /// cursor rectangles of the view are to be made anew, which they are
    /// if another cursor was set before.
    pub fn set_mouse_cursor(&mut self, cursor: CursorIcon) -> (invalidate: bool)
        ensures
            invalidate == (old(self).current_cursor != cursor),
            *final(self) == (MacosDisplay { current_cursor: cursor, ..*old(self) }),
    {
        if self.current_cursor != cursor {
            self.current_cursor = cursor;
            true
        } else {
            false
        }
    }

    /// Records the fullscreen mode that is wanted. The result says whether
    /// fullscreen mode is to be toggled, which it is if the mode changes.
    pub fn set_fullscreen(&mut self, fullscreen: bool) -> (toggle: bool)
        ensures
            toggle == (old(self).fullscreen != fullscreen),
            *final(self) == (MacosDisplay { fullscreen, ..*old(self) }),
    {
        if self.fullscreen != fullscreen {
            self.fullscreen = fullscreen;
            true
        } else {
            false
        }
    }

    /// The window entered fullscreen mode.
    pub fn window_did_enter_fullscreen(&mut self)
        ensures
            *final(self) == (MacosDisplay { fullscreen: true, ..*old(self) }),
    {
        self.fullscreen = true;
    }

    /// The window left fullscreen mode.
    pub fn window_did_exit_fullscreen(&mut self)
        ensures
            *final(self) == (MacosDisplay { fullscreen: false, ..*old(self) }),
    {
        self.fullscreen = false;
    }

    /// The text of the clipboard, from what the pasteboard holds as a
    /// string: an empty pasteboard has no text.
    pub fn clipboard_get(&self, content: String) -> (text: Option<String>)
        ensures
            content@.len() == 0 ==> text is None,
            content@.len() != 0 ==> text == Some(content),
    {
        if content.as_str().is_empty() {
            None
        } else {
            Some(content)
        }
    }

    /// Takes over the scale of the screen that the window is on, given as
    /// a bit pattern. The result is the scale that is in force.
    pub fn update_scale(&mut self, backing_scale: u32) -> (scale: u32)
        ensures
            final(self).data@ == old(self).data@.apply(
                DisplayOp::Rescale { reported: backing_scale },
            ),
            final(self).same_window(*old(self)),
            scale == final(self).data@.dpi_scale,
    {
        self.data.set_dpi_scale(backing_scale);
        self.data.dpi_scale()
    }

    /// Takes over the framebuffer size computed from the bounds of the
    /// view and the scale in force. The first part of the result says
    /// whether the stored size changed: it does exactly when the size to
    /// store, which is never below one pixel each way, is another than the
    /// stored one. The second part is what is owed for it: if the size
    /// changed and the backend runs, the event handler is told the new
    /// size, at once and so before it draws again. Before the backend runs
    /// there is no event handler to tell, and the one that is created later
    /// is told the size of that moment.
    pub fn update_dimensions(&mut self, lifecycle: &Lifecycle, size: (i32, i32)) -> (update: (
        bool,
        Vec<Step>,
    ))
        ensures
            update.0 == (final(self).data@.size() != old(self).data@.size()),
            update.0 == (stored_size(Some(size)) != old(self).data@.size()),
            update.1@ == lifecycle.with(old(self).data@).steps_for(
                Command::Resized { size: Some(size) },
            ),
            lifecycle@ == Stage::Running ==> (update.0 <==> update.1@ == seq![
                Step::Invoke(
                    Callback::Resize {
                        width: final(self).data@.screen_width,
                        height: final(self).data@.screen_height,
                    },
                ),
            ]) && (!update.0 <==> update.1@.len() == 0),
            final(self).data@ == old(self).data@.apply(DisplayOp::Resize { size: Some(size) }),
            final(self).same_window(*old(self)),
    {
        let before: (i32, i32) = self.data.screen_size();
        let steps: Vec<Step> = lifecycle.resized(&mut self.data, Some(size));
        let after: (i32, i32) = self.data.screen_size();
        proof {
            let told = seq![Step::Invoke(Callback::Resize { width: after.0, height: after.1 })];
            if lifecycle@ == Stage::Running && before != after {
                assert(steps@ =~= told);
            }
            assert(told.len() == 1);
        }
        (before.0 != after.0 || before.1 != after.1, steps)
    }

    /// The handle of the cursor loaded for the current icon, or `None` if
    /// it has yet to be loaded.
    pub fn cached_cursor(&self) -> (handle: Option<usize>)
        ensures
            handle == self.loaded(self.current_cursor),
    {
        broadcast use vstd::std_specs::hash::group_hash_axioms;

        let key: u64 = cursor_index(self.current_cursor);
        match self.cursors.get(&key) {
            Some(handle) => Some(*handle),
            None => None,
        }
    }

    /// Remembers the handle of the cursor that was loaded for the current
    /// icon, so that it is loaded once only. What is remembered for the
    /// other icons stays.
    pub fn remember_cursor(&mut self, handle: usize)
        ensures
            final(self).loaded(old(self).current_cursor) == Some(handle),
            forall|icon: CursorIcon|
                icon != old(self).current_cursor ==> final(self).loaded(icon) == old(self).loaded(
                    icon,
                ),
            final(self).data@ == old(self).data@,
            final(self).fullscreen == old(self).fullscreen,
            final(self).cursor_shown == old(self).cursor_shown,
            final(self).current_cursor == old(self).current_cursor,
            final(self).gfx_api == old(self).gfx_api,
    {
        broadcast use vstd::std_specs::hash::group_hash_axioms;

        let key: u64 = cursor_index(self.current_cursor);
        self.cursors.insert(key, handle);
    }
}

} // verus!
