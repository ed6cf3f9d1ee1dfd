//! The decisions of the Android backend, where the operating system calls
//! in on one thread and rendering happens on another. The calling thread
//! turns each callback into a message; the render thread takes the messages
//! in order and is told, for each, what to do.
use vstd::prelude::*;
use crate::conf::Conf;
use crate::event::{is_scalar_value, Callback, KeyMods, TouchPhase};
use crate::native::channel::{ChannelModel, Delivery, EventChannel};
use crate::native::trace::{
    count,
    draws,
    effects,
    held_after,
    held_through,
    lemma_count_absent,
    lemma_count_concat,
    lemma_count_push,
    lemma_effects_concat,
    lemma_effects_of_one,
    lemma_held_through_concat,
    lemma_held_through_nothing,
    lemma_held_through_push,
    lemma_notified_size_concat,
    lemma_releases_leave_nothing,
    lemma_silent_actions_notify_nothing,
    notified_size,
    releases_of,
    tells_no_size,
    Effectful,
    Resource,
    ResourceEvent,
};
use crate::native::{stored_size, DisplayOp, DisplayState, NativeDisplayData, DPI_SCALE_ONE};

verus! {

/// One occurrence on the side of the operating system, on its way to the
/// render thread. A native window is named by its handle, which is never
/// zero for a window that exists; touch coordinates are bit patterns of
/// single-precision numbers.
#[derive(Clone, Copy, Debug, PartialEq, Eq, Structural)]
pub enum Message {
    SurfaceChanged { window: usize, width: i32, height: i32 },
    SurfaceCreated { window: usize },
    SurfaceDestroyed,
    Touch { phase: TouchPhase, touch_id: u64, x: u32, y: u32 },
    Character { character: u32 },
    KeyDown { keycode: u32 },
    KeyUp { keycode: u32 },
    Pause,
    Resume,
    Destroy,
}

/// One thing for the render thread to do. Actions are carried out in the
/// order in which they are handed out; one that fails ends the process.
#[derive(Clone, Copy, Debug, PartialEq, Eq, Structural)]
pub enum Action {
    /// Connect to the display server of the graphics interface.
    InitializeDisplay,
    /// Create the graphics context.
    CreateContext,
    /// Create the drawing surface on the given native window.
    CreateSurface { window: usize },
    /// Make context and surface current on this thread.
    MakeCurrent,
    /// Make nothing current on this thread.
    ClearCurrent,
    DestroySurface,
    DestroyContext,
    TerminateDisplay,
    /// Give back the reference to a native window that is no longer drawn on.
    ReleaseWindow { window: usize },
    /// Resolve the functions of the graphics interface.
    LoadGlFunctions,
    /// Have the application create its event handler.
    CreateHandler,
    SetFullScreen { fullscreen: bool },
    ShowKeyboard { show: bool },
    SwapBuffers,
    /// Call the event handler.
    Invoke(Callback),
}

impl Effectful for Action {
    open spec fn effect(self) -> Option<ResourceEvent> {
        match self {
            Action::InitializeDisplay => Some(ResourceEvent::Acquire(Resource::Display)),
            Action::CreateContext => Some(ResourceEvent::Acquire(Resource::Context)),
            Action::CreateSurface { window } => Some(ResourceEvent::Acquire(Resource::Surface)),
            Action::MakeCurrent => Some(ResourceEvent::Acquire(Resource::Current)),
            Action::ClearCurrent => Some(ResourceEvent::Release(Resource::Current)),
            Action::DestroySurface => Some(ResourceEvent::Release(Resource::Surface)),
            Action::DestroyContext => Some(ResourceEvent::Release(Resource::Context)),
            Action::TerminateDisplay => Some(ResourceEvent::Release(Resource::Display)),
            _ => None,
        }
    }

    open spec fn callback(self) -> Option<Callback> {
        match self {
            Action::Invoke(callback) => Some(callback),
            _ => None,
        }
    }
}

/// Where the render thread stands.
#[derive(Clone, Copy, Debug, PartialEq, Eq, Structural)]
pub enum Phase {
    /// No usable surface has been announced yet; nothing native exists.
    AwaitingSurface,
    /// The graphics context exists and the event handler with it.
    Running,
    /// Everything has been given back.
    Terminated,
}

/// The state of the render thread.
#[derive(Clone, Copy, Debug, PartialEq, Eq, Structural)]
pub struct MainThreadState {
    pub phase: Phase,
    /// The native window that is drawn on, or zero.
    pub window: usize,
    /// Whether a surface is attached to the context.
    pub surface_attached: bool,
    /// Whether the render loop is to end.
    pub quit: bool,
}

/// The display as the Android backend keeps it.
pub struct AndroidDisplay {
    pub data: NativeDisplayData,
    pub fullscreen: bool,
}

/// Whether a message announces a surface that a context can be created on:
/// a window that exists, at least one pixel wide and high.
pub open spec fn announces_usable_surface(msg: Message) -> bool {
    msg matches Message::SurfaceChanged { window, width, height } && window != 0 && width >= 1
        && height >= 1
}

impl MainThreadState {
    /// The state in which the render thread starts.
    pub open spec fn initial() -> MainThreadState {
        MainThreadState {
            phase: Phase::AwaitingSurface,
            window: 0,
            surface_attached: false,
            quit: false,
        }
    }

    /// The resources that the render thread holds, in the order of their
    /// acquisition.
    pub open spec fn held(self) -> Seq<Resource> {
        if self.phase != Phase::Running {
            Seq::empty()
        } else if self.surface_attached {
            seq![Resource::Display, Resource::Context, Resource::Surface, Resource::Current]
        } else {
            seq![Resource::Display, Resource::Context]
        }
    }

    /// What detaches the surface: nothing if none is attached.
    pub open spec fn detaching(self) -> Seq<Action> {
        if self.phase == Phase::Running && self.surface_attached {
            seq![Action::ClearCurrent, Action::DestroySurface]
        } else {
            Seq::empty()
        }
    }

    /// What attaches a surface on `window`: the window that was drawn on so
    /// far is given back, a surface that is attached is detached, and the
    /// new surface is created and made current.
    pub open spec fn attaching(self, window: usize) -> Seq<Action> {
        if self.phase != Phase::Running {
            Seq::empty()
        } else {
            (if self.window != 0 {
                seq![Action::ReleaseWindow { window: self.window }]
            } else {
                Seq::empty()
            }) + self.detaching() + seq![Action::CreateSurface { window }, Action::MakeCurrent]
        }
    }

    /// What brings the backend up on the first usable surface.
    pub open spec fn starting(window: usize) -> Seq<Action> {
        seq![
            Action::InitializeDisplay,
            Action::CreateContext,
            Action::CreateSurface { window },
            Action::MakeCurrent,
            Action::LoadGlFunctions,
            Action::CreateHandler,
        ]
    }

    /// What the render thread does about a message, in a display that is in
    /// fullscreen mode or not.
    pub open spec fn actions_for(self, fullscreen: bool, msg: Message) -> Seq<Action> {
        match self.phase {
            Phase::Terminated => Seq::empty(),
            Phase::AwaitingSurface => match msg {
                Message::SurfaceChanged { window, width, height } => if announces_usable_surface(
                    msg,
                ) {
                    Self::starting(window)
                } else {
                    Seq::empty()
                },
                _ => Seq::empty(),
            },
            Phase::Running => match msg {
                Message::SurfaceCreated { window } => self.attaching(window),
                Message::SurfaceDestroyed => self.detaching(),
                Message::SurfaceChanged { window, width, height } => self.attaching(window).push(
                    Action::Invoke(
                        Callback::Resize {
                            width: stored_size(Some((width, height))).0,
                            height: stored_size(Some((width, height))).1,
                        },
                    ),
                ),
                Message::Touch { phase, touch_id, x, y } => seq![
                    Action::Invoke(Callback::Touch { phase, id: touch_id, x, y }),
                ],
                Message::Character { character } => if is_scalar_value(character) {
                    seq![
                        Action::Invoke(
                            Callback::Char {
                                character: character as char,
                                mods: KeyMods::none(),
                                repeat: false,
                            },
                        ),
                    ]
                } else {
                    Seq::empty()
                },
                Message::KeyDown { keycode } => seq![
                    Action::Invoke(
                        Callback::KeyDown { keycode, mods: KeyMods::none(), repeat: false },
                    ),
                ],
                Message::KeyUp { keycode } => seq![
                    Action::Invoke(Callback::KeyUp { keycode, mods: KeyMods::none() }),
                ],
                Message::Pause => seq![Action::Invoke(Callback::WindowMinimized)],
                Message::Resume => if fullscreen {
                    seq![
                        Action::SetFullScreen { fullscreen: true },
                        Action::Invoke(Callback::WindowRestored),
                    ]
                } else {
                    seq![Action::Invoke(Callback::WindowRestored)]
                },
                Message::Destroy => Seq::empty(),
            },
        }
    }

    /// The state of the render thread after a message.
    pub open spec fn after(self, msg: Message) -> MainThreadState {
        match self.phase {
            Phase::Terminated => self,
            Phase::AwaitingSurface => match msg {
                Message::SurfaceChanged { window, width, height } => if announces_usable_surface(
                    msg,
                ) {
                    MainThreadState {
                        phase: Phase::Running,
                        window,
                        surface_attached: true,
                        quit: self.quit,
                    }
                } else {
                    self
                },
                _ => self,
            },
            Phase::Running => match msg {
                Message::SurfaceCreated { window } => MainThreadState {
                    window,
                    surface_attached: true,
                    ..self
                },
                Message::SurfaceChanged { window, width, height } => MainThreadState {
                    window,
                    surface_attached: true,
                    ..self
                },
                Message::SurfaceDestroyed => MainThreadState { surface_attached: false, ..self },
                Message::Destroy => MainThreadState { quit: true, ..self },
                _ => self,
            },
        }
    }

    /// The display data after a message: a surface that changed sets the
    /// framebuffer size, once the backend is up or by bringing it up.
    pub open spec fn display_after(self, display: DisplayState, msg: Message) -> DisplayState {
        match msg {
            Message::SurfaceChanged { window, width, height } => if self.phase == Phase::Running
                || (self.phase == Phase::AwaitingSurface && announces_usable_surface(msg)) {
                display.apply(DisplayOp::Resize { size: Some((width, height)) })
            } else {
                display
            },
            _ => display,
        }
    }

    /// What one turn of the frame loop does, after the messages: with a
    /// surface attached the event handler updates and draws and the frame
    /// is shown; without one nothing happens.
    pub open spec fn frame_actions(self) -> Seq<Action> {
        if self.phase == Phase::Running && self.surface_attached {
            seq![
                Action::Invoke(Callback::Update),
                Action::Invoke(Callback::Draw),
                Action::SwapBuffers,
            ]
        } else {
            Seq::empty()
        }
    }

    /// What a frame is followed by, once it was drawn and shown: if the
    /// application has asked to quit and quitting is not final, a close
    /// attempt starts and the event handler is asked, once, whether to
    /// quit. Before the backend is up and after it was torn down nobody
    /// is asked.
    pub open spec fn after_frame_actions(self, display: DisplayState) -> Seq<Action> {
        if self.phase == Phase::Running && display.quit_requested && !display.quit_ordered {
            seq![Action::Invoke(Callback::QuitRequested)]
        } else {
            Seq::empty()
        }
    }

    /// Whether the render loop goes on with another turn: it ends when the
    /// activity was destroyed, when the application's quitting is final,
    /// and after the teardown.
    pub open spec fn goes_on(self, display: DisplayState) -> bool {
        self.phase != Phase::Terminated && !self.quit && !display.quit_ordered
    }

    /// What gives back everything that is held, last acquired first.
    pub open spec fn teardown_actions(self) -> Seq<Action> {
        if self.phase != Phase::Running {
            Seq::empty()
        } else {
            self.detaching() + seq![Action::DestroyContext, Action::TerminateDisplay]
        }
    }
}

impl MainThreadState {
    /// The state after everything was given back.
    pub open spec fn torn_down(self) -> MainThreadState {
        MainThreadState { phase: Phase::Terminated, surface_attached: false, ..self }
    }

    /// The state in which the render thread starts: it waits for a usable
    /// surface and holds nothing.
    pub fn new() -> (state: MainThreadState)
        ensures
            state == MainThreadState::initial(),
    {
        MainThreadState {
            phase: Phase::AwaitingSurface,
            window: 0,
            surface_attached: false,
            quit: false,
        }
    }

    /// Detaches the surface and keeps the context: nothing is current
    /// afterwards and the surface is gone. Without a surface there is
    /// nothing to do.
    pub fn destroy_surface(&mut self) -> (actions: Vec<Action>)
        ensures
            actions@ == old(self).detaching(),
            *final(self) == old(self).after(Message::SurfaceDestroyed),
    {
        let mut actions: Vec<Action> = Vec::new();
        if self.phase == Phase::Running {
            if self.surface_attached {
                actions.push(Action::ClearCurrent);
                actions.push(Action::DestroySurface);
                assert(actions@ =~= old(self).detaching());
            }
            self.surface_attached = false;
        }
        actions
    }

    /// Attaches a surface on `window`, in place of the one that is attached
    /// if there is one.
    pub fn update_surface(&mut self, window: usize) -> (actions: Vec<Action>)
        ensures
            actions@ == old(self).attaching(window),
            *final(self) == old(self).after(Message::SurfaceCreated { window }),
    {
        let mut actions: Vec<Action> = Vec::new();
        if self.phase == Phase::Running {
            if self.window != 0 {
                actions.push(Action::ReleaseWindow { window: self.window });
            }
            if self.surface_attached {
                actions.push(Action::ClearCurrent);
                actions.push(Action::DestroySurface);
            }
            actions.push(Action::CreateSurface { window });
            actions.push(Action::MakeCurrent);
            assert(actions@ =~= old(self).attaching(window));
            self.window = window;
            self.surface_attached = true;
        }
        actions
    }

    /// Takes one message and says what to do about it.
    ///
    /// Before the first usable surface is announced, every other message is
    /// discarded; that surface brings the backend up. From then on a
    /// surface that is created or changed is attached, one that is
    /// destroyed is detached, a change of the surface sets the framebuffer
    /// size and is told to the event handler, input is handed to the event
    /// handler, and the request to destroy ends the render loop after the
    /// turn that is under way. After the teardown nothing happens any more.
    pub fn process_message(&mut self, display: &mut AndroidDisplay, msg: Message) -> (actions: Vec<
        Action,
    >)
        ensures
            actions@ == old(self).actions_for(old(display).fullscreen, msg),
            *final(self) == old(self).after(msg),
            final(display).data@ == old(self).display_after(old(display).data@, msg),
            final(display).fullscreen == old(display).fullscreen,
    {
        let mut actions: Vec<Action> = Vec::new();
        match self.phase {
            Phase::Terminated => {},
            Phase::AwaitingSurface => {
                match msg {
                    Message::SurfaceChanged { window, width, height } => {
                        if window != 0 && width >= 1 && height >= 1 {
                            actions.push(Action::InitializeDisplay);
                            actions.push(Action::CreateContext);
                            actions.push(Action::CreateSurface { window });
                            actions.push(Action::MakeCurrent);
                            actions.push(Action::LoadGlFunctions);
                            actions.push(Action::CreateHandler);
                            assert(actions@ =~= MainThreadState::starting(window));
                            self.phase = Phase::Running;
                            self.window = window;
                            self.surface_attached = true;
                            let _ = display.data.update_dimensions(Some((width, height)));
                        }
                    },
                    _ => {},
                }
            },
            Phase::Running => {
                match msg {
                    Message::SurfaceCreated { window } => {
                        actions = self.update_surface(window);
                    },
                    Message::SurfaceDestroyed => {
                        actions = self.destroy_surface();
                    },
                    Message::SurfaceChanged { window, width, height } => {
                        actions = self.update_surface(window);
                        let _ = display.data.update_dimensions(Some((width, height)));
                        let (stored_width, stored_height): (i32, i32) = display.data.screen_size();
                        actions.push(
                            Action::Invoke(
                                Callback::Resize { width: stored_width, height: stored_height },
                            ),
                        );
                    },
                    Message::Touch { phase, touch_id, x, y } => {
                        actions.push(Action::Invoke(Callback::Touch { phase, id: touch_id, x, y }));
                        assert(actions@ =~= old(self).actions_for(old(display).fullscreen, msg));
                    },
                    Message::Character { character } => {
                        match char::from_u32(character) {
                            Some(c) => {
                                actions.push(
                                    Action::Invoke(
                                        Callback::Char {
                                            character: c,
                                            mods: KeyMods::default(),
                                            repeat: false,
                                        },
                                    ),
                                );
                            },
                            None => {},
                        }
                        assert(actions@ =~= old(self).actions_for(old(display).fullscreen, msg));
                    },
                    Message::KeyDown { keycode } => {
                        actions.push(
                            Action::Invoke(
                                Callback::KeyDown {
                                    keycode,
                                    mods: KeyMods::default(),
                                    repeat: false,
                                },
                            ),
                        );
                        assert(actions@ =~= old(self).actions_for(old(display).fullscreen, msg));
                    },
                    Message::KeyUp { keycode } => {
                        actions.push(
                            Action::Invoke(Callback::KeyUp { keycode, mods: KeyMods::default() }),
                        );
                        assert(actions@ =~= old(self).actions_for(old(display).fullscreen, msg));
                    },
                    Message::Pause => {
                        actions.push(Action::Invoke(Callback::WindowMinimized));
                        assert(actions@ =~= old(self).actions_for(old(display).fullscreen, msg));
                    },
                    Message::Resume => {
                        if display.fullscreen {
                            actions.push(Action::SetFullScreen { fullscreen: true });
                        }
                        actions.push(Action::Invoke(Callback::WindowRestored));
                        assert(actions@ =~= old(self).actions_for(old(display).fullscreen, msg));
                    },
                    Message::Destroy => {
                        self.quit = true;
                    },
                }
            },
        }
        actions
    }

    /// One turn of the frame loop, after the messages that waited were
    /// processed: with a surface attached the event handler updates, then
    /// draws, and the frame is shown. Without a surface, and before the
    /// backend is up or after it was torn down, nothing is drawn.
    pub fn frame(&self) -> (actions: Vec<Action>)
        ensures
            actions@ == self.frame_actions(),
    {
        let mut actions: Vec<Action> = Vec::new();
        if self.phase == Phase::Running && self.surface_attached {
            actions.push(Action::Invoke(Callback::Update));
            actions.push(Action::Invoke(Callback::Draw));
            actions.push(Action::SwapBuffers);
            assert(actions@ =~= self.frame_actions());
        }
        actions
    }

    /// Whether the graphics context exists, so that the functions of the
    /// graphics interface can be resolved.
    pub fn has_context(&self) -> (exists: bool)
        ensures
            exists == (self.phase == Phase::Running),
            exists == self.held().contains(Resource::Context),
    {
        proof {
            let held = self.held();
            if self.phase == Phase::Running {
                assert(held[1] == Resource::Context);
            }
        }
        self.phase == Phase::Running
    }

    /// What a frame is followed by, once it was drawn and shown. If the
    /// application has asked to quit, be it from within that very frame,
    /// and quitting is not final, a close attempt starts: the event
    /// handler's `quit_requested_event` is invoked, once, and from within
    /// it the application may cancel. The attempt is then decided with
    /// `AndroidDisplay::close_decided`. To be called after the actions of
    /// `frame` were carried out.
    pub fn after_frame(&self, display: &AndroidDisplay) -> (actions: Vec<Action>)
        ensures
            actions@ == self.after_frame_actions(display.data@),
    {
        let mut actions: Vec<Action> = Vec::new();
        if self.phase == Phase::Running && display.data.quit_requested()
            && !display.data.quit_ordered() {
            actions.push(Action::Invoke(Callback::QuitRequested));
            assert(actions@ =~= self.after_frame_actions(display.data@));
        }
        actions
    }

    /// Whether the render loop goes on with another turn: it ends when the
    /// activity was destroyed, when the application's quitting is final,
    /// and after the teardown.
    pub fn keeps_running(&self, display: &AndroidDisplay) -> (goes_on: bool)
        ensures
            goes_on == self.goes_on(display.data@),
    {
        self.phase != Phase::Terminated && !self.quit && !display.data.quit_ordered()
    }

    /// Gives back everything that is held, last acquired first: nothing is
    /// current any more, the surface goes, then the context, then the
    /// connection to the display server. What is not held is not given
    /// back, so a second teardown does nothing.
    pub fn teardown(&mut self) -> (actions: Vec<Action>)
        ensures
            actions@ == old(self).teardown_actions(),
            *final(self) == old(self).torn_down(),
    {
        let mut actions: Vec<Action> = Vec::new();
        if self.phase == Phase::Running {
            if self.surface_attached {
                actions.push(Action::ClearCurrent);
                actions.push(Action::DestroySurface);
            }
            actions.push(Action::DestroyContext);
            actions.push(Action::TerminateDisplay);
            assert(actions@ =~= old(self).teardown_actions());
        }
        self.phase = Phase::Terminated;
        self.surface_attached = false;
        actions
    }
}

impl AndroidDisplay {
    /// The display before any surface was announced.
    pub fn new(fullscreen: bool) -> (display: AndroidDisplay)
        ensures
            display.data@ == DisplayState::initial(true),
            display.fullscreen == fullscreen,
    {
        AndroidDisplay { data: NativeDisplayData::new(true), fullscreen }
    }

    /// Current framebuffer size in pixels, width first.
    pub fn screen_size(&self) -> (size: (i32, i32))
        ensures
            size == self.data@.size(),
            size.0 >= 1,
            size.1 >= 1,
    {
        self.data.screen_size()
    }

    /// Ratio between framebuffer pixels and logical pixels, as a bit
    /// pattern: always one.
    pub fn dpi_scale(&self) -> (scale: u32)
        ensures
            scale == DPI_SCALE_ONE,
    {
        DPI_SCALE_ONE
    }

    /// The framebuffer always has the resolution of the screen.
    pub fn high_dpi(&self) -> (on: bool)
        ensures
            on,
    {
        true
    }

    /// Finalizes quitting: the render loop ends after the turn that is
    /// under way. This cannot be undone.
    pub fn order_quit(&mut self)
        ensures
            final(self).data@ == old(self).data@.apply(DisplayOp::OrderQuit),
            final(self).fullscreen == old(self).fullscreen,
    {
        self.data.order_quit();
    }

    /// Asks to quit. After the frame that is under way the event handler
    /// is asked and may veto.
    pub fn request_quit(&mut self)
        ensures
            final(self).data@ == old(self).data@.apply(DisplayOp::RequestQuit),
            final(self).fullscreen == old(self).fullscreen,
    {
        self.data.request_quit();
    }

    /// Takes a pending quit request back. Once quitting is final this does
    /// nothing.
    pub fn cancel_quit(&mut self)
        ensures
            final(self).data@ == old(self).data@.apply(DisplayOp::CancelQuit),
            final(self).fullscreen == old(self).fullscreen,
    {
        self.data.cancel_quit();
    }

    /// Ends a close attempt, after the event handler had its say. A request
    /// that is still pending becomes final; one that was cancelled leaves
    /// the backend running. The result says whether quitting is final.
    pub fn close_decided(&mut self) -> (closes: bool)
        ensures
            final(self).data@ == old(self).data@.apply(DisplayOp::CloseDecided),
            final(self).fullscreen == old(self).fullscreen,
            closes == final(self).data@.quit_ordered,
    {
        self.data.close_decided()
    }

    /// Switches fullscreen mode: the activity is told, and the mode is
    /// remembered so that it can be asserted again when the application
    /// comes back to the foreground.
    pub fn set_fullscreen(&mut self, fullscreen: bool) -> (action: Action)
        ensures
            action == (Action::SetFullScreen { fullscreen }),
            final(self).fullscreen == fullscreen,
            final(self).data@ == old(self).data@,
    {
        self.fullscreen = fullscreen;
        Action::SetFullScreen { fullscreen }
    }

    /// Shows or hides the on-screen keyboard.
    pub fn show_keyboard(&self, show: bool) -> (action: Action)
        ensures
            action == (Action::ShowKeyboard { show }),
    {
        Action::ShowKeyboard { show }
    }

    /// There is no clipboard on this backend.
    pub fn clipboard_get(&self) -> (text: Option<String>)
        ensures
            text is None,
    {
        None
    }
}

/// Starts the backend on the side of the operating system: the channel to
/// the render thread exists from now on, and fullscreen mode is entered if
/// the configuration asks for it.
pub fn run(conf: &Conf) -> (launch: (EventChannel<Message>, Vec<Action>))
    ensures
        launch.0@ == ChannelModel::<Message>::unattached().attach(),
        launch.1@ == if conf.fullscreen {
            seq![Action::SetFullScreen { fullscreen: true }]
        } else {
            Seq::<Action>::empty()
        },
{
    let mut actions: Vec<Action> = Vec::new();
    if conf.fullscreen {
        actions.push(Action::SetFullScreen { fullscreen: true });
        assert(actions@ =~= seq![Action::SetFullScreen { fullscreen: true }]);
    }
    let mut channel: EventChannel<Message> = EventChannel::new();
    channel.attach();
    (channel, actions)
}

/// Hands a message to the render thread, without ever waiting. A message
/// that cannot be delivered is dropped and the result says why, so that the
/// caller can log it; the channel is as it was.
pub fn send_message(channel: &mut EventChannel<Message>, message: Message) -> (delivery: Delivery)
    ensures
        delivery == old(channel)@.delivery(),
        final(channel)@ == old(channel)@.send(message),
{
    channel.send(message)
}

/// The phase of a touch for the action code of the view.
pub open spec fn touch_phase(action: i32) -> Option<TouchPhase> {
    if action == 0 {
        Some(TouchPhase::Moved)
    } else if action == 1 {
        Some(TouchPhase::Ended)
    } else if action == 2 {
        Some(TouchPhase::Started)
    } else if action == 3 {
        Some(TouchPhase::Cancelled)
    } else {
        None
    }
}

/// The message for a touch that the view reports, or `None` for an action
/// code that stands for no phase.
pub fn surface_on_touch(touch_id: i32, action: i32, x: u32, y: u32) -> (message: Option<Message>)
    ensures
        message == match touch_phase(action) {
            Some(phase) => Some(Message::Touch { phase, touch_id: touch_id as u64, x, y }),
            None => None,
        },
{
    let phase: TouchPhase = match action {
        0 => TouchPhase::Moved,
        1 => TouchPhase::Ended,
        2 => TouchPhase::Started,
        3 => TouchPhase::Cancelled,
        _ => {
            return None;
        },
    };
    Some(Message::Touch { phase, touch_id: touch_id as u64, x, y })
}

/// One occurrence on the render thread.
#[derive(Clone, Copy, Debug, PartialEq, Eq, Structural)]
pub enum Turn {
    /// A message is processed.
    Message(Message),
    /// A turn of the frame loop comes to its frame.
    Frame,
    /// The frame was drawn and shown.
    FrameDone,
    /// The application asks to quit.
    RequestQuit,
    /// The application takes its request back.
    CancelQuit,
    /// The application finalizes quitting.
    OrderQuit,
    /// A close attempt is decided.
    CloseDecided,
}

impl MainThreadState {
    /// What the render thread is told to do in one turn.
    pub open spec fn actions_in(self, display: DisplayState, fullscreen: bool, turn: Turn) -> Seq<
        Action,
    > {
        match turn {
            Turn::Message(msg) => self.actions_for(fullscreen, msg),
            Turn::Frame => self.frame_actions(),
            Turn::FrameDone => self.after_frame_actions(display),
            _ => Seq::empty(),
        }
    }

    /// The state of the render thread after one turn.
    pub open spec fn after_turn(self, turn: Turn) -> MainThreadState {
        match turn {
            Turn::Message(msg) => self.after(msg),
            _ => self,
        }
    }

    /// The display data after one turn.
    pub open spec fn display_after_turn(self, display: DisplayState, turn: Turn) -> DisplayState {
        match turn {
            Turn::Message(msg) => self.display_after(display, msg),
            Turn::RequestQuit => display.apply(DisplayOp::RequestQuit),
            Turn::CancelQuit => display.apply(DisplayOp::CancelQuit),
            Turn::OrderQuit => display.apply(DisplayOp::OrderQuit),
            Turn::CloseDecided => display.apply(DisplayOp::CloseDecided),
            _ => display,
        }
    }
}

/// The render thread after a stretch of its life: where it stands, what the
/// display holds, and everything it was told to do, in order.
pub struct RenderRun {
    pub state: MainThreadState,
    pub display: DisplayState,
    pub trace: Seq<Action>,
}

/// The render thread after `turns`, first to last, in a display whose
/// fullscreen mode does not change meanwhile.
pub open spec fn run_turns(
    state: MainThreadState,
    display: DisplayState,
    fullscreen: bool,
    turns: Seq<Turn>,
) -> RenderRun
    decreases turns.len(),
{
    if turns.len() == 0 {
        RenderRun { state, display, trace: Seq::empty() }
    } else {
        let before = run_turns(state, display, fullscreen, turns.drop_last());
        RenderRun {
            state: before.state.after_turn(turns.last()),
            display: before.state.display_after_turn(before.display, turns.last()),
            trace: before.trace + before.state.actions_in(
                before.display,
                fullscreen,
                turns.last(),
            ),
        }
    }
}

proof fn lemma_detaching_releases(s: MainThreadState)
    requires
        s.phase == Phase::Running,
    ensures
        held_through(s.held(), s.detaching()) == Some(
            seq![Resource::Display, Resource::Context],
        ),
{
    let base = seq![Resource::Display, Resource::Context];
    if s.surface_attached {
        let h = s.held();
        let none = Seq::<Action>::empty();
        lemma_held_through_nothing::<Action>(h);
        lemma_held_through_push(h, none, Action::ClearCurrent);
        assert(h.drop_last() =~= seq![Resource::Display, Resource::Context, Resource::Surface]);
        lemma_held_through_push(h, none.push(Action::ClearCurrent), Action::DestroySurface);
        assert(h.drop_last().drop_last() =~= base);
        assert(none.push(Action::ClearCurrent).push(Action::DestroySurface) =~= s.detaching());
    } else {
        lemma_held_through_nothing::<Action>(s.held());
    }
}

proof fn lemma_surface_acquires(window: usize)
    ensures
        held_through(
            seq![Resource::Display, Resource::Context],
            seq![Action::CreateSurface { window }, Action::MakeCurrent],
        ) == Some(
            seq![Resource::Display, Resource::Context, Resource::Surface, Resource::Current],
        ),
{
    let base = seq![Resource::Display, Resource::Context];
    let none = Seq::<Action>::empty();
    lemma_held_through_nothing::<Action>(base);
    lemma_held_through_push(base, none, Action::CreateSurface { window });
    assert(!base.contains(Resource::Surface));
    let with_surface = base.push(Resource::Surface);
    lemma_held_through_push(
        base,
        none.push(Action::CreateSurface { window }),
        Action::MakeCurrent,
    );
    assert(!with_surface.contains(Resource::Current));
    assert(with_surface.push(Resource::Current) =~= seq![
        Resource::Display,
        Resource::Context,
        Resource::Surface,
        Resource::Current,
    ]);
    assert(none.push(Action::CreateSurface { window }).push(Action::MakeCurrent) =~= seq![
        Action::CreateSurface { window },
        Action::MakeCurrent,
    ]);
}

proof fn lemma_starting_acquires(window: usize)
    ensures
        held_through(Seq::<Resource>::empty(), MainThreadState::starting(window)) == Some(
            seq![Resource::Display, Resource::Context, Resource::Surface, Resource::Current],
        ),
{
    let nothing = Seq::<Resource>::empty();
    let none = Seq::<Action>::empty();
    let a1 = none.push(Action::InitializeDisplay);
    let a2 = a1.push(Action::CreateContext);
    let a3 = a2.push(Action::CreateSurface { window });
    let a4 = a3.push(Action::MakeCurrent);
    let a5 = a4.push(Action::LoadGlFunctions);
    let a6 = a5.push(Action::CreateHandler);
    lemma_held_through_nothing::<Action>(nothing);
    lemma_held_through_push(nothing, none, Action::InitializeDisplay);
    let h1 = nothing.push(Resource::Display);
    assert(!h1.contains(Resource::Context));
    lemma_held_through_push(nothing, a1, Action::CreateContext);
    let h2 = h1.push(Resource::Context);
    assert(!h2.contains(Resource::Surface));
    lemma_held_through_push(nothing, a2, Action::CreateSurface { window });
    let h3 = h2.push(Resource::Surface);
    assert(!h3.contains(Resource::Current));
    lemma_held_through_push(nothing, a3, Action::MakeCurrent);
    let h4 = h3.push(Resource::Current);
    lemma_held_through_push(nothing, a4, Action::LoadGlFunctions);
    lemma_held_through_push(nothing, a5, Action::CreateHandler);
    assert(a6 =~= MainThreadState::starting(window));
    assert(h4 =~= seq![
        Resource::Display,
        Resource::Context,
        Resource::Surface,
        Resource::Current,
    ]);
}

proof fn lemma_attaching_acquires(s: MainThreadState, window: usize)
    requires
        s.phase == Phase::Running,
    ensures
        held_through(s.held(), s.attaching(window)) == Some(
            seq![Resource::Display, Resource::Context, Resource::Surface, Resource::Current],
        ),
{
    let release = if s.window != 0 {
        seq![Action::ReleaseWindow { window: s.window }]
    } else {
        Seq::<Action>::empty()
    };
    let create = seq![Action::CreateSurface { window }, Action::MakeCurrent];
    if s.window != 0 {
        lemma_effects_of_one(Action::ReleaseWindow { window: s.window });
    } else {
        lemma_held_through_nothing::<Action>(s.held());
    }
    assert(held_through(s.held(), release) == Some(s.held())) by {
        assert(held_after(s.held(), Seq::<ResourceEvent>::empty()) == Some(s.held()));
    }
    lemma_held_through_concat(s.held(), release, s.detaching());
    lemma_detaching_releases(s);
    lemma_held_through_concat(s.held(), release + s.detaching(), create);
    lemma_surface_acquires(window);
}

/// Whatever the message, what the render thread is told to do keeps the
/// discipline of resources, and what it holds afterwards is what its new
/// state says.
pub proof fn lemma_message_keeps_discipline(s: MainThreadState, fullscreen: bool, msg: Message)
    ensures
        held_through(s.held(), s.actions_for(fullscreen, msg)) == Some(s.after(msg).held()),
{
    let actions = s.actions_for(fullscreen, msg);
    match s.phase {
        Phase::Terminated => {
            lemma_held_through_nothing::<Action>(s.held());
        },
        Phase::AwaitingSurface => {
            if announces_usable_surface(msg) {
                lemma_starting_acquires(msg->SurfaceChanged_window);
                assert(s.held() =~= Seq::<Resource>::empty());
            } else {
                lemma_held_through_nothing::<Action>(s.held());
            }
        },
        Phase::Running => {
            match msg {
                Message::SurfaceCreated { window } => {
                    lemma_attaching_acquires(s, window);
                },
                Message::SurfaceDestroyed => {
                    lemma_detaching_releases(s);
                },
                Message::SurfaceChanged { window, width, height } => {
                    lemma_attaching_acquires(s, window);
                    lemma_held_through_push(s.held(), s.attaching(window), actions.last());
                    assert(actions =~= s.attaching(window).push(actions.last()));
                },
                Message::Resume => {
                    lemma_held_through_nothing::<Action>(s.held());
                    let none = Seq::<Action>::empty();
                    if fullscreen {
                        lemma_held_through_push(
                            s.held(),
                            none,
                            Action::SetFullScreen { fullscreen: true },
                        );
                        lemma_held_through_push(
                            s.held(),
                            none.push(Action::SetFullScreen { fullscreen: true }),
                            Action::Invoke(Callback::WindowRestored),
                        );
                        assert(actions =~= none.push(
                            Action::SetFullScreen { fullscreen: true },
                        ).push(Action::Invoke(Callback::WindowRestored)));
                    } else {
                        lemma_held_through_push(
                            s.held(),
                            none,
                            Action::Invoke(Callback::WindowRestored),
                        );
                        assert(actions =~= none.push(Action::Invoke(Callback::WindowRestored)));
                    }
                },
                _ => {
                    lemma_held_through_nothing::<Action>(s.held());
                    if actions.len() > 0 {
                        assert(actions =~= Seq::<Action>::empty().push(actions[0]));
                        lemma_held_through_push(s.held(), Seq::<Action>::empty(), actions[0]);
                    } else {
                        assert(actions =~= Seq::<Action>::empty());
                    }
                },
            }
        },
    }
}

/// A frame acquires and releases nothing.
pub proof fn lemma_frame_keeps_discipline(s: MainThreadState)
    ensures
        held_through(s.held(), s.frame_actions()) == Some(s.held()),
{
    lemma_held_through_nothing::<Action>(s.held());
    if s.frame_actions().len() > 0 {
        let none = Seq::<Action>::empty();
        let a1 = none.push(Action::Invoke(Callback::Update));
        let a2 = a1.push(Action::Invoke(Callback::Draw));
        lemma_held_through_push(s.held(), none, Action::Invoke(Callback::Update));
        lemma_held_through_push(s.held(), a1, Action::Invoke(Callback::Draw));
        lemma_held_through_push(s.held(), a2, Action::SwapBuffers);
        assert(a2.push(Action::SwapBuffers) =~= s.frame_actions());
    }
}

/// The teardown gives back everything that is held, last acquired first,
/// and leaves a state that holds nothing and that a further teardown has
/// nothing to do for.
pub proof fn lemma_teardown_releases_all(s: MainThreadState)
    ensures
        held_through(s.held(), s.teardown_actions()) == Some(Seq::<Resource>::empty()),
        effects(s.teardown_actions()) == releases_of(s.held()),
        s.torn_down().held() == Seq::<Resource>::empty(),
        s.torn_down().teardown_actions() == Seq::<Action>::empty(),
{
    lemma_releases_leave_nothing(s.held());
    if s.phase == Phase::Running {
        let base = seq![Resource::Display, Resource::Context];
        let last_two = seq![Action::DestroyContext, Action::TerminateDisplay];
        let none = Seq::<Action>::empty();
        lemma_effects_concat(s.detaching(), last_two);
        lemma_effects_of_one(Action::DestroyContext);
        lemma_effects_of_one(Action::TerminateDisplay);
        lemma_effects_concat(seq![Action::DestroyContext], seq![Action::TerminateDisplay]);
        assert(last_two =~= seq![Action::DestroyContext] + seq![Action::TerminateDisplay]);
        if s.surface_attached {
            lemma_effects_of_one(Action::ClearCurrent);
            lemma_effects_of_one(Action::DestroySurface);
            lemma_effects_concat(seq![Action::ClearCurrent], seq![Action::DestroySurface]);
            assert(s.detaching() =~= seq![Action::ClearCurrent] + seq![Action::DestroySurface]);
        } else {
            assert(effects(s.detaching()) =~= Seq::<ResourceEvent>::empty());
        }
        assert(effects(s.teardown_actions()) =~= releases_of(s.held()));
    } else {
        assert(effects(s.teardown_actions()) =~= releases_of(s.held()));
    }
}

/// Whatever the turn, what the render thread is told to do keeps the
/// discipline of resources, and what it holds afterwards is what its new
/// state says.
pub proof fn lemma_turn_keeps_discipline(
    s: MainThreadState,
    display: DisplayState,
    fullscreen: bool,
    turn: Turn,
)
    ensures
        held_through(s.held(), s.actions_in(display, fullscreen, turn)) == Some(
            s.after_turn(turn).held(),
        ),
{
    let actions = s.actions_in(display, fullscreen, turn);
    match turn {
        Turn::Message(msg) => {
            lemma_message_keeps_discipline(s, fullscreen, msg);
        },
        Turn::Frame => {
            lemma_frame_keeps_discipline(s);
        },
        _ => {
            lemma_held_through_nothing::<Action>(s.held());
            if actions.len() > 0 {
                assert(actions =~= Seq::<Action>::empty().push(actions[0]));
                lemma_held_through_push(s.held(), Seq::<Action>::empty(), actions[0]);
            } else {
                assert(actions =~= Seq::<Action>::empty());
            }
        },
    }
}

/// Through any stretch of its life the render thread keeps the discipline
/// of resources: nothing is acquired twice, only the resource acquired last
/// is released, and what is held in the end is what the state says.
pub proof fn lemma_run_keeps_discipline(
    state: MainThreadState,
    display: DisplayState,
    fullscreen: bool,
    turns: Seq<Turn>,
)
    ensures
        held_through(state.held(), run_turns(state, display, fullscreen, turns).trace) == Some(
            run_turns(state, display, fullscreen, turns).state.held(),
        ),
    decreases turns.len(),
{
    if turns.len() == 0 {
        lemma_held_through_nothing::<Action>(state.held());
    } else {
        let before = run_turns(state, display, fullscreen, turns.drop_last());
        lemma_run_keeps_discipline(state, display, fullscreen, turns.drop_last());
        lemma_turn_keeps_discipline(before.state, before.display, fullscreen, turns.last());
        lemma_held_through_concat(
            state.held(),
            before.trace,
            before.state.actions_in(before.display, fullscreen, turns.last()),
        );
    }
}

/// Over its whole life, however that goes, the render thread gives back
/// every resource it acquired, in strict reverse order of acquisition and
/// once: after the teardown nothing is held.
pub proof fn lemma_whole_life_releases_all(display: DisplayState, fullscreen: bool, turns: Seq<Turn>)
    ensures
        ({
            let run = run_turns(MainThreadState::initial(), display, fullscreen, turns);
            held_through(Seq::<Resource>::empty(), run.trace + run.state.teardown_actions())
                == Some(Seq::<Resource>::empty())
        }),
{
    let start = MainThreadState::initial();
    let run = run_turns(start, display, fullscreen, turns);
    assert(start.held() =~= Seq::<Resource>::empty());
    lemma_run_keeps_discipline(start, display, fullscreen, turns);
    lemma_teardown_releases_all(run.state);
    lemma_held_through_concat(start.held(), run.trace, run.state.teardown_actions());
}

/// A message never makes the event handler draw, and whenever it changes
/// the framebuffer size of a backend that is up, the event handler is told
/// the new size by the actions for that very message: after them the size
/// it knows is the size the display holds.
pub proof fn lemma_message_tells_resize(
    s: MainThreadState,
    display: DisplayState,
    fullscreen: bool,
    msg: Message,
)
    ensures
        !draws(s.actions_for(fullscreen, msg)),
        s.phase == Phase::Running ==> s.after(msg).phase == Phase::Running,
        s.phase == Phase::Running ==> notified_size(display.size(), s.actions_for(fullscreen, msg))
            == s.display_after(display, msg).size(),
        s.phase == Phase::Terminated ==> s.display_after(display, msg) == display,
{
    let actions = s.actions_for(fullscreen, msg);
    let known = display.size();
    if s.phase == Phase::Running {
        match msg {
            Message::SurfaceChanged { window, width, height } => {
                assert(actions.drop_last() =~= s.attaching(window));
            },
            _ => {
                assert(tells_no_size(actions));
                lemma_silent_actions_notify_nothing(known, actions);
            },
        }
    }
}

/// A frame tells the event handler no size and changes none.
pub proof fn lemma_frame_tells_no_size(s: MainThreadState, known: (i32, i32))
    ensures
        notified_size(known, s.frame_actions()) == known,
        draws(s.frame_actions()) ==> s.phase == Phase::Running && s.surface_attached,
{
    assert(tells_no_size(s.frame_actions()));
    lemma_silent_actions_notify_nothing(known, s.frame_actions());
}

/// The event handler is told of every resize before it draws again. Take a
/// backend that is up and an event handler that knows the framebuffer
/// size. Then after any stretch of turns the size that the event handler
/// was told last is the size that the display holds. Only a frame makes the
/// event handler draw, and a frame changes no size, so whenever `draw` is
/// called, the size it can query is one it has been told.
pub proof fn lemma_draw_sees_notified_size(
    state: MainThreadState,
    display: DisplayState,
    fullscreen: bool,
    turns: Seq<Turn>,
)
    requires
        state.phase == Phase::Running,
    ensures
        run_turns(state, display, fullscreen, turns).state.phase == Phase::Running,
        notified_size(display.size(), run_turns(state, display, fullscreen, turns).trace)
            == run_turns(state, display, fullscreen, turns).display.size(),
    decreases turns.len(),
{
    if turns.len() > 0 {
        let before = run_turns(state, display, fullscreen, turns.drop_last());
        lemma_draw_sees_notified_size(state, display, fullscreen, turns.drop_last());
        let actions = before.state.actions_in(before.display, fullscreen, turns.last());
        lemma_notified_size_concat(display.size(), before.trace, actions);
        match turns.last() {
            Turn::Message(msg) => {
                lemma_message_tells_resize(before.state, before.display, fullscreen, msg);
            },
            Turn::Frame => {
                lemma_frame_tells_no_size(before.state, before.display.size());
            },
            _ => {
                assert(tells_no_size(actions));
                lemma_silent_actions_notify_nothing(before.display.size(), actions);
            },
        }
    }
}

/// While no surface is attached nothing is drawn: a frame after the surface
/// was destroyed does nothing, and the first frame after a surface was
/// created anew draws on a surface that was created on the new window.
pub proof fn lemma_no_frame_without_surface(s: MainThreadState, window: usize)
    requires
        s.phase == Phase::Running,
    ensures
        s.after(Message::SurfaceDestroyed).frame_actions() == Seq::<Action>::empty(),
        s.after(Message::SurfaceDestroyed).attaching(window) =~= (if s.window != 0 {
            seq![Action::ReleaseWindow { window: s.window }]
        } else {
            Seq::<Action>::empty()
        }) + seq![Action::CreateSurface { window }, Action::MakeCurrent],
        draws(
            s.after(Message::SurfaceDestroyed).after(
                Message::SurfaceCreated { window },
            ).frame_actions(),
        ),
{
    let f = s.after(Message::SurfaceDestroyed).after(
        Message::SurfaceCreated { window },
    ).frame_actions();
    assert(f[1] == Action::Invoke(Callback::Draw));
}

/// How often bringing the backend up creates the event handler and
/// resolves the functions of the graphics interface: once each.
proof fn lemma_count_in_starting(window: usize)
    ensures
        count(MainThreadState::starting(window), Action::CreateHandler) == 1,
        count(MainThreadState::starting(window), Action::LoadGlFunctions) == 1,
{
    let none = Seq::<Action>::empty();
    let a1 = none.push(Action::InitializeDisplay);
    let a2 = a1.push(Action::CreateContext);
    let a3 = a2.push(Action::CreateSurface { window });
    let a4 = a3.push(Action::MakeCurrent);
    let a5 = a4.push(Action::LoadGlFunctions);
    let a6 = a5.push(Action::CreateHandler);
    assert(a6 =~= MainThreadState::starting(window));
    lemma_count_push(none, Action::InitializeDisplay, Action::CreateHandler);
    lemma_count_push(a1, Action::CreateContext, Action::CreateHandler);
    lemma_count_push(a2, Action::CreateSurface { window }, Action::CreateHandler);
    lemma_count_push(a3, Action::MakeCurrent, Action::CreateHandler);
    lemma_count_push(a4, Action::LoadGlFunctions, Action::CreateHandler);
    lemma_count_push(a5, Action::CreateHandler, Action::CreateHandler);
    lemma_count_push(none, Action::InitializeDisplay, Action::LoadGlFunctions);
    lemma_count_push(a1, Action::CreateContext, Action::LoadGlFunctions);
    lemma_count_push(a2, Action::CreateSurface { window }, Action::LoadGlFunctions);
    lemma_count_push(a3, Action::MakeCurrent, Action::LoadGlFunctions);
    lemma_count_push(a4, Action::LoadGlFunctions, Action::LoadGlFunctions);
    lemma_count_push(a5, Action::CreateHandler, Action::LoadGlFunctions);
}

/// The event handler is created once, and the functions of the graphics
/// interface are resolved once, when the first usable surface brings the
/// backend up; neither happens before, and neither happens again.
pub proof fn lemma_handler_created_once(display: DisplayState, fullscreen: bool, turns: Seq<Turn>)
    ensures
        ({
            let run = run_turns(MainThreadState::initial(), display, fullscreen, turns);
            let up: nat = if run.state.phase == Phase::Running {
                1
            } else {
                0
            };
            &&& run.state.phase != Phase::Terminated
            &&& count(run.trace, Action::CreateHandler) == up
            &&& count(run.trace, Action::LoadGlFunctions) == up
        }),
    decreases turns.len(),
{
    let start = MainThreadState::initial();
    if turns.len() > 0 {
        let before = run_turns(start, display, fullscreen, turns.drop_last());
        lemma_handler_created_once(display, fullscreen, turns.drop_last());
        let actions = before.state.actions_in(before.display, fullscreen, turns.last());
        lemma_count_concat(before.trace, actions, Action::CreateHandler);
        lemma_count_concat(before.trace, actions, Action::LoadGlFunctions);
        let starts = before.state.phase == Phase::AwaitingSurface && (turns.last() matches Turn::Message(
            msg,
        ) && announces_usable_surface(msg));
        if starts {
            lemma_count_in_starting(turns.last()->Message_0->SurfaceChanged_window);
        } else {
            lemma_count_absent(actions, Action::CreateHandler);
            lemma_count_absent(actions, Action::LoadGlFunctions);
        }
    }
}

/// Quitting on the application's own account. A request to quit makes the
/// event handler be asked after the frame, once. If the application cancels
/// from within the handler, the loop goes on as before and no quit is
/// pending or final. If it does not cancel, quitting becomes final and the
/// loop ends. An order to quit ends the loop without the handler being
/// asked.
pub proof fn lemma_quit_negotiation(s: MainThreadState, display: DisplayState)
    requires
        s.phase == Phase::Running,
        !display.quit_ordered,
    ensures
        ({
            let requested = display.apply(DisplayOp::RequestQuit);
            let vetoed = requested.apply(DisplayOp::CancelQuit).apply(DisplayOp::CloseDecided);
            let decided = requested.apply(DisplayOp::CloseDecided);
            let ordered = display.apply(DisplayOp::OrderQuit);
            &&& s.after_frame_actions(requested) == seq![Action::Invoke(Callback::QuitRequested)]
            &&& s.goes_on(vetoed) == s.goes_on(display)
            &&& !vetoed.quit_requested && !vetoed.quit_ordered
            &&& s.after_frame_actions(vetoed) == Seq::<Action>::empty()
            &&& !s.goes_on(decided)
            &&& !s.goes_on(ordered)
            &&& s.after_frame_actions(ordered) == Seq::<Action>::empty()
        }),
{
}

} // verus!
